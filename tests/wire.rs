use rgz_transport::wire::{
    parse_publish, parse_reply, parse_request,
    discovery_msg_decode, discovery_msg_encode, parse_result_flag, publish_parts, reply_parts, request_parts,
    RequestHeader, WireError,
};

#[test]
fn frame_has_little_endian_length_prefix() {
    let payload = vec![7u8; 300];
    let framed = discovery_msg_encode(&payload).unwrap();
    assert_eq!(framed.len(), 302);
    assert_eq!(&framed[..2], &[44u8, 1u8]);
    assert_eq!(discovery_msg_decode(&framed, framed.len()).unwrap(), payload);
}

#[test]
fn oversized_and_inconsistent_frames_are_rejected() {
    assert_eq!(discovery_msg_encode(&vec![0u8; 65534]), Err(WireError::TooLarge));
    assert!(discovery_msg_encode(&vec![0u8; 65533]).is_ok());
    assert_eq!(discovery_msg_decode(&vec![3u8, 0u8, 1u8], 3), Err(WireError::BadLength));
    assert_eq!(discovery_msg_decode(&vec![1u8], 1), Err(WireError::BadLength));
    assert_eq!(discovery_msg_decode(&vec![0u8, 0u8], 2), Ok(vec![]));
}

#[test]
fn multipart_frames_keep_their_order() {
    let parts = publish_parts("/foo", "tcp://a", &b"hello".to_vec(), "gz.msgs.StringMsg");
    assert_eq!(parts, vec![b"/foo".to_vec(), b"tcp://a".to_vec(), b"hello".to_vec(), b"gz.msgs.StringMsg".to_vec()]);
    let h = RequestHeader {
        replier_id: "r",
        topic: "/echo",
        requester_address: "tcp://b",
        requester_id: "q",
        node_uuid: "n",
        req_uuid: "u",
        req_type: "A",
        res_type: "B",
    };
    let parts = request_parts(&h, &b"x".to_vec());
    assert_eq!(parts.len(), 9);
    assert_eq!(parts[6], b"x".to_vec());
    assert_eq!(parts[8], b"B".to_vec());
    let parts = reply_parts("q", "/echo", "n", "u", &b"y".to_vec(), true);
    assert_eq!(parts[5], b"1".to_vec());
    assert!(parse_result_flag(&parts[5]));
    let parts = reply_parts("q", "/echo", "n", "u", &b"y".to_vec(), false);
    assert_eq!(parts[5], b"0".to_vec());
    assert!(!parse_result_flag(&parts[5]));
}

#[test]
fn received_frames_are_read_back() {
    let parts = publish_parts("/foo", "tcp://a", &b"hello".to_vec(), "gz.msgs.StringMsg");
    let m = parse_publish(&parts).unwrap();
    assert_eq!(m.topic, "/foo");
    assert_eq!(m.publisher_address, "tcp://a");
    assert_eq!(m.data, b"hello".to_vec());
    assert_eq!(m.msg_type, "gz.msgs.StringMsg");
    assert!(parse_publish(&parts[..3].to_vec()).is_none());

    // A router drops the first part it sends; the receiving router puts the
    // sender's identity in front.
    let mut reply = vec![b"peer".to_vec()];
    reply.extend(reply_parts("q", "/echo", "n", "u", &b"HELLO".to_vec(), true).into_iter().skip(1));
    let r = parse_reply(&reply).unwrap();
    assert_eq!((r.requester_id.as_str(), r.topic.as_str(), r.result), ("peer", "/echo", true));
    assert_eq!(r.req_uuid, "u");
    assert_eq!(r.data, b"HELLO".to_vec());

    let h = RequestHeader {
        replier_id: "r",
        topic: "/echo",
        requester_address: "tcp://b",
        requester_id: "q",
        node_uuid: "n",
        req_uuid: "u",
        req_type: "A",
        res_type: "B",
    };
    let mut request = vec![b"peer".to_vec()];
    request.extend(request_parts(&h, &b"x".to_vec()).into_iter().skip(1));
    assert_eq!(request.len(), 9);
    let q = parse_request(&request).unwrap();
    assert_eq!(q.replier_id, "peer");
    assert_eq!(q.topic, "/echo");
    assert_eq!(q.data, b"x".to_vec());
    assert_eq!(q.requester_address, "tcp://b");
    assert_eq!(q.res_type, "B");
    assert!(q.replier_address.is_none());
}

#[test]
fn invalid_utf8_parts_read_as_empty_text() {
    let parts = vec![vec![0xffu8, 0xfe], b"a".to_vec(), vec![1u8], b"T".to_vec()];
    let m = parse_publish(&parts).unwrap();
    assert_eq!(m.topic, "");
    assert_eq!(m.data, vec![1u8]);
}
