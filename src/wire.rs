//! Byte layouts on the wire: the discovery datagram and the multipart
//! frames of publish, request and reply.
use vstd::prelude::*;
use vstd::string::StrSliceExecFns;
use vstd::string::StringSliceAdditionalSpecFns;
use vstd::utf8::{decode_utf8, valid_utf8};

verus! {

/// Largest discovery datagram, prefix included.
pub const MAX_RCV_STR: usize = 65535;

/// Why a datagram could not be framed or unframed.
#[derive(Debug, Clone, Copy, PartialEq, Eq, Structural)]
pub enum WireError {
    /// The framed message would exceed `MAX_RCV_STR` bytes.
    TooLarge,
    /// The length prefix does not match the bytes received.
    BadLength,
}

/// The two-byte little-endian encoding of `n`.
pub open spec fn le16(n: nat) -> Seq<u8> {
    seq![(n % 256) as u8, (n / 256) as u8]
}

/// A length prefix followed by the payload.
pub open spec fn framed(payload: Seq<u8>) -> Seq<u8> {
    le16(payload.len()) + payload
}

/// The length that a datagram's prefix announces.
pub open spec fn announced(b: Seq<u8>) -> nat {
    b[0] as nat + 256 * (b[1] as nat)
}

/// Prefixes a serialized discovery message with its length.
pub fn discovery_msg_encode(payload: &Vec<u8>) -> (r: Result<Vec<u8>, WireError>)
    ensures
        match r {
            Ok(b) => payload@.len() + 2 <= MAX_RCV_STR && b@ == framed(payload@),
            Err(e) => e == WireError::TooLarge && payload@.len() + 2 > MAX_RCV_STR,
        },
{
    let n = payload.len();
    if n > MAX_RCV_STR - 2 {
        return Err(WireError::TooLarge);
    }
    let mut out: Vec<u8> = Vec::new();
    out.push((n % 256) as u8);
    out.push((n / 256) as u8);
    let mut i: usize = 0;
    while i < n
        invariant
            n == payload@.len(),
            n + 2 <= MAX_RCV_STR,
            i <= n,
            out@ == le16(n as nat) + payload@.subrange(0, i as int),
        decreases n - i,
    {
        out.push(payload[i]);
        i = i + 1;
        assert(out@ =~= le16(n as nat) + payload@.subrange(0, i as int));
    }
    assert(payload@.subrange(0, n as int) =~= payload@);
    Ok(out)
}

/// The payload of the first `received` bytes of `rcv_str`, when its prefix
/// announces exactly the bytes that follow it.
pub fn discovery_msg_decode(rcv_str: &Vec<u8>, received: usize) -> (r: Result<Vec<u8>, WireError>)
    ensures
        match r {
            Ok(p) => {
                &&& 2 <= received <= rcv_str@.len()
                &&& announced(rcv_str@) + 2 == received
                &&& p@ == rcv_str@.subrange(2, received as int)
            },
            Err(e) => {
                &&& e == WireError::BadLength
                &&& !(2 <= received <= rcv_str@.len() && announced(rcv_str@) + 2 == received)
            },
        },
{
    if received < 2 || received > rcv_str.len() {
        return Err(WireError::BadLength);
    }
    let len: usize = rcv_str[0] as usize + 256 * (rcv_str[1] as usize);
    if len + 2 != received {
        return Err(WireError::BadLength);
    }
    let mut out: Vec<u8> = Vec::new();
    let mut i: usize = 2;
    while i < received
        invariant
            2 <= i <= received <= rcv_str@.len(),
            out@ == rcv_str@.subrange(2, i as int),
        decreases received - i,
    {
        out.push(rcv_str[i]);
        i = i + 1;
        assert(out@ =~= rcv_str@.subrange(2, i as int));
    }
    Ok(out)
}

/// Unframing a framed payload gives the payload back.
pub proof fn lemma_frame_round_trip(payload: Seq<u8>)
    requires
        payload.len() + 2 <= MAX_RCV_STR,
    ensures
        announced(framed(payload)) + 2 == framed(payload).len(),
        framed(payload).subrange(2, framed(payload).len() as int) == payload,
{
    let n = payload.len();
    assert(framed(payload)[0] == (n % 256) as u8);
    assert(framed(payload)[1] == (n / 256) as u8);
    assert((n % 256) as u8 as nat + 256 * ((n / 256) as u8 as nat) == n);
    assert(framed(payload).subrange(2, framed(payload).len() as int) =~= payload);
}

/// The bytes of a string.
pub fn text_bytes(s: &str) -> (r: Vec<u8>)
    ensures
        r@ == s.spec_bytes(),
{
    s.as_bytes_vec()
}

fn copy_bytes(b: &Vec<u8>) -> (r: Vec<u8>)
    ensures
        r@ == b@,
{
    let mut out: Vec<u8> = Vec::new();
    let mut i: usize = 0;
    while i < b.len()
        invariant
            i <= b@.len(),
            out@ == b@.subrange(0, i as int),
        decreases b@.len() - i,
    {
        out.push(b[i]);
        i = i + 1;
        assert(out@ =~= b@.subrange(0, i as int));
    }
    assert(out@ =~= b@);
    out
}

/// The byte sequence of each part of a multipart frame.
pub open spec fn part_bytes(parts: Seq<Vec<u8>>) -> Seq<Seq<u8>> {
    parts.map_values(|p: Vec<u8>| p@)
}

/// The four parts of a publish frame: topic, publisher address, payload,
/// message type.
pub fn publish_parts(topic: &str, publisher_address: &str, data: &Vec<u8>, msg_type: &str) -> (r: Vec<Vec<u8>>)
    ensures
        part_bytes(r@) == seq![topic.spec_bytes(), publisher_address.spec_bytes(), data@, msg_type.spec_bytes()],
{
    let mut v: Vec<Vec<u8>> = Vec::new();
    v.push(text_bytes(topic));
    v.push(text_bytes(publisher_address));
    v.push(copy_bytes(data));
    v.push(text_bytes(msg_type));
    assert(part_bytes(v@) =~= seq![topic.spec_bytes(), publisher_address.spec_bytes(), data@, msg_type.spec_bytes()]);
    v
}

/// What identifies a request on the wire, besides its payload.
pub struct RequestHeader<'a> {
    pub replier_id: &'a str,
    pub topic: &'a str,
    pub requester_address: &'a str,
    pub requester_id: &'a str,
    pub node_uuid: &'a str,
    pub req_uuid: &'a str,
    pub req_type: &'a str,
    pub res_type: &'a str,
}

/// The nine parts of a request frame: replier identity, topic, requester
/// address, requester identity, requester node, request id, payload, request
/// type, response type.
pub fn request_parts(h: &RequestHeader, data: &Vec<u8>) -> (r: Vec<Vec<u8>>)
    ensures
        part_bytes(r@) == seq![
            h.replier_id.spec_bytes(),
            h.topic.spec_bytes(),
            h.requester_address.spec_bytes(),
            h.requester_id.spec_bytes(),
            h.node_uuid.spec_bytes(),
            h.req_uuid.spec_bytes(),
            data@,
            h.req_type.spec_bytes(),
            h.res_type.spec_bytes(),
        ],
{
    let mut v: Vec<Vec<u8>> = Vec::new();
    v.push(text_bytes(h.replier_id));
    v.push(text_bytes(h.topic));
    v.push(text_bytes(h.requester_address));
    v.push(text_bytes(h.requester_id));
    v.push(text_bytes(h.node_uuid));
    v.push(text_bytes(h.req_uuid));
    v.push(copy_bytes(data));
    v.push(text_bytes(h.req_type));
    v.push(text_bytes(h.res_type));
    assert(part_bytes(v@) =~= seq![
        h.replier_id.spec_bytes(),
        h.topic.spec_bytes(),
        h.requester_address.spec_bytes(),
        h.requester_id.spec_bytes(),
        h.node_uuid.spec_bytes(),
        h.req_uuid.spec_bytes(),
        data@,
        h.req_type.spec_bytes(),
        h.res_type.spec_bytes(),
    ]);
    v
}

/// The result flag of a reply: `1` for success, `0` for failure.
pub open spec fn result_flag(ok: bool) -> Seq<u8> {
    if ok { seq![49u8] } else { seq![48u8] }
}

/// The six parts of a reply frame: requester identity, topic, node, request
/// id, payload, result flag.
pub fn reply_parts(
    requester_id: &str,
    topic: &str,
    node_uuid: &str,
    req_uuid: &str,
    data: &Vec<u8>,
    result: bool,
) -> (r: Vec<Vec<u8>>)
    ensures
        part_bytes(r@) == seq![
            requester_id.spec_bytes(),
            topic.spec_bytes(),
            node_uuid.spec_bytes(),
            req_uuid.spec_bytes(),
            data@,
            result_flag(result),
        ],
{
    let mut v: Vec<Vec<u8>> = Vec::new();
    v.push(text_bytes(requester_id));
    v.push(text_bytes(topic));
    v.push(text_bytes(node_uuid));
    v.push(text_bytes(req_uuid));
    v.push(copy_bytes(data));
    let mut flag: Vec<u8> = Vec::new();
    if result {
        flag.push(49u8);
    } else {
        flag.push(48u8);
    }
    v.push(flag);
    assert(part_bytes(v@) =~= seq![
        requester_id.spec_bytes(),
        topic.spec_bytes(),
        node_uuid.spec_bytes(),
        req_uuid.spec_bytes(),
        data@,
        result_flag(result),
    ]);
    v
}

/// Reads the result flag of a reply: success only for the single byte `1`.
pub fn parse_result_flag(b: &Vec<u8>) -> (r: bool)
    ensures
        r == (b@ == seq![49u8]),
{
    if b.len() == 1 && b[0] == 49u8 {
        assert(b@ =~= seq![49u8]);
        true
    } else {
        assert(b@ != seq![49u8]) by {
            if b@ == seq![49u8] {
                assert(b@[0] == seq![49u8][0]);
            }
        }
        false
    }
}


/// The text that a received part carries: its characters when it is valid
/// UTF-8, else nothing.
pub open spec fn part_text(b: Seq<u8>) -> Seq<char> {
    if valid_utf8(b) { decode_utf8(b) } else { Seq::empty() }
}

/// Relies on `std::str::from_utf8`: succeeds exactly on valid UTF-8 and then
/// yields the encoded characters.
#[verifier::external_body]
fn utf8_text(b: &Vec<u8>) -> (r: String)
    ensures
        r@ == part_text(b@),
{
    match std::str::from_utf8(b.as_slice()) {
        Ok(s) => s.to_string(),
        Err(_) => String::new(),
    }
}

/// A message published on a topic.
#[derive(Debug, Clone)]
pub struct PublishMessage {
    pub topic: String,
    pub publisher_address: String,
    pub msg_type: String,
    pub data: Vec<u8>,
}

/// A service request.
#[derive(Debug, Clone)]
pub struct RequestMessage {
    pub replier_address: Option<String>,
    pub replier_id: String,
    pub topic: String,
    pub requester_address: String,
    pub requester_id: String,
    pub node_uuid: String,
    pub req_uuid: String,
    pub data: Vec<u8>,
    pub req_type: String,
    pub res_type: String,
}

/// The reply to a service request.
#[derive(Debug, Clone)]
pub struct ReplyMessage {
    pub requester_address: Option<String>,
    pub requester_id: String,
    pub topic: String,
    pub node_uuid: String,
    pub req_uuid: String,
    pub data: Vec<u8>,
    pub result: bool,
}

/// Reads a received publish frame: exactly four parts.
pub fn parse_publish(parts: &Vec<Vec<u8>>) -> (r: Option<PublishMessage>)
    ensures
        r is Some <==> parts@.len() == 4,
        r matches Some(m) ==> {
            &&& m.topic@ == part_text(parts@[0]@)
            &&& m.publisher_address@ == part_text(parts@[1]@)
            &&& m.data@ == parts@[2]@
            &&& m.msg_type@ == part_text(parts@[3]@)
        },
{
    if parts.len() != 4 {
        return None;
    }
    Some(PublishMessage {
        topic: utf8_text(&parts[0]),
        publisher_address: utf8_text(&parts[1]),
        data: copy_bytes(&parts[2]),
        msg_type: utf8_text(&parts[3]),
    })
}

/// Reads a received request frame. The sending router consumed the first
/// part (the replier's identity) and the receiving router put the sender's
/// identity in its place, so nine parts arrive: that identity, then topic,
/// requester address, requester identity, requester node, request id,
/// payload, request type and response type.
pub fn parse_request(parts: &Vec<Vec<u8>>) -> (r: Option<RequestMessage>)
    ensures
        r is Some <==> parts@.len() == 9,
        r matches Some(m) ==> {
            &&& m.replier_address.is_none()
            &&& m.replier_id@ == part_text(parts@[0]@)
            &&& m.topic@ == part_text(parts@[1]@)
            &&& m.requester_address@ == part_text(parts@[2]@)
            &&& m.requester_id@ == part_text(parts@[3]@)
            &&& m.node_uuid@ == part_text(parts@[4]@)
            &&& m.req_uuid@ == part_text(parts@[5]@)
            &&& m.data@ == parts@[6]@
            &&& m.req_type@ == part_text(parts@[7]@)
            &&& m.res_type@ == part_text(parts@[8]@)
        },
{
    if parts.len() != 9 {
        return None;
    }
    Some(RequestMessage {
        replier_address: None,
        replier_id: utf8_text(&parts[0]),
        topic: utf8_text(&parts[1]),
        requester_address: utf8_text(&parts[2]),
        requester_id: utf8_text(&parts[3]),
        node_uuid: utf8_text(&parts[4]),
        req_uuid: utf8_text(&parts[5]),
        data: copy_bytes(&parts[6]),
        req_type: utf8_text(&parts[7]),
        res_type: utf8_text(&parts[8]),
    })
}

/// Reads a received reply frame. As for requests, the first part that was
/// sent (the requester's identity) arrives replaced by the sender's
/// identity, so six parts arrive: that identity, then topic, node, request
/// id, payload and result flag.
pub fn parse_reply(parts: &Vec<Vec<u8>>) -> (r: Option<ReplyMessage>)
    ensures
        r is Some <==> parts@.len() == 6,
        r matches Some(m) ==> {
            &&& m.requester_address.is_none()
            &&& m.requester_id@ == part_text(parts@[0]@)
            &&& m.topic@ == part_text(parts@[1]@)
            &&& m.node_uuid@ == part_text(parts@[2]@)
            &&& m.req_uuid@ == part_text(parts@[3]@)
            &&& m.data@ == parts@[4]@
            &&& m.result == (parts@[5]@ == seq![49u8])
        },
{
    if parts.len() != 6 {
        return None;
    }
    Some(ReplyMessage {
        requester_address: None,
        requester_id: utf8_text(&parts[0]),
        topic: utf8_text(&parts[1]),
        node_uuid: utf8_text(&parts[2]),
        req_uuid: utf8_text(&parts[3]),
        data: copy_bytes(&parts[4]),
        result: parse_result_flag(&parts[5]),
    })
}

} // verus!
