use rgz_transport::discovery_store::DiscoveryStore;
use rgz_transport::discovery_types::{MessagePublisher, PubType, Publisher, Scope};

fn create_msg_publisher(
    topic: &str,
    addr: &str,
    p_uuid: &str,
    n_uuid: &str,
    scope: Scope,
    msg_type: &str,
) -> Publisher {
    Publisher {
        topic: topic.to_string(),
        address: addr.to_string(),
        process_uuid: p_uuid.to_string(),
        node_uuid: n_uuid.to_string(),
        scope,
        pub_type: Some(PubType::MsgPub(MessagePublisher {
            ctrl: "".to_string(),
            throttled: false,
            msgs_per_sec: 0,
            msg_type: msg_type.to_string(),
        })),
    }
}

#[test]
fn test_add_publisher() {
    let mut store = DiscoveryStore::new();
    let pub1 = create_msg_publisher("topic1", "addr1", "p_uuid1", "n_uuid1", Scope::All, "gz.msgs.StringMsg");

    let check = store.add_publisher(pub1.clone());
    assert_eq!(check.unwrap(), ());

    let check = store.add_publisher(pub1.clone());
    assert_eq!(check.unwrap_err().message(), "Publisher already exists");
}

#[test]
fn test_has_topic() {
    let mut store = DiscoveryStore::new();
    let pub1 = create_msg_publisher("topic1", "addr1", "p_uuid1", "n_uuid1", Scope::All, "gz.msgs.StringMsg");

    store.add_publisher(pub1.clone()).unwrap();

    assert_eq!(store.has_topic("topic1"), true);
    assert_eq!(store.has_topic("topic2"), false);
}

#[test]
fn test_has_topic_and_msg_type() {
    let mut store = DiscoveryStore::new();
    let pub1 = create_msg_publisher("topic1", "addr1", "p_uuid1", "n_uuid1", Scope::All, "gz.msgs.StringMsg");

    store.add_publisher(pub1.clone()).unwrap();
    let result = store.has_topic_and_msg_type("topic1", "gz.msgs.StringMsg");
    assert_eq!(result, true);
}

#[test]
fn test_has_any_publishers() {
    let mut store = DiscoveryStore::new();
    let pub1 = create_msg_publisher("topic1", "addr1", "p_uuid1", "n_uuid1", Scope::All, "gz.msgs.StringMsg");

    store.add_publisher(pub1.clone()).unwrap();
    assert_eq!(store.has_any_publishers("topic1", "p_uuid1"), true);
    assert_eq!(store.has_any_publishers("topic1", "p_uuid2"), false);
}

#[test]
fn test_has_publisher() {
    let mut store = DiscoveryStore::new();
    let pub1 = create_msg_publisher("topic1", "addr1", "p_uuid1", "n_uuid1", Scope::All, "gz.msgs.StringMsg");
    store.add_publisher(pub1.clone()).unwrap();
    assert_eq!(store.has_publisher("addr1"), true);
    assert_eq!(store.has_publisher("addr2"), false);
}

#[test]
fn test_publisher() {
    let mut store = DiscoveryStore::new();
    let pub1 = create_msg_publisher("topic1", "addr1", "p_uuid1", "n_uuid1", Scope::All, "gz.msgs.StringMsg");
    store.add_publisher(pub1.clone()).unwrap();

    let pub2 = store.publisher("topic1", "p_uuid1", "n_uuid1");
    assert_eq!(Some(&pub1), pub2);
}

#[test]
fn test_publishers() {
    let mut store = DiscoveryStore::new();
    let pub1 = create_msg_publisher("topic1", "addr1", "p_uuid1", "n_uuid1", Scope::All, "gz.msgs.StringMsg");
    store.add_publisher(pub1.clone()).unwrap();

    let pub2 = create_msg_publisher("topic2", "addr2", "p_uuid2", "n_uuid2", Scope::All, "gz.msgs.StringMsg");
    store.add_publisher(pub2.clone()).unwrap();

    let mut publisher = store.publishers(Some("topic1"), Some("p_uuid1"), Some("n_uuid1"));
    assert_eq!(publisher.len(), 1);
    publisher = store.publishers(Some("topic1"), Some("p_uuid1"), None);
    assert_eq!(publisher.len(), 1);
    publisher = store.publishers(Some("topic1"), None, None);
    assert_eq!(publisher.len(), 1);
    publisher = store.publishers(Some("topic1"), None, Some("n_uuid1"));
    assert_eq!(publisher.len(), 1);
    publisher = store.publishers(None, Some("p_uuid1"), Some("n_uuid1"));
    assert_eq!(publisher.len(), 1);
    publisher = store.publishers(None, Some("p_uuid1"), None);
    assert_eq!(publisher.len(), 1);
    publisher = store.publishers(None, None, Some("n_uuid1"));
    assert_eq!(publisher.len(), 1);
    publisher = store.publishers(None, None, None);
    assert_eq!(publisher.len(), 2);
}

#[test]
fn test_del_publisher_by_node() {
    let mut store = DiscoveryStore::new();
    let pub1 = create_msg_publisher("topic1", "addr1", "p_uuid1", "n_uuid1", Scope::All, "gz.msgs.StringMsg");
    let pub2 = create_msg_publisher("topic2", "addr1", "p_uuid1", "n_uuid1", Scope::All, "gz.msgs.StringMsg");
    let pub3 = create_msg_publisher("topic1", "addr1", "p_uuid1", "n_uuid2", Scope::All, "gz.msgs.StringMsg");

    store.add_publisher(pub1.clone()).unwrap();
    store.add_publisher(pub2.clone()).unwrap();
    store.add_publisher(pub3.clone()).unwrap();

    let result = store.del_publisher_by_node("topic1", "p_uuid1", "n_uuid1");
    assert_eq!(result.is_ok(), true);

    let result = store.del_publisher_by_node("topic1", "p_uuid1", "n_uuid1");
    assert_eq!(result.is_err(), true);

    let pubs = store.publishers(None, None, None);
    assert_eq!(pubs.len(), 2);
}

#[test]
fn test_del_publisher_by_process() {
    let mut store = DiscoveryStore::new();
    let pub1 = create_msg_publisher("topic1", "addr1", "p_uuid1", "n_uuid1", Scope::All, "gz.msgs.StringMsg");
    let pub2 = create_msg_publisher("topic1", "addr1", "p_uuid1", "n_uuid2", Scope::All, "gz.msgs.StringMsg");
    let pub3 = create_msg_publisher("topic2", "addr1", "p_uuid2", "n_uuid1", Scope::All, "gz.msgs.StringMsg");

    store.add_publisher(pub1.clone()).unwrap();
    store.add_publisher(pub2.clone()).unwrap();
    store.add_publisher(pub3.clone()).unwrap();

    let pubs = store.publishers(Some("topic1"), None, None);
    assert_eq!(pubs.len(), 2);

    let result = store.del_publishers_by_process("p_uuid1");
    assert_eq!(result.is_ok(), true);

    let result = store.del_publishers_by_process("p_uuid1");
    assert_eq!(result.is_err(), true);

    let pubs = store.publishers(Some("topic1"), None, None);
    assert_eq!(pubs.len(), 0);

    let pubs = store.publishers(Some("topic2"), None, None);
    assert_eq!(pubs.len(), 1);
}

#[test]
fn test_publishers_by_process() {
    let mut store = DiscoveryStore::new();
    let pub1 = create_msg_publisher("topic1", "addr1", "p_uuid1", "n_uuid1", Scope::All, "gz.msgs.StringMsg");
    let pub2 = create_msg_publisher("topic1", "addr1", "p_uuid2", "n_uuid2", Scope::All, "gz.msgs.StringMsg");

    store.add_publisher(pub1.clone()).unwrap();
    store.add_publisher(pub2.clone()).unwrap();

    let pubs = store.publishers_by_process("p_uuid1");
    assert_eq!(pubs.len(), 1);

    let pubs = store.publishers_by_process("p_uuid2");
    assert_eq!(pubs.len(), 1);

    let pubs = store.publishers_by_process("p_uuid3");
    assert_eq!(pubs.len(), 0);
}

#[test]
fn test_publishers_by_node() {
    let mut store = DiscoveryStore::new();
    let pub1 = create_msg_publisher("topic1", "addr1", "p_uuid1", "n_uuid1", Scope::All, "gz.msgs.StringMsg");
    let pub2 = create_msg_publisher("topic1", "addr1", "p_uuid1", "n_uuid2", Scope::All, "gz.msgs.StringMsg");

    store.add_publisher(pub1.clone()).unwrap();
    store.add_publisher(pub2.clone()).unwrap();

    let pubs = store.publishers_by_node("p_uuid1", "n_uuid1");
    assert_eq!(pubs.len(), 1);

    let pubs = store.publishers_by_node("p_uuid2", "n_uuid2");
    assert_eq!(pubs.len(), 0);

    let pubs = store.publishers_by_node("p_uuid1", "n_uuid2");
    assert_eq!(pubs.len(), 1);
}

#[test]
fn test_topic_list() {
    let mut store = DiscoveryStore::new();
    let pub1 = create_msg_publisher("topic1", "addr1", "p_uuid1", "n_uuid1", Scope::All, "gz.msgs.StringMsg");
    let pub2 = create_msg_publisher("topic2", "addr1", "p_uuid1", "n_uuid2", Scope::All, "gz.msgs.StringMsg");

    store.add_publisher(pub1.clone()).unwrap();
    store.add_publisher(pub2.clone()).unwrap();

    let topics = store.topic_list();
    assert_eq!(topics.len(), 2);
}

#[test]
fn topic_list_names_each_topic_once() {
    let mut store = DiscoveryStore::new();
    store.add_publisher(create_msg_publisher("topic1", "addr1", "p1", "n1", Scope::All, "T")).unwrap();
    store.add_publisher(create_msg_publisher("topic2", "addr1", "p1", "n2", Scope::All, "T")).unwrap();
    store.add_publisher(create_msg_publisher("topic1", "addr2", "p2", "n1", Scope::All, "T")).unwrap();
    assert_eq!(store.topic_list(), vec!["topic1".to_string(), "topic2".to_string()]);
}

#[test]
fn same_topic_process_and_node_is_refused_whatever_the_address() {
    let mut store = DiscoveryStore::new();
    store.add_publisher(create_msg_publisher("t", "addr1", "p", "n", Scope::All, "T")).unwrap();
    let err = store.add_publisher(create_msg_publisher("t", "addr2", "p", "n", Scope::All, "T")).unwrap_err();
    assert_eq!(err.message(), "Publisher already exists");
    assert_eq!(store.publishers(None, None, None).len(), 1);
}

#[test]
fn deleting_from_an_empty_store_fails() {
    let mut store = DiscoveryStore::new();
    assert_eq!(store.del_publisher_by_node("t", "p", "n").unwrap_err().message(), "Publisher not found");
    assert!(store.del_publishers_by_process("p").is_err());
}

#[test]
fn message_type_must_match() {
    let mut store = DiscoveryStore::new();
    store.add_publisher(create_msg_publisher("t", "a", "p", "n", Scope::All, "gz.msgs.StringMsg")).unwrap();
    assert!(!store.has_topic_and_msg_type("t", "gz.msgs.Int32"));
    assert!(!store.has_topic_and_msg_type("u", "gz.msgs.StringMsg"));
}

#[test]
fn test_print() {
    let store = DiscoveryStore::new();

    let pub1 = create_msg_publisher("topic1", "addr1", "p_uuid1", "n_uuid1", Scope::All, "gz.msgs.StringMsg");

    let mut store = DiscoveryStore::new();
    let pub2 = create_msg_publisher("topic2", "addr2", "p_uuid2", "n_uuid2", Scope::All, "gz.msgs.StringMsg");

    let pub3 = create_msg_publisher("topic3", "addr1", "p_uuid1", "n_uuid1", Scope::All, "gz.msgs.StringMsg");

    store.add_publisher(pub1.clone()).unwrap();
    store.add_publisher(pub3.clone()).unwrap();
    store.add_publisher(pub2.clone()).unwrap();

    store.print();
}

#[test]
fn print_describes_each_record() {
    let mut store = DiscoveryStore::new();
    let mut p = create_msg_publisher("topic1", "addr1", "p1", "n1", Scope::All, "T");
    if let Some(PubType::MsgPub(m)) = &mut p.pub_type {
        m.msgs_per_sec = 1205;
    }
    store.add_publisher(p).unwrap();
    let lines = store.print();
    assert_eq!(lines.len(), 10);
    assert_eq!(lines[1], "\ttopic: topic1");
    assert_eq!(lines[7], "\t\tthrottled: false");
    assert_eq!(lines[8], "\t\tmsgs_per_sec: 1205");
}
