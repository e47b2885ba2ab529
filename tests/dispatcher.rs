use rgz_transport::dispatcher::{PendingRequest, RequestInfo, ResponseDispatcher, ServiceDispatcher, Subscriber};
use rgz_transport::dispatcher_store::DispatcherStore;
use rgz_transport::discovery_types::{PubType, Publisher, Scope, ServicePublisher, MessagePublisher};
use rgz_transport::orchestrator::{
    fan_out, on_connection, on_disconnection, on_registration, on_unregistration, route_request, RequestRoute,
};

fn info(topic: &str, node: &str, id: &str) -> RequestInfo {
    RequestInfo {
        topic: topic.to_string(),
        node_uuid: node.to_string(),
        req_uuid: id.to_string(),
        req_type: "gz.msgs.StringMsg".to_string(),
        res_type: "gz.msgs.StringMsg".to_string(),
    }
}

#[test]
fn test_register_handler() {}

#[test]
fn register_refuses_duplicates_and_remove_takes_out() {
    let mut store: DispatcherStore<Subscriber<u32>> = DispatcherStore::new();
    store.register(Subscriber::new("s1", "p1", "n1", "/foo", "T", Some(1))).unwrap();
    assert!(store.register(Subscriber::new("s1", "p1", "n1", "/foo", "T", Some(2))).is_err());
    store.register(Subscriber::new("s2", "p1", "n1", "/foo", "T", None)).unwrap();
    assert!(store.has_topic("/foo"));
    assert!(store.get("/foo", "n1", "s2").is_some());
    let removed = store.remove("/foo", "n1", "s1").unwrap();
    assert_eq!(removed.sender, Some(1));
    assert!(store.remove("/foo", "n1", "s1").is_none());
    assert_eq!(store.remove_by_node("/foo", "n1").map(|v| v.len()), Some(1));
    assert!(!store.has_topic("/foo"));
    assert!(store.remove_by_node("/foo", "n1").is_none());
}

#[test]
fn publish_fans_out_to_local_and_remote_subscribers() {
    let mut store: DispatcherStore<Subscriber<u32>> = DispatcherStore::new();
    store.register(Subscriber::new("a", "p1", "n1", "/foo", "StringMsg", Some(1))).unwrap();
    store.register(Subscriber::new("b", "p1", "n2", "/foo", "StringMsg", Some(2))).unwrap();
    store.register(Subscriber::new("c", "p2", "n3", "/foo", "StringMsg", None)).unwrap();
    store.register(Subscriber::new("d", "p1", "n4", "/foo", "Other", Some(4))).unwrap();
    store.register(Subscriber::new("e", "p1", "n5", "/bar", "StringMsg", Some(5))).unwrap();
    let out = fan_out(&store, "/foo", "StringMsg");
    let ids: Vec<u32> = out.local.iter().map(|s| s.sender.unwrap()).collect();
    assert_eq!(ids, vec![1, 2]);
    assert_eq!(out.remote, 1);
    let none = fan_out(&store, "/baz", "StringMsg");
    assert!(none.local.is_empty());
    assert_eq!(none.remote, 0);
}

#[test]
fn departed_process_loses_its_subscribers() {
    let mut store: DispatcherStore<Subscriber<u32>> = DispatcherStore::new();
    store.register(Subscriber::new("a", "p1", "n1", "/foo", "T", None)).unwrap();
    store.register(Subscriber::new("b", "p2", "n2", "/foo", "T", None)).unwrap();
    let bye = Publisher {
        topic: String::new(),
        address: String::new(),
        process_uuid: "p1".to_string(),
        node_uuid: String::new(),
        scope: Scope::All,
        pub_type: None,
    };
    on_disconnection(&mut store, &bye);
    assert!(store.get("/foo", "n1", "a").is_none());
    assert!(store.get("/foo", "n2", "b").is_some());
}

#[test]
fn request_goes_to_a_local_service_first() {
    let mut services: DispatcherStore<ServiceDispatcher<u8>> = DispatcherStore::new();
    services
        .register(ServiceDispatcher::new("svc", "n1", "/echo", Some("gz.msgs.StringMsg"), Some("gz.msgs.StringMsg"), 0))
        .unwrap();
    let remote = Publisher {
        topic: "/echo".to_string(),
        address: "tcp://10.0.0.2:4000".to_string(),
        process_uuid: "p2".to_string(),
        node_uuid: "n2".to_string(),
        scope: Scope::All,
        pub_type: Some(PubType::SrvPub(ServicePublisher {
            socket_id: "sock".to_string(),
            request_type: "gz.msgs.StringMsg".to_string(),
            response_type: "gz.msgs.StringMsg".to_string(),
        })),
    };
    let known = vec![remote];
    assert!(matches!(route_request(&services, &known, "/echo", "gz.msgs.StringMsg", "gz.msgs.StringMsg"), RequestRoute::Local));
    let empty: DispatcherStore<ServiceDispatcher<u8>> = DispatcherStore::new();
    match route_request(&empty, &known, "/echo", "gz.msgs.StringMsg", "gz.msgs.StringMsg") {
        RequestRoute::Remote(addr, id) => {
            assert_eq!(addr, "tcp://10.0.0.2:4000");
            assert_eq!(id, "sock");
        },
        other => panic!("{:?}", other),
    }
    assert!(matches!(route_request(&empty, &known, "/echo", "gz.msgs.Int32", "gz.msgs.StringMsg"), RequestRoute::Wait));
    assert!(matches!(route_request(&empty, &vec![], "/echo", "A", "B"), RequestRoute::Discover));
}

#[test]
fn responses_complete_once_and_are_cleaned() {
    let mut store: DispatcherStore<ResponseDispatcher<u8>> = DispatcherStore::new();
    store.register(ResponseDispatcher::new(info("/echo", "n1", "r1"), Some(7), 0)).unwrap();
    store.register(ResponseDispatcher::new(info("/echo", "n1", "r2"), None, 0)).unwrap();
    assert_eq!(store.complete("/echo", "n1", "r1"), Some((false, Some(7))));
    assert_eq!(store.complete("/echo", "n1", "r1"), Some((false, None)));
    assert_eq!(store.complete("/echo", "n1", "zz"), None);
    store.clean(None, 4999);
    assert!(store.get("/echo", "n1", "r1").is_some());
    store.clean(None, 5000);
    assert!(store.get("/echo", "n1", "r1").is_none());
    assert!(store.get("/echo", "n1", "r2").is_some());
}

#[test]
fn pending_requests_are_taken_once() {
    let mut store: DispatcherStore<PendingRequest<&str, u8>> = DispatcherStore::new();
    store.register(PendingRequest::new(info("/echo", "n1", "r1"), "HELLO", 1, 0)).unwrap();
    let taken = store.take_pending("/echo", Some("gz.msgs.StringMsg"), Some("gz.msgs.StringMsg"));
    assert_eq!(taken, vec![("HELLO", 1)]);
    assert!(store.take_pending("/echo", Some("gz.msgs.StringMsg"), Some("gz.msgs.StringMsg")).is_empty());
    store.clean(Some(10), 20);
    assert!(!store.has_topic("/echo"));
}

#[test]
fn connection_and_registration_handshake() {
    let mut subs: DispatcherStore<Subscriber<u8>> = DispatcherStore::new();
    subs.register(Subscriber::new("s", "me", "node-a", "/foo", "T", Some(0))).unwrap();
    let publisher = Publisher {
        topic: "/foo".to_string(),
        address: "tcp://pub".to_string(),
        process_uuid: "them".to_string(),
        node_uuid: "node-p".to_string(),
        scope: Scope::All,
        pub_type: Some(PubType::MsgPub(MessagePublisher {
            ctrl: String::new(),
            msg_type: "T".to_string(),
            throttled: false,
            msgs_per_sec: 0,
        })),
    };
    let notices = on_connection(&subs, "me", &publisher).unwrap();
    assert_eq!(notices.len(), 1);
    assert_eq!(notices[0].process_uuid, "me");
    assert_eq!(notices[0].node_uuid, "node-a");
    match &notices[0].pub_type {
        Some(PubType::MsgPub(m)) => assert_eq!(m.ctrl, "them"),
        _ => panic!(),
    }
    assert!(on_connection(&subs, "them", &publisher).is_none());
    let remote: Option<Subscriber<u8>> = on_registration("r1", "them", &notices[0]);
    let remote = remote.unwrap();
    assert!(remote.is_remote());
    assert_eq!(remote.node_uuid, "node-a");
    assert!(on_registration::<u8>("r1", "nobody", &notices[0]).is_none());
}

#[test]
fn end_connection_drops_the_remote_subscriber() {
    let mut subs: DispatcherStore<Subscriber<u8>> = DispatcherStore::new();
    subs.register(Subscriber::new("r", "them", "node-b", "/foo", "T", None)).unwrap();
    let mut notice = Publisher {
        topic: "/foo".to_string(),
        address: "tcp://pub".to_string(),
        process_uuid: "them".to_string(),
        node_uuid: "node-b".to_string(),
        scope: Scope::All,
        pub_type: Some(PubType::MsgPub(MessagePublisher {
            ctrl: "someone-else".to_string(),
            msg_type: "T".to_string(),
            throttled: false,
            msgs_per_sec: 0,
        })),
    };
    assert!(!on_unregistration(&mut subs, "me", &notice));
    assert!(subs.has_topic("/foo"));
    if let Some(PubType::MsgPub(m)) = &mut notice.pub_type {
        m.ctrl = "me".to_string();
    }
    assert!(on_unregistration(&mut subs, "me", &notice));
    assert!(!subs.has_topic("/foo"));
}

#[test]
fn stale_pending_requests_are_reaped_even_unsent() {
    let mut store: DispatcherStore<PendingRequest<&str, u8>> = DispatcherStore::new();
    store.register(PendingRequest::new(info("/nowhere", "n1", "r1"), "HELLO", 1, 0)).unwrap();
    store.clean(None, 4999);
    assert!(store.has_topic("/nowhere"));
    store.clean(None, 5000);
    assert!(!store.has_topic("/nowhere"));
}
