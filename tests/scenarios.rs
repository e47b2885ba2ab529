use rgz_transport::discovery::{Action, DiscoveryEngine, Notice, WIRE_VERSION};
use rgz_transport::discovery_types::{Discovery, MessagePublisher, PubType, Publisher, Scope, ServicePublisher};
use rgz_transport::dispatcher::{RequestInfo, ResponseDispatcher, ServiceDispatcher, Subscriber};
use rgz_transport::dispatcher_store::DispatcherStore;
use rgz_transport::orchestrator::{fan_out, on_connection, on_registration, route_request, RequestRoute};
use rgz_transport::wire::{publish_parts, reply_parts};

fn first_multicast(acts: &[Action]) -> Discovery {
    acts.iter()
        .find_map(|a| match a {
            Action::Multicast(m) => Some(m.clone()),
            _ => None,
        })
        .unwrap()
}

fn notices(acts: &[Action], k: Notice) -> Vec<Publisher> {
    acts.iter()
        .filter_map(|a| match a {
            Action::Notify(n, p) if *n == k => Some(p.clone()),
            _ => None,
        })
        .collect()
}

#[test]
fn hello_published_on_foo_reaches_a_subscriber_in_another_process() {
    let mut a = DiscoveryEngine::new("proc-a", WIRE_VERSION, vec![]);
    let mut b = DiscoveryEngine::new("proc-b", WIRE_VERSION, vec![]);
    let advertised = Publisher {
        topic: "/foo".to_string(),
        address: "tcp://10.0.0.1:5555".to_string(),
        process_uuid: "proc-a".to_string(),
        node_uuid: "node-a".to_string(),
        scope: Scope::All,
        pub_type: Some(PubType::MsgPub(MessagePublisher {
            ctrl: String::new(),
            msg_type: "gz.msgs.StringMsg".to_string(),
            throttled: false,
            msgs_per_sec: u64::MAX,
        })),
    };
    let sent = a.advertise(advertised.clone()).unwrap();

    // Process B subscribes to /foo and hears the advertisement.
    let mut b_subs: DispatcherStore<Subscriber<u8>> = DispatcherStore::new();
    b_subs.register(Subscriber::new("sub-b", "proc-b", "node-b", "/foo", "gz.msgs.StringMsg", Some(0))).unwrap();
    let heard = b.handle_message(first_multicast(&sent), 0x0a00_0001, 10);
    let connected = notices(&heard, Notice::Connection);
    assert_eq!(connected, vec![advertised.clone()]);

    // B asks A to serve it; A registers B as a remote subscriber.
    let asks = on_connection(&b_subs, "proc-b", &connected[0]).unwrap();
    let reg = b.register(&asks[0]);
    let at_a = a.handle_message(first_multicast(&reg), 0x0a00_0002, 20);
    let registrations = notices(&at_a, Notice::Registration);
    let mut a_subs: DispatcherStore<Subscriber<u8>> = DispatcherStore::new();
    let remote: Subscriber<u8> = on_registration("r-1", "proc-a", &registrations[0]).unwrap();
    a_subs.register(remote).unwrap();

    // A publishes "hello": it goes over the wire once.
    let out = fan_out(&a_subs, "/foo", "gz.msgs.StringMsg");
    assert_eq!(out.remote, 1);
    assert!(out.local.is_empty());
    let frame = publish_parts("/foo", "tcp://10.0.0.1:5555", &b"hello".to_vec(), "gz.msgs.StringMsg");

    // B delivers the frame to its local subscriber.
    let topic = String::from_utf8(frame[0].clone()).unwrap();
    let msg_type = String::from_utf8(frame[3].clone()).unwrap();
    let delivered = fan_out(&b_subs, &topic, &msg_type);
    assert_eq!(delivered.local.len(), 1);
    assert_eq!(frame[2], b"hello".to_vec());
}

#[test]
fn echo_service_returns_its_input() {
    let mut services: DispatcherStore<ServiceDispatcher<u8>> = DispatcherStore::new();
    services
        .register(ServiceDispatcher::new("svc", "node-s", "/echo", Some("gz.msgs.StringMsg"), Some("gz.msgs.StringMsg"), 0))
        .unwrap();
    let route = route_request(&services, &vec![], "/echo", "gz.msgs.StringMsg", "gz.msgs.StringMsg");
    assert!(matches!(route, RequestRoute::Local));

    let mut waiting: DispatcherStore<ResponseDispatcher<&str>> = DispatcherStore::new();
    let info = RequestInfo {
        topic: "/echo".to_string(),
        node_uuid: "node-r".to_string(),
        req_uuid: "req-1".to_string(),
        req_type: "gz.msgs.StringMsg".to_string(),
        res_type: "gz.msgs.StringMsg".to_string(),
    };
    waiting.register(ResponseDispatcher::new(info, Some("requester"), 0)).unwrap();
    // The handler echoes "HELLO"; its reply goes to the waiting requester.
    let reply = reply_parts("requester", "/echo", "node-r", "req-1", &b"HELLO".to_vec(), true);
    let (remote, slot) = waiting.complete("/echo", "node-r", "req-1").unwrap();
    assert!(!remote);
    assert_eq!(slot, Some("requester"));
    assert_eq!(reply[4], b"HELLO".to_vec());
}

#[test]
fn unknown_service_is_discovered_not_answered() {
    let services: DispatcherStore<ServiceDispatcher<u8>> = DispatcherStore::new();
    let route = route_request(&services, &vec![], "/nope", "A", "B");
    assert!(matches!(route, RequestRoute::Discover));
    let provider = Publisher {
        topic: "/nope".to_string(),
        address: "tcp://x".to_string(),
        process_uuid: "p".to_string(),
        node_uuid: "n".to_string(),
        scope: Scope::All,
        pub_type: Some(PubType::SrvPub(ServicePublisher {
            socket_id: "id".to_string(),
            request_type: "A".to_string(),
            response_type: "B".to_string(),
        })),
    };
    assert!(matches!(route_request(&services, &vec![provider], "/nope", "A", "B"), RequestRoute::Remote(_, _)));
}
