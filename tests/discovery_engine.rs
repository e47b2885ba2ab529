use rgz_transport::discovery::{
    relay_decision, scope_admits, version, Action, DiscoveryEngine, Notice, RelayDecision, DEF_SILENCE_INTERVAL,
    WIRE_VERSION,
};
use rgz_transport::discovery_types::{DiscContents, Discovery, Flags, MessagePublisher, PubType, Publisher, Scope, Subscriber, Type};

fn msg_pub(topic: &str, p: &str, n: &str, scope: Scope, msg_type: &str) -> Publisher {
    Publisher {
        topic: topic.to_string(),
        address: "tcp://127.0.0.1:12345".to_string(),
        process_uuid: p.to_string(),
        node_uuid: n.to_string(),
        scope,
        pub_type: Some(PubType::MsgPub(MessagePublisher {
            ctrl: String::new(),
            msg_type: msg_type.to_string(),
            throttled: false,
            msgs_per_sec: 0,
        })),
    }
}

fn incoming(t: Type, from: &str, flags: Option<Flags>, contents: Option<DiscContents>) -> Discovery {
    Discovery { version: WIRE_VERSION, process_uuid: from.to_string(), msg_type: t, flags, disc_contents: contents }
}

fn notices(acts: &[Action], k: Notice) -> Vec<Publisher> {
    acts.iter()
        .filter_map(|a| match a {
            Action::Notify(n, p) if *n == k => Some(p.clone()),
            _ => None,
        })
        .collect()
}

const LOOPBACK: u32 = 0x7f00_0001;
const REMOTE: u32 = 0x0a00_0002;

#[test]
fn relay_rule() {
    assert_eq!(relay_decision(None), RelayDecision::ToUnicast);
    assert_eq!(relay_decision(Some(Flags { relay: true, no_relay: false })), RelayDecision::ToMulticast);
    assert_eq!(relay_decision(Some(Flags { relay: false, no_relay: true })), RelayDecision::Handle);
    assert_eq!(relay_decision(Some(Flags { relay: false, no_relay: false })), RelayDecision::ToUnicast);
}

#[test]
fn scope_rule() {
    assert!(scope_admits(Scope::All, false));
    assert!(scope_admits(Scope::Host, true));
    assert!(!scope_admits(Scope::Host, false));
    assert!(!scope_admits(Scope::Process, true));
    assert_eq!(version(false), 10);
    assert_eq!(version(true), 110);
}

#[test]
fn advertise_then_discover_yields_one_record() {
    let mut peer = DiscoveryEngine::new("p2", WIRE_VERSION, vec![]);
    let p = msg_pub("/foo", "p1", "n1", Scope::All, "gz.msgs.StringMsg");
    let acts = peer.handle_message(incoming(Type::Advertise, "p1", None, Some(DiscContents::Pub(p.clone()))), REMOTE, 0);
    assert_eq!(notices(&acts, Notice::Connection), vec![p.clone()]);
    let acts = peer.discover("/foo");
    let found = notices(&acts, Notice::Connection);
    assert_eq!(found, vec![p]);
    assert!(peer.store.has_topic_and_msg_type("/foo", "gz.msgs.StringMsg"));
}

#[test]
fn two_advertisers_fire_connection_twice() {
    let mut peer = DiscoveryEngine::new("p3", WIRE_VERSION, vec![]);
    let a = msg_pub("/foo", "p1", "n1", Scope::All, "T");
    let b = msg_pub("/foo", "p2", "n2", Scope::All, "T");
    let mut fired = 0;
    for p in [&a, &b] {
        let acts = peer.handle_message(
            incoming(Type::Advertise, &p.process_uuid, None, Some(DiscContents::Pub(p.clone()))),
            REMOTE,
            0,
        );
        fired += notices(&acts, Notice::Connection).len();
    }
    assert_eq!(fired, 2);
    assert_eq!(notices(&peer.discover("/foo"), Notice::Connection), vec![a, b]);
}

#[test]
fn unadvertise_and_bye_disconnect() {
    let mut peer = DiscoveryEngine::new("p2", WIRE_VERSION, vec![]);
    let p = msg_pub("/foo", "p1", "n1", Scope::All, "T");
    peer.handle_message(incoming(Type::Advertise, "p1", None, Some(DiscContents::Pub(p.clone()))), REMOTE, 0);
    let acts = peer.handle_message(incoming(Type::Unadvertise, "p1", None, Some(DiscContents::Pub(p.clone()))), REMOTE, 1);
    assert_eq!(notices(&acts, Notice::Disconnection), vec![p.clone()]);
    assert!(notices(&peer.discover("/foo"), Notice::Connection).is_empty());

    peer.handle_message(incoming(Type::Advertise, "p1", None, Some(DiscContents::Pub(p.clone()))), REMOTE, 2);
    let acts = peer.handle_message(incoming(Type::Bye, "p1", None, None), REMOTE, 3);
    let gone = notices(&acts, Notice::Disconnection);
    assert_eq!(gone.len(), 1);
    assert_eq!(gone[0].process_uuid, "p1");
    assert!(!peer.store.has_topic("/foo"));
}

#[test]
fn silent_process_is_disconnected_once() {
    let mut peer = DiscoveryEngine::new("p2", WIRE_VERSION, vec![]);
    let p = msg_pub("/foo", "p1", "n1", Scope::All, "T");
    peer.handle_message(incoming(Type::Advertise, "p1", None, Some(DiscContents::Pub(p))), REMOTE, 1000);
    assert!(notices(&peer.update_activity(1000 + DEF_SILENCE_INTERVAL), Notice::Disconnection).is_empty());
    let acts = peer.update_activity(1000 + DEF_SILENCE_INTERVAL + 1);
    let gone = notices(&acts, Notice::Disconnection);
    assert_eq!(gone.len(), 1);
    assert_eq!(gone[0].process_uuid, "p1");
    assert!(notices(&peer.update_activity(10_000), Notice::Disconnection).is_empty());
    assert!(!peer.store.has_topic("/foo"));
}

#[test]
fn scopes_are_honoured_on_receipt() {
    let mut peer = DiscoveryEngine::new("p2", WIRE_VERSION, vec![0x0a00_0005]);
    let host = msg_pub("/h", "p1", "n1", Scope::Host, "T");
    let process = msg_pub("/p", "p1", "n1", Scope::Process, "T");
    let acts = peer.handle_message(incoming(Type::Advertise, "p1", None, Some(DiscContents::Pub(host.clone()))), REMOTE, 0);
    assert!(notices(&acts, Notice::Connection).is_empty());
    let acts = peer.handle_message(incoming(Type::Advertise, "p1", None, Some(DiscContents::Pub(host.clone()))), 0x0a00_0005, 0);
    assert_eq!(notices(&acts, Notice::Connection).len(), 1);
    let acts = peer.handle_message(incoming(Type::Advertise, "p1", None, Some(DiscContents::Pub(process))), LOOPBACK, 0);
    assert!(notices(&acts, Notice::Connection).is_empty());
}

#[test]
fn own_and_foreign_version_messages_are_dropped() {
    let mut peer = DiscoveryEngine::new("p2", WIRE_VERSION, vec![]);
    let p = msg_pub("/foo", "p2", "n1", Scope::All, "T");
    assert!(peer.handle_message(incoming(Type::Advertise, "p2", None, Some(DiscContents::Pub(p.clone()))), REMOTE, 0).is_empty());
    let mut other = incoming(Type::Advertise, "p1", None, Some(DiscContents::Pub(p)));
    other.version = WIRE_VERSION + 100;
    assert!(peer.handle_message(other, REMOTE, 0).is_empty());
    assert!(!peer.store.has_topic("/foo"));
}

#[test]
fn relayed_message_is_bounced_to_the_group() {
    let mut peer = DiscoveryEngine::new("p2", WIRE_VERSION, vec![]);
    let acts = peer.handle_message(
        incoming(Type::Heartbeat, "p1", Some(Flags { relay: true, no_relay: false }), None),
        REMOTE,
        0,
    );
    assert_eq!(acts.len(), 2);
    match &acts[0] {
        Action::Multicast(m) => assert_eq!(m.flags, Some(Flags { relay: false, no_relay: true })),
        other => panic!("{:?}", other),
    }
    assert!(matches!(acts[1], Action::RememberSender));
}

#[test]
fn local_advertise_and_subscribe_probe() {
    let mut me = DiscoveryEngine::new("p1", WIRE_VERSION, vec![]);
    let p = msg_pub("/foo", "p1", "n1", Scope::All, "T");
    let acts = me.advertise(p.clone()).unwrap();
    assert!(matches!(&acts[0], Action::Multicast(m) if m.msg_type == Type::Advertise));
    assert!(me.advertise(p.clone()).is_err());
    let probe = incoming(Type::Subscribe, "p9", None, Some(DiscContents::Sub(Subscriber { topic: "/foo".to_string() })));
    let acts = me.handle_message(probe, REMOTE, 0);
    let adverts = acts
        .iter()
        .filter(|a| matches!(a, Action::Multicast(m) if m.msg_type == Type::Advertise))
        .count();
    assert_eq!(adverts, 1);
    let hb = me.heartbeat();
    assert!(matches!(&hb[0], Action::Multicast(m) if m.msg_type == Type::Heartbeat));
    let acts = me.unadvertise("/foo", "n1");
    assert!(matches!(&acts[0], Action::Multicast(m) if m.msg_type == Type::Unadvertise));
    assert!(me.unadvertise("/foo", "n1").is_empty());
}

#[test]
fn probes_and_forwards_carry_the_right_fields() {
    let me = DiscoveryEngine::new("p1", WIRE_VERSION, vec![]);
    let acts = me.discover("/foo");
    match &acts[0] {
        Action::Multicast(m) => {
            assert_eq!(m.process_uuid, "p1");
            assert_eq!(m.version, WIRE_VERSION);
            assert_eq!(m.flags, None);
        },
        other => panic!("{:?}", other),
    }
    match &acts[1] {
        Action::Unicast(m) => assert_eq!(m.flags, Some(Flags { relay: true, no_relay: false })),
        other => panic!("{:?}", other),
    }

    let mut peer = DiscoveryEngine::new("p2", WIRE_VERSION, vec![]);
    let acts = peer.handle_message(incoming(Type::Heartbeat, "p1", None, None), REMOTE, 0);
    match &acts[0] {
        Action::Unicast(m) => {
            assert_eq!(m.flags, Some(Flags { relay: true, no_relay: false }));
            assert_eq!(m.process_uuid, "p1");
        },
        other => panic!("{:?}", other),
    }
    let acts = peer.handle_message(
        incoming(Type::Heartbeat, "p1", Some(Flags { relay: false, no_relay: true }), None),
        REMOTE,
        0,
    );
    assert!(acts.is_empty());
}
