use rgz_transport::discovery_types::Scope;
use rgz_transport::options::{default_partition, distinct_ports, hostname, username, AdvertiseOptions, NodeOptions, OptionsError};

#[test]
fn advertise_options_defaults_and_setters() {
    let mut o = AdvertiseOptions::new();
    assert_eq!(o.scope(), Scope::All);
    assert!(!o.throttled());
    o.set_scope(Scope::Host);
    o.set_msgs_per_sec(10);
    assert_eq!(o.scope(), Scope::Host);
    assert_eq!(o.msgs_per_sec(), 10);
    assert!(o.throttled());
    assert_eq!(AdvertiseOptions::default(), AdvertiseOptions::new());
}

#[test]
fn node_options_remaps() {
    let mut o = NodeOptions::with_partition("", "host:user");
    assert_eq!(o.partition(), "host:user");
    o.set_namespace("/ns");
    assert_eq!(o.namespace(), "/ns");
    assert_eq!(o.add_topic_remap("/a", "/b"), Ok(()));
    assert_eq!(o.add_topic_remap("/a", "/c"), Err(OptionsError::AlreadyRemapped));
    assert_eq!(o.add_topic_remap("/x", "a b"), Err(OptionsError::InvalidTopic));
    assert_eq!(o.topic_remap("/a").map(|s| s.as_str()), Some("/b"));
    assert_eq!(o.topic_remap("/z"), None);
    o.set_partition("p");
    assert_eq!(o.partition(), "p");
}

#[test]
fn default_partition_joins_host_and_user() {
    assert_eq!(default_partition("box", "ann"), "box:ann");
    let o = NodeOptions::new();
    assert!(o.partition().contains(':'));
    assert_eq!(o.namespace(), "");
}

#[test]
fn qualified_topic_uses_remap_partition_and_namespace() {
    let mut o = NodeOptions::with_partition("ns", "part");
    assert_eq!(o.create_fully_qualified_topic("t").unwrap(), "@/part@/ns/t");
    o.add_topic_remap("t", "/other").unwrap();
    assert_eq!(o.create_fully_qualified_topic("t").unwrap(), "@/part@/other");
    assert!(o.create_fully_qualified_topic("bad topic").is_err());
}

#[test]
fn discovery_ports_are_kept_apart() {
    assert_eq!(distinct_ports(10317, 10318), (10317, 10318));
    assert_eq!(distinct_ports(10317, 10317), (10317, 10318));
    assert_eq!(distinct_ports(65535, 65535), (65535, 65534));
}

#[test]
fn test_hostname() {
    let hostname = hostname();
    assert!(!hostname.is_empty());
}

#[test]
fn test_username() {
    let username = username();
    assert!(!username.is_empty());
}
