use rgz_transport::topic::{
    as_valid_topic, decompose_fully_qualified_topic, fully_qualified_name, is_valid_namespace, is_valid_topic,
    TopicError,
};

#[test]
fn test_is_valid_namespace() {
    let valid_ns = "/example/namespace";
    let invalid_ns = "/~invalid~namespace";
    assert!(is_valid_namespace(valid_ns));
    assert!(!is_valid_namespace(invalid_ns));
}

#[test]
fn test_fully_qualified_name() {
    let partition = "my_partition";
    let ns = "/example/namespace";
    let topic = "my_topic";

    assert_eq!(
        "@/my_partition@/example/namespace/my_topic",
        fully_qualified_name(partition, ns, topic).unwrap()
    );
}

#[test]
fn test_decompose_fully_qualified_topic() {
    let fully_qualified_name = "@my_partition@/example/namespace/my_topic";
    let (partition, namespace_and_topic) = decompose_fully_qualified_topic(fully_qualified_name).unwrap();

    assert_eq!(partition, "my_partition");
    assert_eq!(namespace_and_topic, "/example/namespace/my_topic");
}

#[test]
fn test_as_valid_topic() {
    let namespace_and_topic = "//example/namespace/my topic";
    let valid_topic = as_valid_topic(&namespace_and_topic).unwrap();

    assert_eq!(valid_topic, "/example/namespace/my_topic");
}

#[test]
fn naming_rule_rejects_each_forbidden_sequence() {
    for bad in ["/", "a b", "a~b", "a//b", "a@b", "a:=b"] {
        assert!(!is_valid_namespace(bad), "{}", bad);
    }
    assert!(is_valid_namespace(""));
    assert!(!is_valid_topic(""));
    assert!(is_valid_topic("a:b=c"));
    assert!(!is_valid_namespace(&"a".repeat(65536)));
    assert!(is_valid_namespace(&"a".repeat(65535)));
}

#[test]
fn absolute_topic_ignores_namespace_and_trailing_slashes_go() {
    assert_eq!(fully_qualified_name("p/", "ns", "/abs/").unwrap(), "@/p@/abs");
    assert_eq!(fully_qualified_name("", "", "t").unwrap(), "@@/t");
    assert_eq!(fully_qualified_name("", "ns/", "t").unwrap(), "@@/ns/t");
}

#[test]
fn invalid_parts_and_long_names_are_errors() {
    assert_eq!(fully_qualified_name("p", "n s", "t"), Err(TopicError::InvalidName));
    assert_eq!(fully_qualified_name("p", "n", ""), Err(TopicError::InvalidName));
    let long = "a".repeat(65535);
    assert_eq!(fully_qualified_name("p", "", &long), Err(TopicError::NameTooLong));
}

#[test]
fn fully_qualified_name_reparses_to_itself() {
    for (p, ns, t) in [("my_partition", "/example/namespace", "my_topic"), ("", "", "x"), ("a/", "b", "/c/")] {
        let name = fully_qualified_name(p, ns, t).unwrap();
        assert!(name.starts_with('@'));
        let (p2, t2) = decompose_fully_qualified_topic(&name).unwrap();
        assert_eq!(fully_qualified_name(&p2, "", &t2).unwrap(), name);
    }
}

#[test]
fn malformed_names_do_not_decompose() {
    for bad in ["", "x@p@/t", "@p", "@p@", "@p@a b"] {
        assert_eq!(decompose_fully_qualified_topic(bad), Err(TopicError::Malformed), "{}", bad);
    }
}

#[test]
fn as_valid_topic_rejects_what_cannot_become_a_topic() {
    assert_eq!(as_valid_topic("@~"), Err(TopicError::InvalidName));
    assert_eq!(as_valid_topic("a:=b@c"), Ok("/abc".to_string()));
}

#[test]
fn as_valid_topic_turns_all_white_space_into_underscores() {
    assert_eq!(as_valid_topic("a\tb\u{3000}c"), Ok("/a_b_c".to_string()));
    assert_eq!(as_valid_topic("///x"), Ok("/x".to_string()));
}
