use sunangel::topology::{
    api_group, consumer_spec, errors_stream, filtered_subject, queue_group_name, results_stream,
    search_stream, search_subject, stream_spec, MAX_STREAM_MESSAGES,
};

#[test]
fn names() {
    assert_eq!("SEARCH", search_stream());
    assert_eq!("SEARCH.request", search_subject());
    assert_eq!("SUNSETS", results_stream());
    assert_eq!("ERRORS", errors_stream());
    assert_eq!("api", api_group());
}

#[test]
fn subject_naming() {
    assert_eq!("SUNSETS.req-1", filtered_subject("SUNSETS", "req-1"));
    assert_eq!("api-req-1", queue_group_name("api", "req-1"));
}

#[test]
fn stream_configuration() {
    let s = stream_spec("SEARCH");
    assert_eq!("SEARCH", s.name);
    assert_eq!(10_000, s.max_messages);
    assert_eq!(MAX_STREAM_MESSAGES, s.max_messages);
    assert_eq!(vec!["SEARCH".to_string(), "SEARCH.*".to_string()], s.subjects);
}

#[test]
fn broadcast_consumer_configuration() {
    let c = consumer_spec("ERRORS", None, None);
    assert_eq!("sole_consumer", c.name);
    assert_eq!(None, c.durable_name);
    assert!(c.filter_subjects.is_empty());
}

#[test]
fn queue_consumer_configuration() {
    let c = consumer_spec("SUNSETS", Some("req-1"), Some("api"));
    assert_eq!("api", c.name);
    assert_eq!(Some("api".to_string()), c.durable_name);
    assert_eq!(vec!["SUNSETS.req-1".to_string()], c.filter_subjects);
}
