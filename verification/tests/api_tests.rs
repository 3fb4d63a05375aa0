use sunangel::api::{Query, Subscription};
use sunangel::correlate::{CorrelationState, SpotAnswerStatus, StepOutput};
use sunangel::request_id::get_request_id;

#[test]
fn api_version() {
    assert_eq!("1.0", Query::api_version());
}

#[test]
fn begin_search_wraps_query_under_minted_identity() {
    let (envelope, state) = Subscription::begin_search("{\"rad\":2000}");

    let rid = state.request_id().clone();
    assert_eq!(36, rid.len());
    assert!(rid
        .chars()
        .all(|c| c == '-' || c.is_ascii_hexdigit() && !c.is_ascii_uppercase()));

    // The envelope parses, carries the minted identity, and keeps the
    // caller's query text verbatim.
    assert_eq!(rid, get_request_id(envelope.as_bytes()));
    assert!(envelope.ends_with(",\"search_query\":{\"rad\":2000}}"));
    assert!(!state.is_done());
}

#[test]
fn begin_search_mints_distinct_identities() {
    let (_, a) = Subscription::begin_search("{}");
    let (_, b) = Subscription::begin_search("{}");
    assert_ne!(a.request_id(), b.request_id());
}

#[test]
fn search_session_completes_on_its_own_frames() {
    let (_, mut state) = Subscription::begin_search("{}");
    let rid = state.request_id().clone();

    let payload = format!("{{\"request_id\":\"{rid}\",\"part\":{{\"id\":0,\"of\":1}}}}");
    match state.process_frame(payload.as_bytes()) {
        StepOutput::Emit(SpotAnswerStatus::Finished) => {}
        other => panic!("expected the search to finish, got {other:?}"),
    }
    assert!(state.is_done());
}

#[test]
fn fresh_state_is_not_done() {
    let state = CorrelationState::new("req-1".to_string());
    assert!(!state.is_done());
    assert_eq!("req-1", state.request_id());
}
