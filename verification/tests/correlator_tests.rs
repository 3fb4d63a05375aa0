use sunangel::correlate::{CorrelationState, SpotAnswerStatus, StepOutput};
use sunangel::errors::FailureKind;

fn part_payload(request_id: &str, id: u32, of: u32) -> String {
    format!(
        "{{\"request_id\":\"{request_id}\",\"part\":{{\"id\":{id},\"of\":{of}}},\"spot\":{{\"kind\":\"bench\"}}}}"
    )
}

fn error_payload(request_id: &str, sender: &str, reason: &str, input: &str) -> String {
    format!(
        "{{\"request_id\":\"{request_id}\",\"sender\":\"{sender}\",\"reason\":\"{reason}\",\"input\":\"{input}\"}}"
    )
}

fn expect_emit(state: &mut CorrelationState, payload: &str) -> SpotAnswerStatus {
    match state.process_frame(payload.as_bytes()) {
        StepOutput::Emit(status) => status,
        other => panic!("expected an emitted result, got {other:?}"),
    }
}

#[test]
fn three_parts_out_of_order() {
    let mut state = CorrelationState::new("req-1".to_string());

    let status = expect_emit(&mut state, &part_payload("req-1", 2, 3));
    assert!(matches!(status, SpotAnswerStatus::Running));
    assert!(!state.is_done());

    let status = expect_emit(&mut state, &part_payload("req-1", 0, 3));
    assert!(matches!(status, SpotAnswerStatus::Running));
    assert!(!state.is_done());

    // The part that completes the set is id=1; its output carries Finished.
    let status = expect_emit(&mut state, &part_payload("req-1", 1, 3));
    assert!(matches!(status, SpotAnswerStatus::Finished));
    assert!(state.is_done());
}

#[test]
fn single_part_finishes_immediately() {
    let mut state = CorrelationState::new("req-1".to_string());

    let status = expect_emit(&mut state, &part_payload("req-1", 0, 1));
    assert!(matches!(status, SpotAnswerStatus::Finished));
    assert!(state.is_done());
}

#[test]
fn duplicate_part_does_not_complete() {
    let mut state = CorrelationState::new("req-1".to_string());

    let status = expect_emit(&mut state, &part_payload("req-1", 0, 2));
    assert!(matches!(status, SpotAnswerStatus::Running));

    // The same (requestId, partId) again: still one part outstanding.
    let status = expect_emit(&mut state, &part_payload("req-1", 0, 2));
    assert!(matches!(status, SpotAnswerStatus::Running));
    assert!(!state.is_done());

    let status = expect_emit(&mut state, &part_payload("req-1", 1, 2));
    assert!(matches!(status, SpotAnswerStatus::Finished));
    assert!(state.is_done());
}

#[test]
fn foreign_request_id_is_skipped() {
    let mut state = CorrelationState::new("req-1".to_string());

    let out = state.process_frame(part_payload("req-2", 0, 1).as_bytes());
    assert!(matches!(out, StepOutput::Skip));
    assert!(!state.is_done());

    let out = state.process_frame(error_payload("req-2", "worker", "boom", "x").as_bytes());
    assert!(matches!(out, StepOutput::Skip));
    assert!(!state.is_done());
}

#[test]
fn error_frame_terminates() {
    let mut state = CorrelationState::new("req-1".to_string());

    let status = expect_emit(&mut state, &part_payload("req-1", 0, 3));
    assert!(matches!(status, SpotAnswerStatus::Running));

    let out = state.process_frame(error_payload("req-1", "sun-service", "no horizon", "{}").as_bytes());
    match out {
        StepOutput::Abort(FailureKind::UpstreamFailure { reason, sender }) => {
            assert_eq!("no horizon", reason);
            assert_eq!("sun-service", sender);
        }
        other => panic!("expected an upstream failure, got {other:?}"),
    }
    assert!(state.is_done());
}

#[test]
fn error_frame_before_any_part_terminates() {
    let mut state = CorrelationState::new("req-1".to_string());

    let out = state.process_frame(error_payload("req-1", "spot-finder", "overpass down", "{}").as_bytes());
    assert!(matches!(
        out,
        StepOutput::Abort(FailureKind::UpstreamFailure { .. })
    ));
    assert!(state.is_done());
}

#[test]
fn garbage_frame_is_a_protocol_violation() {
    let mut state = CorrelationState::new("req-1".to_string());

    let out = state.process_frame(b"not json at all");
    assert!(matches!(
        out,
        StepOutput::Abort(FailureKind::ProtocolViolation)
    ));
    assert!(state.is_done());
}

#[test]
fn zero_declared_parts_is_a_protocol_violation() {
    let mut state = CorrelationState::new("req-1".to_string());

    // A declared total of zero parts must never read as "already complete".
    let out = state.process_frame(part_payload("req-1", 0, 0).as_bytes());
    assert!(matches!(
        out,
        StepOutput::Abort(FailureKind::ProtocolViolation)
    ));
    assert!(state.is_done());
}

#[test]
fn cancellation_is_terminal_and_silent() {
    let mut state = CorrelationState::new("req-1".to_string());

    let status = expect_emit(&mut state, &part_payload("req-1", 0, 3));
    assert!(matches!(status, SpotAnswerStatus::Running));

    state.cancel();
    assert!(state.is_done());
}

#[test]
fn part_id_outside_declared_range_is_tolerated() {
    let mut state = CorrelationState::new("req-1".to_string());

    // An index at or above the declared total removes nothing.
    let status = expect_emit(&mut state, &part_payload("req-1", 5, 2));
    assert!(matches!(status, SpotAnswerStatus::Running));
    assert!(!state.is_done());

    let status = expect_emit(&mut state, &part_payload("req-1", 0, 2));
    assert!(matches!(status, SpotAnswerStatus::Running));
    let status = expect_emit(&mut state, &part_payload("req-1", 1, 2));
    assert!(matches!(status, SpotAnswerStatus::Finished));
}
