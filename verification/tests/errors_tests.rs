use sunangel::errors::FailureKind;

#[test]
fn messages_are_exact() {
    assert_eq!("Couldn't connect to NATS", FailureKind::Unavailable.message());
    assert_eq!(
        "Couldn't send search query to NATS",
        FailureKind::DispatchFailed.message()
    );
    assert_eq!(
        "Couldn't subscribe to NATS",
        FailureKind::SubscribeFailed.message()
    );
    assert_eq!("Decoding error", FailureKind::ProtocolViolation.message());
    assert_eq!(
        "Internal server error: no horizon (sender: sun-service)",
        FailureKind::UpstreamFailure {
            reason: "no horizon".to_string(),
            sender: "sun-service".to_string(),
        }
        .message()
    );
    assert_eq!("Cancelled", FailureKind::Cancelled.message());
}

#[test]
fn only_infrastructure_failures_are_logged() {
    assert!(FailureKind::Unavailable.is_infrastructure());
    assert!(FailureKind::DispatchFailed.is_infrastructure());
    assert!(FailureKind::SubscribeFailed.is_infrastructure());
    assert!(!FailureKind::ProtocolViolation.is_infrastructure());
    assert!(!FailureKind::UpstreamFailure {
        reason: String::new(),
        sender: String::new(),
    }
    .is_infrastructure());
    assert!(!FailureKind::Cancelled.is_infrastructure());
}

#[test]
fn cancellation_is_not_an_error() {
    assert!(!FailureKind::Cancelled.is_error());
    assert!(FailureKind::ProtocolViolation.is_error());
    assert!(FailureKind::UpstreamFailure {
        reason: String::new(),
        sender: String::new(),
    }
    .is_error());
}
