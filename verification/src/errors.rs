//! The failure taxonomy surfaced to a caller.
//!
//! Every search ends in either a completed result stream or exactly one of
//! these failures, delivered as the terminal element of the stream. The
//! infrastructure failures (`Unavailable`, `DispatchFailed`,
//! `SubscribeFailed`) are additionally logged server-side; the per-request
//! outcomes are not. `Cancelled` terminates the stream but is not an error.

use vstd::prelude::*;

verus! {

/// Spec-level mirror of [`FailureKind`], with string fields as `Seq<char>`.
pub enum FailureModel {
    Unavailable,
    DispatchFailed,
    SubscribeFailed,
    ProtocolViolation,
    UpstreamFailure { reason: Seq<char>, sender: Seq<char> },
    Cancelled,
}

/// Why a search ended without completing.
#[derive(Clone, Debug)]
pub enum FailureKind {
    /// The bus connection was lost or could not be established.
    Unavailable,
    /// Publishing the query envelope failed; the request never reached a worker.
    DispatchFailed,
    /// Subscribing to the merged results and errors feed failed.
    SubscribeFailed,
    /// A frame for this request decoded as neither a result part nor an error frame.
    ProtocolViolation,
    /// A worker reported an explicit error frame for this request.
    UpstreamFailure { reason: String, sender: String },
    /// The caller cancelled the search before completion; not an error.
    Cancelled,
}

impl View for FailureKind {
    type V = FailureModel;

    open spec fn view(&self) -> FailureModel {
        match self {
            FailureKind::Unavailable => FailureModel::Unavailable,
            FailureKind::DispatchFailed => FailureModel::DispatchFailed,
            FailureKind::SubscribeFailed => FailureModel::SubscribeFailed,
            FailureKind::ProtocolViolation => FailureModel::ProtocolViolation,
            FailureKind::UpstreamFailure { reason, sender } => FailureModel::UpstreamFailure {
                reason: reason@,
                sender: sender@,
            },
            FailureKind::Cancelled => FailureModel::Cancelled,
        }
    }
}

/// The message that [`FailureKind::message`] renders for each failure.
pub open spec fn spec_message(k: FailureModel) -> Seq<char> {
    match k {
        FailureModel::Unavailable => "Couldn't connect to NATS"@,
        FailureModel::DispatchFailed => "Couldn't send search query to NATS"@,
        FailureModel::SubscribeFailed => "Couldn't subscribe to NATS"@,
        FailureModel::ProtocolViolation => "Decoding error"@,
        FailureModel::UpstreamFailure { reason, sender } => "Internal server error: "@ + reason
            + " (sender: "@ + sender + ")"@,
        FailureModel::Cancelled => "Cancelled"@,
    }
}

impl FailureKind {
    /// Renders the failure for the caller.
    pub fn message(&self) -> (r: String)
        ensures
            r@ == spec_message(self@),
    {
        match self {
            FailureKind::Unavailable => String::from_str("Couldn't connect to NATS"),
            FailureKind::DispatchFailed => String::from_str("Couldn't send search query to NATS"),
            FailureKind::SubscribeFailed => String::from_str("Couldn't subscribe to NATS"),
            FailureKind::ProtocolViolation => String::from_str("Decoding error"),
            FailureKind::UpstreamFailure { reason, sender } => {
                let mut m = String::from_str("Internal server error: ");
                m.append(reason.as_str());
                m.append(" (sender: ");
                m.append(sender.as_str());
                m.append(")");
                m
            },
            FailureKind::Cancelled => String::from_str("Cancelled"),
        }
    }

    /// Whether this failure indicates an infrastructure problem, to be logged
    /// at error level server-side, rather than a normal per-request outcome.
    pub fn is_infrastructure(&self) -> (r: bool)
        ensures
            r == (self@ is Unavailable || self@ is DispatchFailed || self@ is SubscribeFailed),
    {
        match self {
            FailureKind::Unavailable => true,
            FailureKind::DispatchFailed => true,
            FailureKind::SubscribeFailed => true,
            _ => false,
        }
    }

    /// Whether this failure is reported to the caller as an error at all;
    /// cancellation only terminates the stream.
    pub fn is_error(&self) -> (r: bool)
        ensures
            r == !(self@ is Cancelled),
    {
        match self {
            FailureKind::Cancelled => false,
            _ => true,
        }
    }
}

} // verus!
