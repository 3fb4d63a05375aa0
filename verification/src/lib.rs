//! Scatter-gather orchestration for a distributed sunset-spot search.
//!
//! One caller query is fanned out over a durable message bus to independent
//! worker services; their partial answers come back on shared subjects, mixed
//! with other requests' traffic, possibly duplicated and out of order. This
//! crate holds the verified core of the component that gathers them again:
//! the wire envelopes shared with the workers, the per-request correlation
//! state machine that decides what each inbound frame means and when the
//! result stream is complete, the naming and configuration rules for the bus
//! topology, and the error taxonomy surfaced to the caller.
//!
//! Bus I/O itself (connecting, publishing, subscribing, acknowledging) is
//! asynchronous and lives outside this crate; callers drive the state machine
//! here with the payload bytes of each frame and perform the actions it
//! returns.

pub mod angle;
pub mod api;
pub mod correlate;
pub mod envelope;
pub mod errors;
pub mod laws;
pub mod request_id;
pub mod topology;
