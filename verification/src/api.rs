//! The caller-facing surface: the schema roots and the one operation the
//! core exposes upward — starting a search.
//!
//! The transport binding (GraphQL subscription, WebSocket and HTTP server)
//! is external; it serializes the caller's query, drives the bus, and hands
//! every inbound payload to the [`CorrelationState`] a search begins with.

use vstd::prelude::*;

use crate::correlate::CorrelationState;
use crate::envelope::spec_query_envelope;
use crate::request_id::mint_request_id;

verus! {

/// The query root: nothing but the API version is answered statically.
pub struct Query;

impl Query {
    /// The version of the caller-facing API.
    pub fn api_version() -> (v: &'static str)
        ensures
            v@ == "1.0"@,
    {
        "1.0"
    }
}

/// The subscription root: one live search per subscription.
pub struct Subscription;

impl Subscription {
    /// Starts one search over the caller's already-serialized query: mints a
    /// fresh request identity, wraps the query into the envelope to publish
    /// on the dispatch subject, and returns the correlation state that will
    /// gather this request's frames. The query text itself is not inspected.
    pub fn begin_search(query_json: &str) -> (r: (String, CorrelationState))
        ensures
            r.1.wf(),
            !r.1@.done,
            !r.1@.populated,
            r.0@ == spec_query_envelope(r.1@.rid, query_json@),
    {
        let request_id = mint_request_id();
        let state = CorrelationState::new(request_id);
        let envelope = crate::envelope::encode_query_envelope(
            state.request_id().as_str(),
            query_json,
        );
        (envelope, state)
    }
}

} // verus!
