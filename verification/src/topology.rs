//! Bus topology decisions: names and configurations of the durable streams
//! and consumers the system relies on.
//!
//! Streams are bounded (a fixed maximum message count, oldest first out) and
//! carry both their bare name and every `name.*` subject. A consumer is
//! either an anonymous broadcast subscription or a named durable one; a
//! shared durable name gives queue semantics (each message to exactly one
//! member of the group), and an optional filter subject restricts delivery.
//! The caller applies these values when it creates the streams and consumers
//! on the bus; everything decided here is computed and proved exact.

use vstd::prelude::*;

verus! {

/// How many messages a stream retains before evicting the oldest.
pub const MAX_STREAM_MESSAGES: i64 = 10000;

/// The stream queries are dispatched on.
pub fn search_stream() -> (r: &'static str)
    ensures
        r@ == "SEARCH"@,
{
    "SEARCH"
}

/// The subject within the dispatch stream that workers pull queries from.
pub fn search_subject() -> (r: &'static str)
    ensures
        r@ == "SEARCH.request"@,
{
    "SEARCH.request"
}

/// The stream workers publish result parts to.
pub fn results_stream() -> (r: &'static str)
    ensures
        r@ == "SUNSETS"@,
{
    "SUNSETS"
}

/// The stream workers publish error frames to.
pub fn errors_stream() -> (r: &'static str)
    ensures
        r@ == "ERRORS"@,
{
    "ERRORS"
}

/// The consumer group name of this service.
pub fn api_group() -> (r: &'static str)
    ensures
        r@ == "api"@,
{
    "api"
}

/// The subject for delivery filtered to `subject` within `stream`:
/// `stream.subject`.
pub fn filtered_subject(stream: &str, subject: &str) -> (r: String)
    ensures
        r@ == stream@ + "."@ + subject@,
{
    let mut out = String::from_str(stream);
    out.append(".");
    out.append(subject);
    out
}

/// The durable consumer name a group uses for one filter subject:
/// `group-subject`, so that per-subject consumers of one group do not
/// collide.
pub fn queue_group_name(group: &str, subject: &str) -> (r: String)
    ensures
        r@ == group@ + "-"@ + subject@,
{
    let mut out = String::from_str(group);
    out.append("-");
    out.append(subject);
    out
}

/// Everything that defines one durable stream: its name, its retention bound
/// and the subjects it carries.
pub struct StreamSpec {
    pub name: String,
    pub max_messages: i64,
    pub subjects: Vec<String>,
}

/// The configuration of the durable stream `name`: bounded retention and the
/// two subjects `name` and `name.*`.
pub fn stream_spec(name: &str) -> (s: StreamSpec)
    ensures
        s.name@ == name@,
        s.max_messages == MAX_STREAM_MESSAGES,
        s.subjects@.len() == 2,
        s.subjects@[0]@ == name@,
        s.subjects@[1]@ == name@ + ".*"@,
{
    let mut subjects: Vec<String> = Vec::new();
    subjects.push(String::from_str(name));
    let mut wild = String::from_str(name);
    wild.append(".*");
    subjects.push(wild);
    StreamSpec { name: String::from_str(name), max_messages: MAX_STREAM_MESSAGES, subjects }
}

/// Everything that defines one pull consumer on a stream: the name it is
/// created or fetched under, the durable name it keeps across restarts (none
/// for an anonymous consumer), and the subjects delivery is restricted to
/// (none for the whole stream).
pub struct ConsumerSpec {
    pub name: String,
    pub durable_name: Option<String>,
    pub filter_subjects: Vec<String>,
}

/// The configuration of a consumer on `stream`: named after its group, or
/// `sole_consumer` when anonymous; durable exactly when a group is given;
/// filtered to `stream.subject` exactly when a subject is given.
pub fn consumer_spec(stream: &str, subject: Option<&str>, group: Option<&str>) -> (c: ConsumerSpec)
    ensures
        c.name@ == match group {
            Some(g) => g@,
            None => "sole_consumer"@,
        },
        c.durable_name matches Some(d) <==> group is Some,
        group matches Some(g) ==> c.durable_name matches Some(d) && d@ == g@,
        c.filter_subjects@.len() == match subject {
            Some(_) => 1int,
            None => 0int,
        },
        subject matches Some(sub) ==> c.filter_subjects@[0]@ == stream@ + "."@ + sub@,
{
    let name = match group {
        Some(g) => String::from_str(g),
        None => String::from_str("sole_consumer"),
    };
    let durable_name = match group {
        Some(g) => Some(String::from_str(g)),
        None => None,
    };
    let mut filter_subjects: Vec<String> = Vec::new();
    match subject {
        Some(sub) => {
            filter_subjects.push(filtered_subject(stream, sub));
        },
        None => {},
    }
    ConsumerSpec { name, durable_name, filter_subjects }
}

} // verus!
