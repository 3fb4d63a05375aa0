//! Request identities: minting one per query, and reading one back out of
//! any frame's payload.
//!
//! The identity is an opaque token minted once per query and carried by
//! every frame that belongs to it; it is the only correlation key. Reading
//! it back never interprets more of a payload than the one top-level
//! `request_id` field.

use vstd::prelude::*;

use crate::envelope::json_str_field;
use crate::envelope::json_str_field_at;

verus! {

/// Why a payload yielded no request identity.
#[derive(Clone, Copy, PartialEq, Eq, Structural, Debug)]
pub enum RequestIdError {
    /// The payload is not a JSON object with a string `request_id` field.
    Missing,
}

/// Reads the request identity out of a frame's payload, or reports that the
/// payload does not carry one.
pub fn try_get_request_id(payload: &[u8]) -> (r: Result<String, RequestIdError>)
    ensures
        match r {
            Ok(s) => json_str_field_at(payload@, "request_id"@) == Some(s@),
            Err(_) => json_str_field_at(payload@, "request_id"@) is None,
        },
{
    match json_str_field(payload, "request_id") {
        Some(s) => Ok(s),
        None => Err(RequestIdError::Missing),
    }
}

/// Reads the request identity out of a frame's payload, or the empty string
/// when the payload does not carry one. A minted identity is never empty,
/// so the empty string matches no live request.
pub fn get_request_id(payload: &[u8]) -> (r: String)
    ensures
        r@ == match json_str_field_at(payload@, "request_id"@) {
            Some(s) => s,
            None => ""@,
        },
{
    proof {
        reveal_strlit("");
    }
    match json_str_field(payload, "request_id") {
        Some(s) => s,
        None => String::new(),
    }
}

/// A character of a minted request identity: a lower-case hexadecimal digit
/// or a hyphen. In particular never a quote, a backslash or a control
/// character, so a minted identity passes through JSON encoding unchanged.
pub open spec fn is_request_id_char(c: char) -> bool {
    ('0' <= c && c <= '9') || ('a' <= c && c <= 'f') || c == '-'
}

/// Relies on uuid's `Uuid::new_v4` and its `Display` form: a fresh random
/// version-4 UUID, rendered in the lower-case hyphenated format of 36
/// characters. Nothing is assumed about which identity comes out, only its
/// shape.
#[verifier::external_body]
pub(crate) fn mint_request_id() -> (r: String)
    ensures
        r@.len() == 36,
        forall|i: int| 0 <= i < r@.len() ==> is_request_id_char(#[trigger] r@[i]),
{
    uuid::Uuid::new_v4().to_string()
}

} // verus!
