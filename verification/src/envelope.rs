//! Wire envelope definitions shared with the worker services.
//!
//! Three JSON shapes travel over the bus: the query envelope
//! `{"request_id": ..., "search_query": ...}` published to the dispatch
//! subject, result parts `{"request_id": ..., "part": {"id": ..., "of": ...},
//! ...}` published by workers to the results subject, and error frames
//! `{"request_id": ..., "sender": ..., "reason": ..., "input": ...}` on the
//! errors subject. Inbound frames are classified here: a payload is first
//! read as a result part, then as an error frame, and is otherwise a protocol
//! violation. The domain payload around a result part stays opaque; only the
//! correlation fields are interpreted.

use vstd::prelude::*;

verus! {

/// The position of one result part within its request: a zero-based index
/// `id` out of the `of` parts the producing worker declared.
#[derive(Clone, Copy, PartialEq, Eq, Structural, Debug)]
pub struct Part {
    pub id: u32,
    pub of: u32,
}

/// An error frame: an out-of-band failure notice from a worker, correlated
/// by `request_id` and carrying the reason, the offending input and the
/// sender's identity.
#[derive(Clone, Debug)]
pub struct SearchError {
    pub input: String,
    pub reason: String,
    pub request_id: String,
    pub sender: String,
}

/// The correlation fields of a result-part frame; the domain payload around
/// them is not interpreted here.
#[derive(Clone, Debug)]
pub struct ResultFrame {
    pub request_id: String,
    pub part: Part,
}

/// What an inbound frame's payload turned out to be.
#[derive(Debug)]
pub enum DecodedFrame {
    /// A well-formed result part (with `1 <= of` and both numbers in range).
    ResultPart(ResultFrame),
    /// A well-formed error frame.
    ErrorFrame(SearchError),
    /// Neither shape: a protocol violation by the sender.
    Violation,
}

/// Spec-level mirror of [`DecodedFrame`].
pub enum FrameModel {
    ResultPart { rid: Seq<char>, id: u32, of: u32 },
    ErrorFrame { rid: Seq<char>, sender: Seq<char>, reason: Seq<char>, input: Seq<char> },
    Violation,
}

impl View for DecodedFrame {
    type V = FrameModel;

    open spec fn view(&self) -> FrameModel {
        match self {
            DecodedFrame::ResultPart(r) => FrameModel::ResultPart {
                rid: r.request_id@,
                id: r.part.id,
                of: r.part.of,
            },
            DecodedFrame::ErrorFrame(e) => FrameModel::ErrorFrame {
                rid: e.request_id@,
                sender: e.sender@,
                reason: e.reason@,
                input: e.input@,
            },
            DecodedFrame::Violation => FrameModel::Violation,
        }
    }
}

// ------------------------------------------------------------------
// Trusted JSON field lookup
// ------------------------------------------------------------------

/// The top-level string field `key` of the JSON object in `p`, or `None` when
/// `p` is not a JSON document, has no such field, or the field is not a
/// string. Applied by [`json_str_field`], which computes it with serde_json.
pub uninterp spec fn json_str_field_at(p: Seq<u8>, key: Seq<char>) -> Option<Seq<char>>;

/// The unsigned integer field `sub` inside the top-level object field `key`
/// of the JSON object in `p`, or `None` when any step of that lookup fails.
/// Applied by [`json_u64_field`], which computes it with serde_json.
pub uninterp spec fn json_u64_field_at(p: Seq<u8>, key: Seq<char>, sub: Seq<char>) -> Option<u64>;

/// Relies on serde_json's `from_slice::<Value>`, `Value::get` and
/// `Value::as_str`: parsing and field lookup are functions of the payload
/// bytes and the key alone, so the result is named by [`json_str_field_at`]
/// and nothing more is assumed of it.
#[verifier::external_body]
pub(crate) fn json_str_field(payload: &[u8], key: &str) -> (r: Option<String>)
    ensures
        json_str_field_at(payload@, key@) == match r {
            Some(s) => Some(s@),
            None => None::<Seq<char>>,
        },
{
    match serde_json::from_slice::<serde_json::Value>(payload) {
        Ok(v) => match v.get(key) {
            Some(f) => f.as_str().map(|s| s.to_string()),
            None => None,
        },
        Err(_) => None,
    }
}

/// Relies on serde_json's `from_slice::<Value>`, `Value::get` and
/// `Value::as_u64`: parsing and field lookup are functions of the payload
/// bytes and the keys alone, so the result is named by [`json_u64_field_at`]
/// and nothing more is assumed of it.
#[verifier::external_body]
fn json_u64_field(payload: &[u8], key: &str, sub: &str) -> (r: Option<u64>)
    ensures
        json_u64_field_at(payload@, key@, sub@) == r,
{
    match serde_json::from_slice::<serde_json::Value>(payload) {
        Ok(v) => match v.get(key) {
            Some(f) => match f.get(sub) {
                Some(n) => n.as_u64(),
                None => None,
            },
            None => None,
        },
        Err(_) => None,
    }
}

// ------------------------------------------------------------------
// Classification
// ------------------------------------------------------------------

/// The result-part reading of a payload: defined when the payload carries a
/// string `request_id` and numeric `part.id` and `part.of` with
/// `1 <= of <= u32::MAX` and `id <= u32::MAX`. A declared total of zero
/// parts is invalid input from a worker, never an already-complete answer.
pub open spec fn spec_result_part(p: Seq<u8>) -> Option<FrameModel> {
    match json_str_field_at(p, "request_id"@) {
        Some(rid) => match (json_u64_field_at(p, "part"@, "id"@), json_u64_field_at(
            p,
            "part"@,
            "of"@,
        )) {
            (Some(id), Some(of)) => if id <= u32::MAX as u64 && 1 <= of && of <= u32::MAX as u64 {
                Some(FrameModel::ResultPart { rid, id: id as u32, of: of as u32 })
            } else {
                None
            },
            _ => None,
        },
        None => None,
    }
}

/// The error-frame reading of a payload: defined when the payload carries
/// string fields `request_id`, `sender`, `reason` and `input`.
pub open spec fn spec_error_frame(p: Seq<u8>) -> Option<FrameModel> {
    match (
        json_str_field_at(p, "request_id"@),
        json_str_field_at(p, "sender"@),
        json_str_field_at(p, "reason"@),
        json_str_field_at(p, "input"@),
    ) {
        (Some(rid), Some(sender), Some(reason), Some(input)) => Some(
            FrameModel::ErrorFrame { rid, sender, reason, input },
        ),
        _ => None,
    }
}

/// The decoding policy: a payload is first read as a result part, then as an
/// error frame, and is otherwise a protocol violation.
pub open spec fn spec_classify(p: Seq<u8>) -> FrameModel {
    match spec_result_part(p) {
        Some(f) => f,
        None => match spec_error_frame(p) {
            Some(f) => f,
            None => FrameModel::Violation,
        },
    }
}

/// Classifies one inbound payload according to the decoding policy.
pub fn classify_frame(payload: &[u8]) -> (f: DecodedFrame)
    ensures
        f@ == spec_classify(payload@),
{
    let rid = json_str_field(payload, "request_id");
    match rid {
        None => DecodedFrame::Violation,
        Some(rid) => {
            let id = json_u64_field(payload, "part", "id");
            let of = json_u64_field(payload, "part", "of");
            match (id, of) {
                (Some(id), Some(of)) => {
                    if id <= u32::MAX as u64 && 1 <= of && of <= u32::MAX as u64 {
                        DecodedFrame::ResultPart(
                            ResultFrame {
                                request_id: rid,
                                part: Part { id: id as u32, of: of as u32 },
                            },
                        )
                    } else {
                        classify_error_frame(payload, rid)
                    }
                },
                _ => classify_error_frame(payload, rid),
            }
        },
    }
}

/// The error-frame half of the decoding policy, reached once the result-part
/// reading of `payload` has failed.
fn classify_error_frame(payload: &[u8], rid: String) -> (f: DecodedFrame)
    requires
        json_str_field_at(payload@, "request_id"@) == Some(rid@),
        spec_result_part(payload@) is None,
    ensures
        f@ == spec_classify(payload@),
{
    let sender = json_str_field(payload, "sender");
    let reason = json_str_field(payload, "reason");
    let input = json_str_field(payload, "input");
    match (sender, reason, input) {
        (Some(sender), Some(reason), Some(input)) => DecodedFrame::ErrorFrame(
            SearchError { input, reason, request_id: rid, sender },
        ),
        _ => DecodedFrame::Violation,
    }
}

// ------------------------------------------------------------------
// Encoding
// ------------------------------------------------------------------

/// The hexadecimal digit for `n < 16`, lower case.
pub open spec fn hex_digit_char(n: u32) -> char {
    if n == 0 {
        '0'
    } else if n == 1 {
        '1'
    } else if n == 2 {
        '2'
    } else if n == 3 {
        '3'
    } else if n == 4 {
        '4'
    } else if n == 5 {
        '5'
    } else if n == 6 {
        '6'
    } else if n == 7 {
        '7'
    } else if n == 8 {
        '8'
    } else if n == 9 {
        '9'
    } else if n == 10 {
        'a'
    } else if n == 11 {
        'b'
    } else if n == 12 {
        'c'
    } else if n == 13 {
        'd'
    } else if n == 14 {
        'e'
    } else {
        'f'
    }
}

/// How one character appears inside a JSON string literal: quote, backslash
/// and the control characters are escaped, everything else stands for itself.
pub open spec fn escape_char(c: char) -> Seq<char> {
    if c == '"' {
        seq!['\\', '"']
    } else if c == '\\' {
        seq!['\\', '\\']
    } else if c == '\n' {
        seq!['\\', 'n']
    } else if c == '\r' {
        seq!['\\', 'r']
    } else if c == '\t' {
        seq!['\\', 't']
    } else if (c as u32) < 32 {
        seq!['\\', 'u', '0', '0', hex_digit_char((c as u32) / 16), hex_digit_char((c as u32) % 16)]
    } else {
        seq![c]
    }
}

/// The body of a JSON string literal holding the text `s`.
pub open spec fn escape_chars(s: Seq<char>) -> Seq<char>
    decreases s.len(),
{
    if s.len() == 0 {
        Seq::empty()
    } else {
        escape_char(s[0]) + escape_chars(s.drop_first())
    }
}

proof fn lemma_escape_chars_push(s: Seq<char>, c: char)
    ensures
        escape_chars(s.push(c)) == escape_chars(s) + escape_char(c),
    decreases s.len(),
{
    if s.len() == 0 {
        assert(s.push(c)[0] == c);
        assert(s.push(c).drop_first() =~= Seq::<char>::empty());
        assert(escape_chars(s.push(c)) == escape_char(c) + escape_chars(Seq::<char>::empty()));
        assert(escape_char(c) + Seq::<char>::empty() =~= escape_char(c));
        assert(escape_chars(s) + escape_char(c) =~= escape_char(c));
    } else {
        assert(s.push(c).drop_first() =~= s.drop_first().push(c));
        lemma_escape_chars_push(s.drop_first(), c);
        assert(escape_chars(s.push(c)) =~= escape_chars(s) + escape_char(c));
    }
}

proof fn lemma_hex_digit(n: u32)
    requires
        n < 16,
    ensures
        ("0123456789abcdef")@[n as int] == hex_digit_char(n),
{
    reveal_strlit("0123456789abcdef");
    if n == 0 {
    } else if n == 1 {
    } else if n == 2 {
    } else if n == 3 {
    } else if n == 4 {
    } else if n == 5 {
    } else if n == 6 {
    } else if n == 7 {
    } else if n == 8 {
    } else if n == 9 {
    } else if n == 10 {
    } else if n == 11 {
    } else if n == 12 {
    } else if n == 13 {
    } else if n == 14 {
    } else {
    }
}

/// Renders `s` as the body of a JSON string literal, escaping quote,
/// backslash and control characters.
pub fn escape_json_string(s: &str) -> (r: String)
    ensures
        r@ == escape_chars(s@),
{
    let len = s.unicode_len();
    let mut out = String::new();
    let mut i: usize = 0;
    proof {
        assert(s@.subrange(0, 0) =~= Seq::<char>::empty());
    }
    while i < len
        invariant
            len == s@.len(),
            i <= len,
            out@ == escape_chars(s@.subrange(0, i as int)),
        decreases len - i,
    {
        let c = s.get_char(i);
        if c == '"' {
            out.append("\\\"");
            proof {
                reveal_strlit("\\\"");
                assert(("\\\"")@ =~= escape_char(c));
            }
        } else if c == '\\' {
            out.append("\\\\");
            proof {
                reveal_strlit("\\\\");
                assert(("\\\\")@ =~= escape_char(c));
            }
        } else if c == '\n' {
            out.append("\\n");
            proof {
                reveal_strlit("\\n");
                assert(("\\n")@ =~= escape_char(c));
            }
        } else if c == '\r' {
            out.append("\\r");
            proof {
                reveal_strlit("\\r");
                assert(("\\r")@ =~= escape_char(c));
            }
        } else if c == '\t' {
            out.append("\\t");
            proof {
                reveal_strlit("\\t");
                assert(("\\t")@ =~= escape_char(c));
            }
        } else if (c as u32) < 32 {
            let hex = "0123456789abcdef";
            proof {
                reveal_strlit("0123456789abcdef");
            }
            let ghost before = out@;
            out.append("\\u00");
            let hi = (c as u32) / 16;
            let lo = (c as u32) % 16;
            let hid = hex.substring_char(hi as usize, hi as usize + 1);
            out.append(hid);
            let lod = hex.substring_char(lo as usize, lo as usize + 1);
            out.append(lod);
            proof {
                reveal_strlit("\\u00");
                lemma_hex_digit(hi);
                lemma_hex_digit(lo);
                assert(hid@ =~= seq![hex_digit_char(hi)]);
                assert(lod@ =~= seq![hex_digit_char(lo)]);
                assert(out@ =~= before + escape_char(c));
            }
        } else {
            let piece = s.substring_char(i, i + 1);
            out.append(piece);
            proof {
                assert(piece@ =~= seq![c]);
                assert(seq![c] =~= escape_char(c));
            }
        }
        proof {
            lemma_escape_chars_push(s@.subrange(0, i as int), c);
            assert(s@.subrange(0, i + 1) =~= s@.subrange(0, i as int).push(c));
        }
        i += 1;
    }
    proof {
        assert(s@.subrange(0, len as int) =~= s@);
    }
    out
}

/// A complete JSON string literal holding the text `s`.
pub open spec fn quoted(s: Seq<char>) -> Seq<char> {
    ("\"")@ + escape_chars(s) + ("\"")@
}

/// Appends the JSON string literal for `s` to `out`.
fn append_quoted(out: &mut String, s: &str)
    ensures
        final (out)@ == old(out)@ + quoted(s@),
{
    out.append("\"");
    let e = escape_json_string(s);
    out.append(e.as_str());
    out.append("\"");
}

/// The query envelope published to the dispatch subject: the request
/// identity, then the caller's query exactly as serialized by the caller.
pub open spec fn spec_query_envelope(rid: Seq<char>, query_json: Seq<char>) -> Seq<char> {
    ("{\"request_id\":")@ + quoted(rid) + (",\"search_query\":")@ + query_json + ("}")@
}

/// Builds the query envelope for one dispatch: wraps the already-serialized
/// query with the request identity. The query text itself is not inspected.
pub fn encode_query_envelope(request_id: &str, query_json: &str) -> (r: String)
    ensures
        r@ == spec_query_envelope(request_id@, query_json@),
{
    let mut out = String::from_str("{\"request_id\":");
    append_quoted(&mut out, request_id);
    out.append(",\"search_query\":");
    out.append(query_json);
    out.append("}");
    out
}

/// The decimal rendering of `n`, most significant digit first, without
/// leading zeros (a single `0` for zero).
pub open spec fn spec_decimal(n: nat) -> Seq<char>
    decreases n,
{
    if n < 10 {
        seq![hex_digit_char(n as u32)]
    } else {
        spec_decimal(n / 10).push(hex_digit_char((n % 10) as u32))
    }
}

/// Appends the decimal rendering of `n` to `out`.
fn push_decimal(out: &mut String, n: u32)
    ensures
        final (out)@ == old(out)@ + spec_decimal(n as nat),
    decreases n,
{
    if n >= 10 {
        push_decimal(out, n / 10);
    }
    let d = (n % 10) as usize;
    proof {
        reveal_strlit("0123456789abcdef");
    }
    let piece = "0123456789abcdef".substring_char(d, d + 1);
    proof {
        lemma_hex_digit(n % 10);
        assert(piece@ =~= seq![hex_digit_char(n % 10)]);
        if n >= 10 {
            assert(spec_decimal(n as nat) == spec_decimal(n as nat / 10).push(
                hex_digit_char((n as nat % 10) as u32),
            ));
            assert(spec_decimal(n as nat / 10).push(hex_digit_char((n as nat % 10) as u32))
                =~= spec_decimal(n as nat / 10) + seq![hex_digit_char((n as nat % 10) as u32)]);
        }
    }
    out.append(piece);
}

/// The result-part envelope published to the results subject: the query
/// envelope's fields, the worker's domain result, and the part numbering.
pub open spec fn spec_result_part_text(
    rid: Seq<char>,
    query_json: Seq<char>,
    spot_json: Seq<char>,
    id: u32,
    of: u32,
) -> Seq<char> {
    ("{\"request_id\":")@ + quoted(rid) + (",\"search_query\":")@ + query_json + (",\"spot\":")@
        + spot_json + (",\"part\":{\"id\":")@ + spec_decimal(id as nat) + (",\"of\":")@
        + spec_decimal(of as nat) + ("}}")@
}

/// Serializes one result part of a request that declared `part.of` parts in
/// all: the dispatched query's fields, the worker's serialized domain
/// result, and the part numbering. A worker never declares zero parts, so
/// none is encoded.
pub fn encode_result_part(
    request_id: &str,
    query_json: &str,
    spot_json: &str,
    part: Part,
) -> (r: String)
    requires
        1 <= part.of,
    ensures
        r@ == spec_result_part_text(request_id@, query_json@, spot_json@, part.id, part.of),
{
    let mut out = String::from_str("{\"request_id\":");
    append_quoted(&mut out, request_id);
    out.append(",\"search_query\":");
    out.append(query_json);
    out.append(",\"spot\":");
    out.append(spot_json);
    out.append(",\"part\":{\"id\":");
    push_decimal(&mut out, part.id);
    out.append(",\"of\":");
    push_decimal(&mut out, part.of);
    out.append("}}");
    out
}

/// The error frame published to the errors subject, or synthesized locally.
pub open spec fn spec_error_frame_text(
    rid: Seq<char>,
    sender: Seq<char>,
    reason: Seq<char>,
    input: Seq<char>,
) -> Seq<char> {
    ("{\"request_id\":")@ + quoted(rid) + (",\"sender\":")@ + quoted(sender) + (",\"reason\":")@
        + quoted(reason) + (",\"input\":")@ + quoted(input) + ("}")@
}

/// Serializes an error frame, escaping every field.
pub fn encode_error_frame(e: &SearchError) -> (r: String)
    ensures
        r@ == spec_error_frame_text(e.request_id@, e.sender@, e.reason@, e.input@),
{
    let mut out = String::from_str("{\"request_id\":");
    append_quoted(&mut out, e.request_id.as_str());
    out.append(",\"sender\":");
    append_quoted(&mut out, e.sender.as_str());
    out.append(",\"reason\":");
    append_quoted(&mut out, e.reason.as_str());
    out.append(",\"input\":");
    append_quoted(&mut out, e.input.as_str());
    out.append("}");
    out
}

} // verus!
