//! Decoding of a response body.
//!
//! The endpoint answers with arbitrary JSON text; a translation, when one is
//! present, is the string at position `[0][0][0]` (the first element of the
//! first element of the top-level array).  Whether a body parses as JSON and
//! which string (if any) sits at that extraction path are functions of the
//! body text alone; the two spec functions below name those results, and the
//! contracts of the library speak of the names.

use vstd::prelude::*;

verus! {

/// Whether the body text parses as a JSON value.
pub uninterp spec fn json_wellformed(body: Seq<char>) -> bool;

/// The string at the extraction path `[0][0][0]` of the parsed body, if the
/// value there is a string; `None` when the path is absent or non-string.
/// Meaningful only when `json_wellformed(body)` holds.
pub uninterp spec fn translation_at_path(body: Seq<char>) -> Option<Seq<char>>;

/// What one response body decodes to.
pub(crate) enum BodyDecode {
    /// The body is not valid JSON.
    NotJson,
    /// The body is valid JSON, but no string sits at the extraction path.
    NoTranslation,
    /// The string found at the extraction path.
    Translation(String),
}

/// Relies on `serde_json::from_str::<Value>`, on `Value`'s index operator
/// (which yields `Null` when the position is absent or the value is not an
/// array), and on `Value::as_str` (which yields `Some` exactly for JSON
/// strings).  All three are deterministic in the body text, so the contract
/// states the outcome through the two names above.
#[verifier::external_body]
pub(crate) fn decode_body(text: &str) -> (r: BodyDecode)
    ensures
        (match r {
            BodyDecode::NotJson => !json_wellformed(text@),
            BodyDecode::NoTranslation => json_wellformed(text@) && translation_at_path(text@)
                is None,
            BodyDecode::Translation(s) => json_wellformed(text@) && translation_at_path(text@)
                == Some(s@),
        }),
{
    match serde_json::from_str::<serde_json::Value>(text) {
        Err(_) => BodyDecode::NotJson,
        Ok(value) => match value[0][0][0].as_str() {
            Some(s) => BodyDecode::Translation(s.to_owned()),
            None => BodyDecode::NoTranslation,
        },
    }
}

} // verus!
