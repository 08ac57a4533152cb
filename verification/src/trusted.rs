//! The crate's trusted boundary: declarations whose contracts stand in for
//! outside code that the verifier does not read.

use vstd::prelude::*;

verus! {

/// serde_json's parsed JSON document, carried through this crate opaquely:
/// nothing inside it is read here.
#[verifier::external_type_specification]
#[verifier::external_body]
pub struct ExValue(serde_json::Value);

/// Whether a text is a well-formed JSON document, as serde_json's parser
/// decides it: a function of the text alone.
pub uninterp spec fn json_parses(s: Seq<char>) -> bool;

/// Relies on serde_json::from_str for `Value`, which accepts a text exactly
/// when it is one well-formed JSON document and is deterministic in the
/// text.
#[verifier::external_body]
pub(crate) fn parse_json(s: &str) -> (r: Option<serde_json::Value>)
    ensures
        r is Some <==> json_parses(s@),
{
    serde_json::from_str::<serde_json::Value>(s).ok()
}

/// Relies on uuid::Uuid::new_v4 and the hyphenated `Display` form of a
/// `Uuid`: 36 characters, whatever the random bits drawn.
#[verifier::external_body]
pub(crate) fn fresh_uuid() -> (r: String)
    ensures
        r@.len() == 36,
{
    uuid::Uuid::new_v4().to_string()
}

/// Relies on chrono::Utc::now: the clock's seconds since the Unix epoch, of
/// which nothing can be promised.
#[verifier::external_body]
pub(crate) fn now_timestamp() -> (r: i64) {
    chrono::Utc::now().timestamp()
}

} // verus!
