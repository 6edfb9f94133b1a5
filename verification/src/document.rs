//! Structured documents: the JSON values that a ticket carries as its
//! intent, lease and artifact, and the lenient decoding of their stored text.

use vstd::prelude::*;

verus! {

#[verifier::external_type_specification]
#[verifier::external_body]
pub struct ExJsonValue(serde_json::Value);

/// The document that `serde_json::from_str::<serde_json::Value>` reads from
/// a text, or `None` where it reports an error.
pub uninterp spec fn json_parsed(text: Seq<char>) -> Option<serde_json::Value>;

/// Calls `serde_json::from_str` for a `serde_json::Value` and drops the
/// error's detail. The contract claims only that the outcome is a function
/// of the text: the same characters give the same document, or fail alike.
#[verifier::external_body]
fn parse_json(text: &str) -> (parsed: Option<serde_json::Value>)
    ensures
        parsed == json_parsed(text@),
{
    serde_json::from_str::<serde_json::Value>(text).ok()
}

/// Hands out `serde_json::Value::Null`. The contract claims that this is the
/// document which `serde_json::from_str` reads from the text `null`.
#[verifier::external_body]
fn json_null() -> (null: serde_json::Value)
    ensures
        json_parsed("null"@) == Some(null),
{
    serde_json::Value::Null
}

/// `Clone::clone` of `serde_json::Value`: the copy is the same document.
pub assume_specification[ <serde_json::Value as Clone>::clone ](doc: &serde_json::Value) -> (copy:
    serde_json::Value)
    ensures
        copy == *doc,
;

/// The null document.
pub open spec fn null_document() -> serde_json::Value {
    json_parsed("null"@)->Some_0
}

/// Whether a text is well-formed JSON.
pub open spec fn well_formed(text: Seq<char>) -> bool {
    json_parsed(text) is Some
}

/// The document that a stored text stands for: what it parses to, and the
/// null document where it is malformed.
pub open spec fn decoded(text: Seq<char>) -> serde_json::Value {
    match json_parsed(text) {
        Some(doc) => doc,
        None => null_document(),
    }
}

/// The document that an optional stored text stands for: absent stays
/// absent, present is decoded like any other text.
pub open spec fn decoded_optional(text: Option<Seq<char>>) -> Option<serde_json::Value> {
    match text {
        Some(t) => Some(decoded(t)),
        None => None,
    }
}

/// Decodes a stored text leniently: malformed text gives the null document
/// and never an error.
pub fn decode_document(text: &str) -> (doc: serde_json::Value)
    ensures
        doc == decoded(text@),
        well_formed(text@) ==> Some(doc) == json_parsed(text@),
        !well_formed(text@) ==> doc == null_document(),
{
    match parse_json(text) {
        Some(doc) => doc,
        None => json_null(),
    }
}

/// Decodes an optional stored text leniently.
pub fn decode_optional(text: Option<&str>) -> (doc: Option<serde_json::Value>)
    ensures
        doc == decoded_optional(
            match text {
                Some(t) => Some(t@),
                None => None,
            },
        ),
{
    match text {
        Some(t) => Some(decode_document(t)),
        None => None,
    }
}

} // verus!
