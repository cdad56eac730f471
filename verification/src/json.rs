//! JSON documents, as `serde_json` reads them.

use vstd::prelude::*;

verus! {

/// A JSON document. It is carried through, never looked into.
#[verifier::external_type_specification]
#[verifier::external_body]
pub struct ExValue(serde_json::Value);

/// What `serde_json::from_str` makes of a text: the document, or nothing where
/// the text is not one JSON document.
pub uninterp spec fn parsed_json(text: Seq<char>) -> Option<serde_json::Value>;

/// Calls `serde_json::from_str`. The document it reads, and whether it reads
/// one at all, depend on the text alone.
#[verifier::external_body]
pub(crate) fn parse_json(text: &str) -> (document: Option<serde_json::Value>)
    ensures
        document == parsed_json(text@),
{
    serde_json::from_str(text).ok()
}

} // verus!
