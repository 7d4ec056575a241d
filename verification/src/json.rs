//! The boundary to the JSON crate: one trusted call that turns a page
//! body into raw records. What a given body yields is a function of its
//! characters alone, so the result is named and every contract above
//! speaks of that name exactly; all decisions about the records are made
//! by verified functions on plain values.

use vstd::prelude::*;
use crate::harvest::RawRecord;

verus! {

/// Whether a page body is valid JSON bearing an items array.
pub uninterp spec fn page_parses(body: Seq<char>) -> bool;

/// The raw records a parseable page body yields: one per element of its
/// items array, in array order, each field holding the element's member
/// text when that member is text-typed and `None` otherwise.
pub uninterp spec fn page_records(body: Seq<char>) -> Seq<RawRecord>;

/// Relies on serde_json::from_str and serde_json::Value::{get, as_array,
/// as_str}: parsing a body either fails or yields JSON whose items
/// member, when it is an array, gives one raw record per element as
/// `page_records` describes; the outcome depends on the body alone.
#[verifier::external_body]
pub(crate) fn parse_page(body: &str) -> (r: Option<Vec<RawRecord>>)
    ensures
        r is Some <==> page_parses(body@),
        r matches Some(raws) ==> raws@ == page_records(body@),
{
    let v: serde_json::Value = serde_json::from_str(body).ok()?;
    let arr = v.get("items")?.as_array()?;
    Some(arr.iter().map(|e| RawRecord {
        name: e.get("name").and_then(|m| m.as_str()).map(|s| s.to_owned()),
        html_url: e.get("html_url").and_then(|m| m.as_str()).map(|s| s.to_owned()),
        description: e.get("description").and_then(|m| m.as_str()).map(|s| s.to_owned()),
    }).collect())
}

} // verus!
