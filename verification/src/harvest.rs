//! The harvester: request construction, per-record field validation, and
//! accumulation of items across a bounded sequence of pages.

use vstd::prelude::*;
use vstd::string::StrSliceExecFns;
use vstd::string::StringExecFns;
use crate::errors::FieldKind;
use crate::errors::HarvestError;
use crate::json;
use crate::repo::Repository;
use crate::repo::repo_valid;
use crate::textfmt::dec_digits;
use crate::textfmt::dec_string;

verus! {

/// The fixed upper bound on the number of pages one run fetches.
pub const MAX_PAGES: u64 = 10;

/// The raw shape of one item record as read off the wire: each field holds
/// the text of the corresponding member when that member is text-typed,
/// and `None` when the member is absent or not text.
pub struct RawRecord {
    pub name: Option<String>,
    pub html_url: Option<String>,
    pub description: Option<String>,
}

/// A required field is usable when it is present as non-empty text.
pub open spec fn field_present(f: Option<String>) -> bool {
    f matches Some(s) && s@.len() > 0
}

/// A raw record is well-formed when both required fields are usable;
/// the description is optional and never makes a record malformed.
pub open spec fn raw_valid(r: RawRecord) -> bool {
    field_present(r.name) && field_present(r.html_url)
}

/// The error a malformed record produces; the name is checked first.
pub open spec fn field_error(r: RawRecord) -> HarvestError {
    if !field_present(r.name) {
        HarvestError::Field(FieldKind::Name)
    } else {
        HarvestError::Field(FieldKind::Url)
    }
}

/// The decoded item mirrors the raw record: the required fields carry the
/// same text, and the description is kept exactly as present or absent.
pub open spec fn item_matches(rep: Repository, raw: RawRecord) -> bool {
    &&& raw.name matches Some(n) && rep.name@ == n@
    &&& raw.html_url matches Some(u) && rep.html_url@ == u@
    &&& match (rep.description, raw.description) {
        (Some(a), Some(b)) => a@ == b@,
        (None, None) => true,
        _ => false,
    }
}

/// Decodes one raw record into an item, or rejects it with the field
/// error of its first unusable required field.
pub fn decode_record(raw: &RawRecord) -> (r: Result<Repository, HarvestError>)
    ensures
        r is Ok <==> raw_valid(*raw),
        r matches Ok(rep) ==> item_matches(rep, *raw) && repo_valid(rep),
        r matches Err(e) ==> e == field_error(*raw),
{
    let name: String = match &raw.name {
        Some(n) => {
            if n.as_str().unicode_len() == 0 {
                return Err(HarvestError::Field(FieldKind::Name));
            }
            n.clone()
        },
        None => {
            return Err(HarvestError::Field(FieldKind::Name));
        },
    };
    let html_url: String = match &raw.html_url {
        Some(u) => {
            if u.as_str().unicode_len() == 0 {
                return Err(HarvestError::Field(FieldKind::Url));
            }
            u.clone()
        },
        None => {
            return Err(HarvestError::Field(FieldKind::Url));
        },
    };
    let description: Option<String> = match &raw.description {
        Some(d) => Some(d.clone()),
        None => None,
    };
    Ok(Repository::new(name, html_url, description))
}

/// Decodes a whole page's raw records in order. All of them must be
/// well-formed: the result carries exactly one item per record, or the
/// field error of the first malformed record and nothing else.
pub fn parse_records(raws: &Vec<RawRecord>) -> (r: Result<Vec<Repository>, HarvestError>)
    ensures
        r is Ok <==> (forall|i: int| 0 <= i < raws@.len() ==> raw_valid(#[trigger] raws@[i])),
        r matches Ok(items) ==> {
            &&& items@.len() == raws@.len()
            &&& forall|i: int| 0 <= i < raws@.len() ==> item_matches(#[trigger] items@[i], raws@[i])
            &&& forall|i: int| 0 <= i < items@.len() ==> repo_valid(#[trigger] items@[i])
        },
        r matches Err(e) ==> exists|i: int| {
            &&& 0 <= i < raws@.len()
            &&& !raw_valid(#[trigger] raws@[i])
            &&& (forall|j: int| 0 <= j < i ==> raw_valid(#[trigger] raws@[j]))
            &&& e == field_error(raws@[i])
        },
        r matches Err(e) ==> e matches HarvestError::Field(_),
{
    let mut items: Vec<Repository> = Vec::new();
    let n = raws.len();
    for idx in 0..n
        invariant
            n == raws@.len(),
            items@.len() == idx,
            forall|i: int| 0 <= i < idx ==> raw_valid(#[trigger] raws@[i]),
            forall|i: int| 0 <= i < idx ==> item_matches(#[trigger] items@[i], raws@[i]),
            forall|i: int| 0 <= i < idx ==> repo_valid(#[trigger] items@[i]),
    {
        match decode_record(&raws[idx]) {
            Ok(rep) => {
                items.push(rep);
            },
            Err(e) => {
                proof {
                    assert(!raw_valid(raws@[idx as int]));
                    assert(e == field_error(raws@[idx as int]));
                }
                return Err(e);
            },
        }
    }
    Ok(items)
}

/// The address of one page's request: the fixed search endpoint and topic
/// query, with the page number in decimal.
pub open spec fn page_url_text(page: nat) -> Seq<char> {
    "https://api.github.com/search/repositories?q=topic:awesome&page="@ + dec_digits(page)
}

/// Builds the request URL for a page number.
pub fn page_url(page: u64) -> (u: String)
    ensures
        u@ == page_url_text(page as nat),
{
    let mut u = "https://api.github.com/search/repositories?q=topic:awesome&page=".to_owned();
    let digits = dec_string(page);
    u.append(digits.as_str());
    u
}

/// The fixed client identifier attached to every outbound request.
pub fn user_agent() -> (s: &'static str)
    ensures
        s@ == "Awesome-Lists-App"@,
{
    "Awesome-Lists-App"
}

/// Walks pages one at a time, in strictly increasing order, and
/// accumulates every harvested item in page order then in-page order.
/// The caller performs each request and hands the body back; the first
/// failure anywhere aborts the harvest with its category.
pub struct Harvester {
    pages_ok: u64,
    bound: u64,
    items: Vec<Repository>,
}

impl Harvester {
    /// Pages harvested successfully so far.
    pub closed spec fn pages_done(self) -> nat {
        self.pages_ok as nat
    }

    /// The page-count upper bound this run was given.
    pub closed spec fn page_bound(self) -> nat {
        self.bound as nat
    }

    /// Every item accumulated so far, in harvest order.
    pub closed spec fn collected(self) -> Seq<Repository> {
        self.items@
    }

    /// All pages within the bound have been harvested.
    pub open spec fn done(self) -> bool {
        self.pages_done() == self.page_bound()
    }

    /// Never past the bound, and every collected item is valid.
    pub open spec fn wf(self) -> bool {
        &&& self.pages_done() <= self.page_bound()
        &&& forall|i: int| 0 <= i < self.collected().len() ==> repo_valid(#[trigger] self.collected()[i])
    }

    /// A fresh harvester: nothing fetched, nothing collected.
    pub fn new(bound: u64) -> (h: Self)
        ensures
            h.wf(),
            h.page_bound() == bound,
            h.pages_done() == 0,
            h.collected() == Seq::<Repository>::empty(),
    {
        Harvester { pages_ok: 0, bound, items: Vec::new() }
    }

    /// Whether every page within the bound has been harvested.
    pub fn is_done(&self) -> (b: bool)
        ensures
            b == self.done(),
    {
        self.pages_ok == self.bound
    }

    /// The page number the next request must ask for: pages run from one
    /// to the bound, inclusive, in strictly increasing order.
    pub fn next_page(&self) -> (p: Option<u64>)
        requires
            self.wf(),
        ensures
            p is Some <==> !self.done(),
            p matches Some(n) ==> n as nat == self.pages_done() + 1,
    {
        if self.pages_ok < self.bound {
            Some(self.pages_ok + 1)
        } else {
            None
        }
    }

    /// The URL of the next request, or `None` once the harvest is done.
    pub fn next_url(&self) -> (u: Option<String>)
        requires
            self.wf(),
        ensures
            u is Some <==> !self.done(),
            u matches Some(s) ==> s@ == page_url_text(self.pages_done() + 1),
    {
        match self.next_page() {
            Some(n) => Some(page_url(n)),
            None => None,
        }
    }

    /// Harvests one page body: parses it, locates the items array, reads
    /// and validates every record, and appends the page's items in order.
    /// It succeeds exactly when the body parses and every record of the
    /// page is well-formed, and then appends exactly one matching item
    /// per record; any malformed piece aborts with its category — never
    /// a transport or write error — and leaves the harvester unchanged.
    pub fn on_page_body(&mut self, body: &str) -> (r: Result<(), HarvestError>)
        requires
            old(self).wf(),
            !old(self).done(),
        ensures
            final(self).wf(),
            final(self).page_bound() == old(self).page_bound(),
            r is Ok <==> json::page_parses(body@) && (forall|i: int|
                0 <= i < json::page_records(body@).len() ==> raw_valid(
                    #[trigger] json::page_records(body@)[i],
                )),
            r is Ok ==> {
                &&& final(self).pages_done() == old(self).pages_done() + 1
                &&& final(self).collected().len() == old(self).collected().len()
                    + json::page_records(body@).len()
                &&& final(self).collected().subrange(0, old(self).collected().len() as int)
                    == old(self).collected()
                &&& forall|i: int| 0 <= i < json::page_records(body@).len() ==> item_matches(
                    #[trigger] final(self).collected()[old(self).collected().len() + i],
                    json::page_records(body@)[i],
                )
            },
            r matches Err(e) ==> {
                &&& *final(self) == *old(self)
                &&& !json::page_parses(body@) ==> e == HarvestError::Parse
                &&& json::page_parses(body@) ==> exists|i: int| {
                    &&& 0 <= i < json::page_records(body@).len()
                    &&& !raw_valid(#[trigger] json::page_records(body@)[i])
                    &&& (forall|j: int| 0 <= j < i ==> raw_valid(json::page_records(body@)[j]))
                    &&& e == field_error(json::page_records(body@)[i])
                }
            },
    {
        let raws = match json::parse_page(body) {
            Some(raws) => raws,
            None => {
                return Err(HarvestError::Parse);
            },
        };
        let mut page_items = match parse_records(&raws) {
            Ok(v) => v,
            Err(e) => {
                return Err(e);
            },
        };
        proof {
            assert(forall|i: int| 0 <= i < page_items@.len() ==> repo_valid(
                #[trigger] page_items@[i],
            ));
        }
        self.items.append(&mut page_items);
        self.pages_ok = self.pages_ok + 1;
        proof {
            assert(final(self).collected().subrange(0, old(self).collected().len() as int)
                =~= old(self).collected());
        }
        Ok(())
    }

    /// Hands the complete collection over; only a finished harvest has
    /// one, so an aborted run discards whatever it gathered.
    pub fn into_items(self) -> (items: Vec<Repository>)
        requires
            self.wf(),
            self.done(),
        ensures
            items@ == self.collected(),
            forall|i: int| 0 <= i < self.collected().len() ==> repo_valid(
                #[trigger] self.collected()[i],
            ),
    {
        self.items
    }
}

} // verus!
