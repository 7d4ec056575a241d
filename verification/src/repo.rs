//! The harvested record type: one entry of the aggregated list.

use vstd::prelude::*;

verus! {

/// One harvested entry: a name, a canonical link, and an optional
/// free-text description. Absence of the description is a valid state.
#[derive(Debug)]
pub struct Repository {
    pub name: String,
    pub html_url: String,
    pub description: Option<String>,
}

/// A repository is valid when its required fields are non-empty;
/// the description carries no such requirement.
pub open spec fn repo_valid(r: Repository) -> bool {
    r.name@.len() > 0 && r.html_url@.len() > 0
}

impl Repository {
    pub fn new(name: String, html_url: String, description: Option<String>) -> (r: Self)
        ensures
            r.name == name,
            r.html_url == html_url,
            r.description == description,
    {
        Self { name, html_url, description }
    }
}

} // verus!
