//! The error taxonomy of the pipeline: every failure is fatal and is
//! reported as exactly one of these categories.

use vstd::prelude::*;

verus! {

/// Which required field of a record was missing or not text-typed.
#[derive(Clone, Copy, Debug, PartialEq, Eq, Structural)]
pub enum FieldKind {
    Name,
    Url,
}

/// One category per kind of failure: the request itself, the shape of the
/// response, a single record's required fields, or the final write.
#[derive(Clone, Copy, Debug, PartialEq, Eq, Structural)]
pub enum HarvestError {
    /// The request could not be sent or the response not received.
    Transport,
    /// The response body is not valid structured data, or the expected
    /// items array is absent or malformed.
    Parse,
    /// An individual record lacks a required field or has the wrong type
    /// for it.
    Field(FieldKind),
    /// The output destination could not be written.
    Write,
}

/// The human-readable description of each error category.
pub open spec fn error_text(e: HarvestError) -> Seq<char> {
    match e {
        HarvestError::Transport => "Request failed"@,
        HarvestError::Parse => "Invalid response format"@,
        HarvestError::Field(FieldKind::Name) => "Invalid repository name"@,
        HarvestError::Field(FieldKind::Url) => "Invalid repository URL"@,
        HarvestError::Write => "Output could not be written"@,
    }
}

impl HarvestError {
    /// The descriptive message surfaced to the operator on a terminal
    /// failure; it identifies which category occurred.
    pub fn message(&self) -> (m: String)
        ensures
            m@ == error_text(*self),
    {
        match self {
            HarvestError::Transport => "Request failed".to_owned(),
            HarvestError::Parse => "Invalid response format".to_owned(),
            HarvestError::Field(FieldKind::Name) => "Invalid repository name".to_owned(),
            HarvestError::Field(FieldKind::Url) => "Invalid repository URL".to_owned(),
            HarvestError::Write => "Output could not be written".to_owned(),
        }
    }
}

} // verus!
