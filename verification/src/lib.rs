//! Harvests paginated results from a remote search endpoint and renders
//! them into a single aggregated markdown document.
//!
//! The library holds the whole pipeline's logic: request construction,
//! per-record field validation, accumulation across pages, and rendering.
//! The surrounding binary only moves bytes over the network and to disk.

mod errors;
mod harvest;
pub mod json;
mod render;
mod repo;
mod textfmt;

pub use errors::FieldKind;
pub use errors::HarvestError;
pub use errors::error_text;
pub use harvest::Harvester;
pub use harvest::MAX_PAGES;
pub use harvest::RawRecord;
pub use harvest::decode_record;
pub use harvest::field_error;
pub use harvest::field_present;
pub use harvest::item_matches;
pub use json::page_parses;
pub use json::page_records;
pub use harvest::page_url;
pub use harvest::page_url_text;
pub use harvest::parse_records;
pub use harvest::raw_valid;
pub use harvest::user_agent;
pub use render::description_text;
pub use render::document_text;
pub use render::entries_text;
pub use render::entry_lines;
pub use render::heading_line;
pub use render::lemma_absent_description_empty;
pub use render::lemma_document_starts_with_heading;
pub use render::lemma_render_deterministic;
pub use render::render;
pub use repo::Repository;
pub use repo::repo_valid;
pub use textfmt::dec_digits;
pub use textfmt::dec_string;
pub use textfmt::digit_char;
