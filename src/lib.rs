//! Catalog extraction for the RavenScans site: selector fallback chains over
//! parsed HTML, field normalisation, and the listing, detail, chapter and page
//! extractors.

pub mod route;
pub mod status;
pub mod chapters;
pub mod config;
pub mod detail;
pub mod dom;
pub mod fields;
pub mod listing;
pub mod pages;
pub mod request;
pub mod text;
pub mod url;
