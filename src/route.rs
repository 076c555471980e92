//! Deep-link routing: whether a URL names a work or one of its chapters.

use vstd::prelude::*;
use crate::text::{contains, contains_str};

verus! {

#[derive(Clone, Copy, Debug, PartialEq, Eq, Structural)]
pub enum UrlKind {
    Work,
    Chapter,
}

/// A URL whose text holds a chapter path marker names a chapter; any other
/// names a work.
pub open spec fn url_kind_spec(url: Seq<char>) -> UrlKind {
    if contains(url, "/chapter/"@) || contains(url, "/ch/"@) || contains(url, "/chapter-"@) {
        UrlKind::Chapter
    } else {
        UrlKind::Work
    }
}

pub fn classify_url(url: &str) -> (r: UrlKind)
    ensures
        r == url_kind_spec(url@),
{
    if contains_str(url, "/chapter/") || contains_str(url, "/ch/") || contains_str(
        url,
        "/chapter-",
    ) {
        UrlKind::Chapter
    } else {
        UrlKind::Work
    }
}

impl UrlKind {
    /// The name the host gives this kind of link.
    pub fn host_label(&self) -> (r: &'static str)
        ensures
            *self == UrlKind::Work ==> r@ == "manga"@,
            *self == UrlKind::Chapter ==> r@ == "chapter"@,
    {
        match self {
            UrlKind::Work => "manga",
            UrlKind::Chapter => "chapter",
        }
    }
}

/// A deep link as the host takes it: what it names, and the URL as both its
/// identifier and its address.
#[derive(Clone, Debug)]
pub struct LinkTarget {
    pub kind: UrlKind,
    pub id: String,
    pub url: String,
}

pub fn handle_url(url: &str) -> (r: LinkTarget)
    ensures
        r.kind == url_kind_spec(url@),
        r.id@ == url@,
        r.url@ == url@,
{
    LinkTarget { kind: classify_url(url), id: String::from_str(url), url: String::from_str(url) }
}

} // verus!
