//! A work's own page: its full metadata record.

use vstd::prelude::*;
use crate::config::SiteConfig;
use crate::dom::{ExtractError, 
    document_parses, first_of, parses, resolve, resolve_first, resolve_spec, strings_view, text_of, Scope,
};
use crate::fields::{first_attribute, first_attribute_spec, first_text, first_text_spec, or_empty, trimmed_text};
use crate::status::{classify_status, status_of, Status};
use crate::text::trim_spec;

verus! {

/// Every work of the site is rated for mature readers.
#[derive(Clone, Copy, Debug, PartialEq, Eq, Structural)]
pub enum ContentRating {
    Mature,
}

/// Every work of the site is read as one continuous scroll.
#[derive(Clone, Copy, Debug, PartialEq, Eq, Structural)]
pub enum Viewer {
    Scroll,
}

#[derive(Clone, Debug)]
pub struct WorkDetail {
    /// The address the page was fetched from.
    pub id: String,
    pub title: String,
    pub cover: String,
    pub description: String,
    pub categories: Vec<String>,
    pub status: Status,
    pub rating: ContentRating,
    pub viewer: Viewer,
    /// Same as `id`.
    pub url: String,
}

/// Page heading; "Unknown" when the page has none.
pub open spec fn detail_title_spec(html: Seq<char>, cfg: SiteConfig) -> Seq<char> {
    match first_text_spec(html, Scope::Document, cfg.heading) {
        Some(t) => t,
        None => "Unknown"@,
    }
}

/// The metadata container, the scope of description, genres and status.
pub open spec fn info_spec(html: Seq<char>, cfg: SiteConfig) -> Option<u32> {
    first_of(resolve_spec(html, Scope::Document, cfg.detail_info))
}

pub open spec fn description_spec(html: Seq<char>, cfg: SiteConfig) -> Seq<char> {
    match info_spec(html, cfg) {
        Some(info) => or_empty(first_text_spec(html, Scope::Element(info), cfg.summary)),
        None => Seq::empty(),
    }
}

/// Trimmed texts of `nodes`, the empty ones left out, in order, repeats kept.
pub open spec fn genre_names(html: Seq<char>, nodes: Seq<u32>) -> Seq<Seq<char>>
    decreases nodes.len(),
{
    if nodes.len() == 0 {
        Seq::empty()
    } else {
        let before = genre_names(html, nodes.drop_last());
        let name = trim_spec(text_of(html, nodes.last()));
        if name.len() > 0 {
            before.push(name)
        } else {
            before
        }
    }
}

pub open spec fn categories_spec(html: Seq<char>, cfg: SiteConfig) -> Seq<Seq<char>> {
    match info_spec(html, cfg) {
        Some(info) => genre_names(html, resolve_spec(html, Scope::Element(info), cfg.genres)),
        None => Seq::empty(),
    }
}

pub open spec fn status_spec(html: Seq<char>, cfg: SiteConfig) -> Status {
    match info_spec(html, cfg) {
        Some(info) => match first_text_spec(html, Scope::Element(info), cfg.status) {
            Some(t) => status_of(t),
            None => Status::Unknown,
        },
        None => Status::Unknown,
    }
}

/// The social-preview image of the page; empty when it has none.
pub open spec fn detail_cover_spec(html: Seq<char>, cfg: SiteConfig) -> Seq<char> {
    or_empty(first_attribute_spec(html, Scope::Document, cfg.preview_image, "content"@))
}

/// Genre names below the metadata container.
fn genres_in(html: &str, cfg: &SiteConfig, info: u32) -> (r: Vec<String>)
    ensures
        strings_view(r@) == genre_names(
            html@,
            resolve_spec(html@, Scope::Element(info), cfg.genres),
        ),
{
    let nodes = resolve(html, Scope::Element(info), &cfg.genres);
    let mut names: Vec<String> = Vec::new();
    let mut i: usize = 0;
    while i < nodes.len()
        invariant
            i <= nodes@.len(),
            strings_view(names@) == genre_names(html@, nodes@.subrange(0, i as int)),
        decreases nodes@.len() - i,
    {
        proof {
            let next = nodes@.subrange(0, i + 1);
            assert(next.drop_last() =~= nodes@.subrange(0, i as int));
            assert(next.last() == nodes@[i as int]);
        }
        let name = trimmed_text(html, nodes[i]);
        if name.as_str().unicode_len() > 0 {
            let ghost before = names@;
            names.push(name);
            proof {
                assert(strings_view(names@) =~= strings_view(before).push(name@));
            }
        }
        i = i + 1;
    }
    proof {
        assert(nodes@.subrange(0, i as int) =~= nodes@);
    }
    names
}

/// The metadata record of a work's page fetched from `url`. Missing parts
/// fall back to defaults; only a document that cannot be parsed fails.
pub fn extract_detail(html: &str, url: &str, cfg: &SiteConfig) -> (r: Result<
    WorkDetail,
    ExtractError,
>)
    ensures
        r is Err <==> !parses(html@),
        r matches Err(e) ==> e == ExtractError::Parse,
        r matches Ok(d) ==> {
            &&& d.id@ == url@
            &&& d.url@ == url@
            &&& d.title@ == detail_title_spec(html@, *cfg)
            &&& d.cover@ == detail_cover_spec(html@, *cfg)
            &&& d.description@ == description_spec(html@, *cfg)
            &&& strings_view(d.categories@) == categories_spec(html@, *cfg)
            &&& d.status == status_spec(html@, *cfg)
            &&& d.rating == ContentRating::Mature
            &&& d.viewer == Viewer::Scroll
        },
{
    if !document_parses(html) {
        return Err(ExtractError::Parse);
    }
    let title = match first_text(html, Scope::Document, &cfg.heading) {
        Some(t) => t,
        None => String::from_str("Unknown"),
    };
    let info = resolve_first(html, Scope::Document, &cfg.detail_info);
    let (description, categories, status) = match info {
        Some(i) => {
            let description = match first_text(html, Scope::Element(i), &cfg.summary) {
                Some(t) => t,
                None => String::new(),
            };
            let status = match first_text(html, Scope::Element(i), &cfg.status) {
                Some(t) => classify_status(t.as_str()),
                None => Status::Unknown,
            };
            (description, genres_in(html, cfg, i), status)
        },
        None => {
            let categories: Vec<String> = Vec::new();
            proof {
                assert(strings_view(categories@) =~= Seq::<Seq<char>>::empty());
            }
            (String::new(), categories, Status::Unknown)
        },
    };
    let cover = match first_attribute(html, Scope::Document, &cfg.preview_image, "content") {
        Some(c) => c,
        None => String::new(),
    };
    Ok(
        WorkDetail {
            id: String::from_str(url),
            title,
            cover,
            description,
            categories,
            status,
            rating: ContentRating::Mature,
            viewer: Viewer::Scroll,
            url: String::from_str(url),
        },
    )
}

} // verus!
