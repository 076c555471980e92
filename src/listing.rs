//! Listing pages: the work summaries of a catalog or search results page.

use vstd::prelude::*;
use crate::config::SiteConfig;
use crate::dom::{document_parses, first_of, parses, resolve, resolve_first, resolve_spec, ExtractError, Scope};
use crate::fields::{
    first_attribute,
    first_attribute_spec,
    first_text,
    first_text_spec,
    image_url_spec,
    or_empty,
    pick_image_url,
};
use crate::url::{absolute_url_spec, resolve_url};

verus! {

/// One work as a listing shows it.
#[derive(Clone, Debug)]
pub struct WorkSummary {
    /// Absolute URL of the work's page.
    pub id: String,
    pub title: String,
    /// Cover image URL; empty when the item shows none.
    pub cover: String,
    /// Same as `id`.
    pub url: String,
}

#[derive(Clone, Debug)]
pub struct ListingPage {
    pub entries: Vec<WorkSummary>,
    /// Always set: the site gives no reliable end-of-results marker, so
    /// another page is assumed to exist.
    pub has_more: bool,
}

pub open spec fn item_title_spec(html: Seq<char>, cfg: SiteConfig, item: u32) -> Seq<char> {
    or_empty(first_text_spec(html, Scope::Element(item), cfg.item_title))
}

pub open spec fn item_href_spec(html: Seq<char>, cfg: SiteConfig, item: u32) -> Seq<char> {
    or_empty(first_attribute_spec(html, Scope::Element(item), cfg.item_link, "href"@))
}

pub open spec fn item_cover_spec(html: Seq<char>, cfg: SiteConfig, item: u32) -> Seq<char> {
    match first_of(resolve_spec(html, Scope::Element(item), cfg.item_cover)) {
        Some(img) => or_empty(image_url_spec(html, img)),
        None => Seq::empty(),
    }
}

/// An item without a title or without a link is no usable record.
pub open spec fn keeps_item(html: Seq<char>, cfg: SiteConfig, item: u32) -> bool {
    item_title_spec(html, cfg, item).len() > 0 && item_href_spec(html, cfg, item).len() > 0
}

/// The items that yield a summary, in order.
pub open spec fn kept_items(html: Seq<char>, cfg: SiteConfig, items: Seq<u32>) -> Seq<u32>
    decreases items.len(),
{
    if items.len() == 0 {
        Seq::empty()
    } else {
        let before = kept_items(html, cfg, items.drop_last());
        if keeps_item(html, cfg, items.last()) {
            before.push(items.last())
        } else {
            before
        }
    }
}

/// The item blocks of a listing document that yield a summary.
pub open spec fn listing_items(html: Seq<char>, cfg: SiteConfig) -> Seq<u32> {
    kept_items(html, cfg, resolve_spec(html, Scope::Document, cfg.list_item))
}

/// `w` is the summary of item block `item`.
pub open spec fn summary_of(w: WorkSummary, html: Seq<char>, cfg: SiteConfig, item: u32) -> bool {
    &&& w.title@ == item_title_spec(html, cfg, item)
    &&& w.id@ == absolute_url_spec(item_href_spec(html, cfg, item))
    &&& w.url@ == w.id@
    &&& w.cover@ == item_cover_spec(html, cfg, item)
}

/// The summary of one item block; none when it lacks a title or a link.
pub fn item_summary(html: &str, cfg: &SiteConfig, item: u32) -> (r: Option<WorkSummary>)
    ensures
        r is Some <==> keeps_item(html@, *cfg, item),
        r matches Some(w) ==> summary_of(w, html@, *cfg, item),
{
    let title = match first_text(html, Scope::Element(item), &cfg.item_title) {
        Some(t) => t,
        None => String::new(),
    };
    let href = match first_attribute(html, Scope::Element(item), &cfg.item_link, "href") {
        Some(h) => h,
        None => String::new(),
    };
    if title.as_str().unicode_len() == 0 || href.as_str().unicode_len() == 0 {
        return None;
    }
    let cover = match resolve_first(html, Scope::Element(item), &cfg.item_cover) {
        Some(img) => match pick_image_url(html, img) {
            Some(u) => u,
            None => String::new(),
        },
        None => String::new(),
    };
    let id = resolve_url(href.as_str());
    Some(WorkSummary { id: id.clone(), title, cover, url: id })
}

/// The summaries of a listing document, in document order, skipping item
/// blocks without a title or a link.
pub fn extract_listing(html: &str, cfg: &SiteConfig) -> (r: Result<ListingPage, ExtractError>)
    ensures
        r is Err <==> !parses(html@),
        r matches Err(e) ==> e == ExtractError::Parse,
        r matches Ok(p) ==> {
            let kept = listing_items(html@, *cfg);
            &&& p.has_more
            &&& p.entries@.len() == kept.len()
            &&& forall|i: int|
                0 <= i < kept.len() ==> summary_of(#[trigger] p.entries@[i], html@, *cfg, kept[i])
            &&& forall|i: int|
                0 <= i < kept.len() ==> #[trigger] p.entries@[i].title@.len() > 0
                    && p.entries@[i].id@.len() > 0
        },
{
    if !document_parses(html) {
        return Err(ExtractError::Parse);
    }
    let items = resolve(html, Scope::Document, &cfg.list_item);
    let mut entries: Vec<WorkSummary> = Vec::new();
    let mut i: usize = 0;
    while i < items.len()
        invariant
            i <= items@.len(),
            items@ == resolve_spec(html@, Scope::Document, cfg.list_item),
            entries@.len() == kept_items(html@, *cfg, items@.subrange(0, i as int)).len(),
            forall|k: int|
                0 <= k < entries@.len() ==> summary_of(
                    #[trigger] entries@[k],
                    html@,
                    *cfg,
                    kept_items(html@, *cfg, items@.subrange(0, i as int))[k],
                ),
            forall|k: int|
                0 <= k < entries@.len() ==> #[trigger] entries@[k].title@.len() > 0
                    && entries@[k].id@.len() > 0,
        decreases items@.len() - i,
    {
        let ghost before = kept_items(html@, *cfg, items@.subrange(0, i as int));
        proof {
            let next = items@.subrange(0, i + 1);
            assert(next.drop_last() =~= items@.subrange(0, i as int));
            assert(next.last() == items@[i as int]);
        }
        match item_summary(html, cfg, items[i]) {
            Some(w) => {
                entries.push(w);
            },
            None => {},
        }
        i = i + 1;
        proof {
            let now = kept_items(html@, *cfg, items@.subrange(0, i as int));
            assert forall|k: int| 0 <= k < entries@.len() implies summary_of(
                #[trigger] entries@[k],
                html@,
                *cfg,
                now[k],
            ) by {
                if k < before.len() {
                    assert(now[k] == before[k]);
                }
            }
        }
    }
    proof {
        assert(items@.subrange(0, i as int) =~= items@);
    }
    Ok(ListingPage { entries, has_more: true })
}

} // verus!
