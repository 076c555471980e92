//! A chapter's page images, in reading order.

use vstd::prelude::*;
use crate::config::SiteConfig;
use crate::dom::{ExtractError, attribute_of, document_parses, node_attribute, parses, resolve, resolve_spec, Scope};
use crate::fields::opt_view;

verus! {

#[derive(Clone, Debug)]
pub struct ContentPage {
    /// Position among the chapter's pages, from 0.
    pub index: usize,
    pub url: String,
}

/// The image URL of a page node: its lazy-load attribute if present, else
/// its `src`; absent when it has neither.
pub open spec fn page_source_spec(html: Seq<char>, node: u32) -> Option<Seq<char>> {
    match attribute_of(html, node, "data-src"@) {
        Some(v) => Some(v),
        None => attribute_of(html, node, "src"@),
    }
}

/// The image nodes that have one of the two source attributes, in order.
pub open spec fn sourced_nodes(html: Seq<char>, nodes: Seq<u32>) -> Seq<u32>
    decreases nodes.len(),
{
    if nodes.len() == 0 {
        Seq::empty()
    } else {
        let before = sourced_nodes(html, nodes.drop_last());
        if page_source_spec(html, nodes.last()) is Some {
            before.push(nodes.last())
        } else {
            before
        }
    }
}

pub open spec fn page_nodes(html: Seq<char>, cfg: SiteConfig) -> Seq<u32> {
    sourced_nodes(html, resolve_spec(html, Scope::Document, cfg.page_image))
}

pub fn page_source(html: &str, node: u32) -> (r: Option<String>)
    ensures
        opt_view(r) == page_source_spec(html@, node),
{
    match node_attribute(html, node, "data-src") {
        Some(v) => Some(v),
        None => node_attribute(html, node, "src"),
    }
}

/// The pages of a chapter's document: one per image node with a source,
/// numbered from 0 without gaps, in document order. No pages is a valid
/// result.
pub fn extract_pages(html: &str, cfg: &SiteConfig) -> (r: Result<Vec<ContentPage>, ExtractError>)
    ensures
        r is Err <==> !parses(html@),
        r matches Err(e) ==> e == ExtractError::Parse,
        r matches Ok(v) ==> {
            let kept = page_nodes(html@, *cfg);
            &&& v@.len() == kept.len()
            &&& forall|i: int|
                0 <= i < kept.len() ==> (#[trigger] v@[i]).index == i && Some(v@[i].url@)
                    == page_source_spec(html@, kept[i])
        },
{
    if !document_parses(html) {
        return Err(ExtractError::Parse);
    }
    let nodes = resolve(html, Scope::Document, &cfg.page_image);
    let mut pages: Vec<ContentPage> = Vec::new();
    let mut i: usize = 0;
    while i < nodes.len()
        invariant
            i <= nodes@.len(),
            pages@.len() == sourced_nodes(html@, nodes@.subrange(0, i as int)).len(),
            pages@.len() <= i,
            forall|k: int|
                0 <= k < pages@.len() ==> (#[trigger] pages@[k]).index == k && Some(pages@[k].url@)
                    == page_source_spec(html@, sourced_nodes(html@, nodes@.subrange(0, i as int))[k]),
        decreases nodes@.len() - i,
    {
        let ghost before = sourced_nodes(html@, nodes@.subrange(0, i as int));
        proof {
            let next = nodes@.subrange(0, i + 1);
            assert(next.drop_last() =~= nodes@.subrange(0, i as int));
            assert(next.last() == nodes@[i as int]);
        }
        match page_source(html, nodes[i]) {
            Some(url) => {
                let index = pages.len();
                pages.push(ContentPage { index, url });
            },
            None => {},
        }
        i = i + 1;
        proof {
            let now = sourced_nodes(html@, nodes@.subrange(0, i as int));
            assert forall|k: int| 0 <= k < pages@.len() implies (#[trigger] pages@[k]).index == k
                && Some(pages@[k].url@) == page_source_spec(html@, now[k]) by {
                if k < before.len() {
                    assert(now[k] == before[k]);
                }
            }
        }
    }
    proof {
        assert(nodes@.subrange(0, i as int) =~= nodes@);
    }
    Ok(pages)
}

} // verus!
