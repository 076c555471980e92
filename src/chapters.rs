//! A work's chapter list, in the order the page gives it (newest first).

use vstd::prelude::*;
use crate::config::SiteConfig;
use crate::dom::{ExtractError, attribute_of, document_parses, node_attribute, parses, resolve, resolve_spec, text_of, Scope};
use crate::fields::{first_text, first_text_spec, opt_view, trimmed_text};
use crate::text::trim_spec;
use crate::url::{absolute_url_spec, resolve_url};

verus! {

#[derive(Clone, Debug)]
pub struct Chapter {
    /// Absolute URL of the chapter's page.
    pub id: String,
    pub title: String,
    /// Volume; blank, the site does not give it apart from the title.
    pub volume: String,
    /// Chapter number; blank, the site does not give it apart from the title.
    pub number: String,
    /// Same as `id`.
    pub url: String,
    /// Release date as the page writes it; absent when the link shows none.
    pub date: Option<String>,
    /// Scanlation credit; blank, not extracted.
    pub scanlator: String,
    pub lang: String,
}

/// A chapter link without an `href` yields no chapter.
pub open spec fn keeps_link(html: Seq<char>, node: u32) -> bool {
    attribute_of(html, node, "href"@) is Some
}

/// The chapter links that yield a chapter, in document order.
pub open spec fn kept_links(html: Seq<char>, nodes: Seq<u32>) -> Seq<u32>
    decreases nodes.len(),
{
    if nodes.len() == 0 {
        Seq::empty()
    } else {
        let before = kept_links(html, nodes.drop_last());
        if keeps_link(html, nodes.last()) {
            before.push(nodes.last())
        } else {
            before
        }
    }
}

pub open spec fn chapter_links(html: Seq<char>, cfg: SiteConfig) -> Seq<u32> {
    kept_links(html, resolve_spec(html, Scope::Document, cfg.chapter_link))
}

/// `c` is the chapter of link `node`.
pub open spec fn chapter_of(c: Chapter, html: Seq<char>, cfg: SiteConfig, node: u32) -> bool {
    &&& c.id@ == absolute_url_spec(attribute_of(html, node, "href"@)->0)
    &&& c.url@ == c.id@
    &&& c.title@ == trim_spec(text_of(html, node))
    &&& opt_view(c.date) == first_text_spec(html, Scope::Element(node), cfg.chapter_date)
    &&& c.volume@.len() == 0
    &&& c.number@.len() == 0
    &&& c.scanlator@.len() == 0
    &&& c.lang@ == "en"@
}

/// Links are kept in the order given: when every link has an `href`, the
/// chapters are those of the links, one for one, in the same order.
pub proof fn lemma_links_kept_in_order(html: Seq<char>, nodes: Seq<u32>)
    requires
        forall|i: int| 0 <= i < nodes.len() ==> keeps_link(html, #[trigger] nodes[i]),
    ensures
        kept_links(html, nodes) == nodes,
    decreases nodes.len(),
{
    if nodes.len() > 0 {
        let before = nodes.drop_last();
        assert forall|i: int| 0 <= i < before.len() implies keeps_link(html, #[trigger] before[i]) by {
            assert(before[i] == nodes[i]);
        }
        lemma_links_kept_in_order(html, before);
        assert(keeps_link(html, nodes[nodes.len() - 1]));
        assert(before.push(nodes.last()) =~= nodes);
    }
}

/// The chapter of one link; none when it has no `href`.
pub fn link_chapter(html: &str, cfg: &SiteConfig, node: u32) -> (r: Option<Chapter>)
    ensures
        r is Some <==> keeps_link(html@, node),
        r matches Some(c) ==> chapter_of(c, html@, *cfg, node),
{
    let href = match node_attribute(html, node, "href") {
        Some(h) => h,
        None => return None,
    };
    let id = resolve_url(href.as_str());
    let title = trimmed_text(html, node);
    let date = first_text(html, Scope::Element(node), &cfg.chapter_date);
    Some(
        Chapter {
            id: id.clone(),
            title,
            volume: String::new(),
            number: String::new(),
            url: id,
            date,
            scanlator: String::new(),
            lang: String::from_str("en"),
        },
    )
}

/// The chapters of a work's page, in exactly the order of their links.
pub fn extract_chapters(html: &str, cfg: &SiteConfig) -> (r: Result<Vec<Chapter>, ExtractError>)
    ensures
        r is Err <==> !parses(html@),
        r matches Err(e) ==> e == ExtractError::Parse,
        r matches Ok(v) ==> {
            let kept = chapter_links(html@, *cfg);
            &&& v@.len() == kept.len()
            &&& forall|i: int|
                0 <= i < kept.len() ==> chapter_of(#[trigger] v@[i], html@, *cfg, kept[i])
        },
{
    if !document_parses(html) {
        return Err(ExtractError::Parse);
    }
    let nodes = resolve(html, Scope::Document, &cfg.chapter_link);
    let mut chapters: Vec<Chapter> = Vec::new();
    let mut i: usize = 0;
    while i < nodes.len()
        invariant
            i <= nodes@.len(),
            chapters@.len() == kept_links(html@, nodes@.subrange(0, i as int)).len(),
            forall|k: int|
                0 <= k < chapters@.len() ==> chapter_of(
                    #[trigger] chapters@[k],
                    html@,
                    *cfg,
                    kept_links(html@, nodes@.subrange(0, i as int))[k],
                ),
        decreases nodes@.len() - i,
    {
        let ghost before = kept_links(html@, nodes@.subrange(0, i as int));
        proof {
            let next = nodes@.subrange(0, i + 1);
            assert(next.drop_last() =~= nodes@.subrange(0, i as int));
            assert(next.last() == nodes@[i as int]);
        }
        match link_chapter(html, cfg, nodes[i]) {
            Some(c) => {
                chapters.push(c);
            },
            None => {},
        }
        i = i + 1;
        proof {
            let now = kept_links(html@, nodes@.subrange(0, i as int));
            assert forall|k: int| 0 <= k < chapters@.len() implies chapter_of(
                #[trigger] chapters@[k],
                html@,
                *cfg,
                now[k],
            ) by {
                if k < before.len() {
                    assert(now[k] == before[k]);
                }
            }
        }
    }
    proof {
        assert(nodes@.subrange(0, i as int) =~= nodes@);
    }
    Ok(chapters)
}

} // verus!
