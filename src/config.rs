//! The selector tables of the site, built once and passed to every extractor.

use vstd::prelude::*;
use crate::dom::SelectorSet;

verus! {

/// One selector set per extraction target.
#[derive(Clone, Debug)]
pub struct SiteConfig {
    /// Item blocks of a listing page.
    pub list_item: SelectorSet,
    /// Title of an item block.
    pub item_title: SelectorSet,
    /// Link of an item block.
    pub item_link: SelectorSet,
    /// Cover image of an item block.
    pub item_cover: SelectorSet,
    /// Heading of a work's page.
    pub heading: SelectorSet,
    /// Metadata container of a work's page.
    pub detail_info: SelectorSet,
    /// Summary, within the metadata container.
    pub summary: SelectorSet,
    /// Genre links, within the metadata container.
    pub genres: SelectorSet,
    /// Status text, within the metadata container.
    pub status: SelectorSet,
    /// Social-preview image tag of a work's page.
    pub preview_image: SelectorSet,
    /// Chapter links of a work's page.
    pub chapter_link: SelectorSet,
    /// Release date, within a chapter link.
    pub chapter_date: SelectorSet,
    /// Page images of a chapter's page.
    pub page_image: SelectorSet,
}

impl SiteConfig {
    /// The selectors of the site's current and earlier themes.
    pub fn ravenscans() -> (r: SiteConfig)
        ensures
            r.list_item.alts() == seq![
                "div.page-item-detail"@,
                "div.col-6.col-md-3 div.item"@,
                "div.bsx"@,
            ],
            r.item_title.alts() == seq!["h3 a"@, ".post-title a"@, ".tt"@],
            r.item_link.alts() == seq!["a"@],
            r.item_cover.alts() == seq!["img"@],
            r.heading.alts() == seq!["h1"@, ".entry-title"@, ".post-title h1"@],
            r.detail_info.alts() == seq!["div.post-content"@, ".infox"@],
            r.summary.alts() == seq![".summary__content"@, ".entry-content"@, ".desc"@],
            r.genres.alts() == seq![".genres a"@, ".wd-full .mgen a"@],
            r.status.alts() == seq![
                ".post-status .summary-content"@,
                ".imptdt:contains(Status) i"@,
                ".tsinfo .imptdt:nth-child(2) i"@,
            ],
            r.preview_image.alts() == seq!["meta[property$='image']"@],
            r.chapter_link.alts() == seq![
                "li.wp-manga-chapter"@,
                "ul.main .lch a"@,
                ".cl li a"@,
                ".eplister ul li a"@,
            ],
            r.chapter_date.alts() == seq![
                "span.chapter-release-date"@,
                ".chapter-time"@,
                ".right i"@,
            ],
            r.page_image.alts() == seq![
                "div.reading-content img"@,
                ".entry-content img"@,
                ".read-content img"@,
            ],
    {
        let list_item = ["div.page-item-detail", "div.col-6.col-md-3 div.item", "div.bsx"];
        let item_title = ["h3 a", ".post-title a", ".tt"];
        let item_link = ["a"];
        let item_cover = ["img"];
        let heading = ["h1", ".entry-title", ".post-title h1"];
        let detail_info = ["div.post-content", ".infox"];
        let summary = [".summary__content", ".entry-content", ".desc"];
        let genres = [".genres a", ".wd-full .mgen a"];
        let status = [
            ".post-status .summary-content",
            ".imptdt:contains(Status) i",
            ".tsinfo .imptdt:nth-child(2) i",
        ];
        let preview_image = ["meta[property$='image']"];
        let chapter_link = ["li.wp-manga-chapter", "ul.main .lch a", ".cl li a", ".eplister ul li a"];
        let chapter_date = ["span.chapter-release-date", ".chapter-time", ".right i"];
        let page_image = ["div.reading-content img", ".entry-content img", ".read-content img"];
        let r = SiteConfig {
            list_item: SelectorSet::of(&list_item),
            item_title: SelectorSet::of(&item_title),
            item_link: SelectorSet::of(&item_link),
            item_cover: SelectorSet::of(&item_cover),
            heading: SelectorSet::of(&heading),
            detail_info: SelectorSet::of(&detail_info),
            summary: SelectorSet::of(&summary),
            genres: SelectorSet::of(&genres),
            status: SelectorSet::of(&status),
            preview_image: SelectorSet::of(&preview_image),
            chapter_link: SelectorSet::of(&chapter_link),
            chapter_date: SelectorSet::of(&chapter_date),
            page_image: SelectorSet::of(&page_image),
        };
        assert(r.list_item.alts() =~= seq![
            "div.page-item-detail"@,
            "div.col-6.col-md-3 div.item"@,
            "div.bsx"@,
        ]);
        assert(r.item_title.alts() =~= seq!["h3 a"@, ".post-title a"@, ".tt"@]);
        assert(r.item_link.alts() =~= seq!["a"@]);
        assert(r.item_cover.alts() =~= seq!["img"@]);
        assert(r.heading.alts() =~= seq!["h1"@, ".entry-title"@, ".post-title h1"@]);
        assert(r.detail_info.alts() =~= seq!["div.post-content"@, ".infox"@]);
        assert(r.summary.alts() =~= seq![".summary__content"@, ".entry-content"@, ".desc"@]);
        assert(r.genres.alts() =~= seq![".genres a"@, ".wd-full .mgen a"@]);
        assert(r.status.alts() =~= seq![
            ".post-status .summary-content"@,
            ".imptdt:contains(Status) i"@,
            ".tsinfo .imptdt:nth-child(2) i"@,
        ]);
        assert(r.preview_image.alts() =~= seq!["meta[property$='image']"@]);
        assert(r.chapter_link.alts() =~= seq![
            "li.wp-manga-chapter"@,
            "ul.main .lch a"@,
            ".cl li a"@,
            ".eplister ul li a"@,
        ]);
        assert(r.chapter_date.alts() =~= seq![
            "span.chapter-release-date"@,
            ".chapter-time"@,
            ".right i"@,
        ]);
        assert(r.page_image.alts() =~= seq![
            "div.reading-content img"@,
            ".entry-content img"@,
            ".read-content img"@,
        ]);
        r
    }
}

} // verus!
