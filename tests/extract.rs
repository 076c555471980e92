use ravenscans::chapters::extract_chapters;
use ravenscans::config::SiteConfig;
use ravenscans::detail::{extract_detail, ContentRating, Viewer};
use ravenscans::dom::{node_attribute, resolve, resolve_first, select_path, split_selector, Scope, SelectorSet};
use ravenscans::fields::{pick_image_url, trimmed_text};
use ravenscans::listing::extract_listing;
use ravenscans::pages::extract_pages;
use ravenscans::status::Status;

const LISTING: &str = r#"<html><body>
<div class="bsx"><a href="/manga/alpha/"><img data-src="https://cdn/a.jpg" src="ph.gif"></a><div class="tt"> Alpha </div></div>
<div class="bsx"><span>no link here</span><div class="tt">Beta</div></div>
<div class="bsx"><a href="https://ravenscans.com/manga/gamma/"><img src="https://cdn/g.jpg"></a><div class="tt">Gamma</div></div>
</body></html>"#;

#[test]
fn listing_skips_item_without_href() {
    let cfg = SiteConfig::ravenscans();
    let page = extract_listing(LISTING, &cfg).unwrap();
    assert!(page.has_more);
    assert_eq!(page.entries.len(), 2);
    assert_eq!(page.entries[0].title, "Alpha");
    assert_eq!(page.entries[0].id, "https://ravenscans.com/manga/alpha/");
    assert_eq!(page.entries[0].url, page.entries[0].id);
    assert_eq!(page.entries[0].cover, "https://cdn/a.jpg");
    assert_eq!(page.entries[1].title, "Gamma");
    assert_eq!(page.entries[1].id, "https://ravenscans.com/manga/gamma/");
    assert_eq!(page.entries[1].cover, "https://cdn/g.jpg");
    for e in &page.entries {
        assert!(!e.title.is_empty());
        assert!(!e.id.is_empty());
    }
}

#[test]
fn listing_skips_item_with_blank_title() {
    let cfg = SiteConfig::ravenscans();
    let html = r#"<div class="bsx"><a href="/m/x/"></a><div class="tt">   </div></div>"#;
    let page = extract_listing(html, &cfg).unwrap();
    assert!(page.entries.is_empty());
    assert!(page.has_more);
}

#[test]
fn listing_of_empty_document() {
    let cfg = SiteConfig::ravenscans();
    let page = extract_listing("", &cfg).unwrap();
    assert!(page.entries.is_empty());
}

const DETAIL: &str = r#"<html><head><meta property="og:image" content="https://cdn/cover.jpg"></head><body>
<h1> The Work </h1>
<div class="infox">
  <div class="desc"> A story. </div>
  <div class="wd-full"><span class="mgen"><a href="/g/1">Action</a><a href="/g/2"> </a><a href="/g/3">Drama</a><a href="/g/1">Action</a></span></div>
</div>
</body></html>"#;

#[test]
fn detail_without_status_is_unknown() {
    let cfg = SiteConfig::ravenscans();
    let d = extract_detail(DETAIL, "https://ravenscans.com/manga/work/", &cfg).unwrap();
    assert_eq!(d.status, Status::Unknown);
    assert_eq!(d.title, "The Work");
    assert_eq!(d.description, "A story.");
    assert_eq!(d.categories, vec!["Action", "Drama", "Action"]);
    assert_eq!(d.cover, "https://cdn/cover.jpg");
    assert_eq!(d.id, "https://ravenscans.com/manga/work/");
    assert_eq!(d.url, d.id);
    assert_eq!(d.rating, ContentRating::Mature);
    assert_eq!(d.viewer, Viewer::Scroll);
}

#[test]
fn detail_with_status_and_defaults() {
    let cfg = SiteConfig::ravenscans();
    let html = r#"<div class="post-content"><div class="post-status"><div class="summary-content"> OnGoing </div></div></div>"#;
    let d = extract_detail(html, "u", &cfg).unwrap();
    assert_eq!(d.status, Status::Ongoing);
    assert_eq!(d.title, "Unknown");
    assert_eq!(d.description, "");
    assert!(d.categories.is_empty());
    assert_eq!(d.cover, "");
}

#[test]
fn detail_of_empty_document() {
    let cfg = SiteConfig::ravenscans();
    let d = extract_detail("", "https://x/y", &cfg).unwrap();
    assert_eq!(d.title, "Unknown");
    assert_eq!(d.status, Status::Unknown);
    assert_eq!(d.id, "https://x/y");
}

const CHAPTERS: &str = r#"<ul class="main">
<li><span class="lch"><a href="/manga/w/chapter-3/">Chapter 3 <span class="chapter-time">May 3</span></a></span></li>
<li><span class="lch"><a>Chapter 2.5</a></span></li>
<li><span class="lch"><a href="https://ravenscans.com/manga/w/chapter-2/"> Chapter 2 </a></span></li>
<li><span class="lch"><a href="/manga/w/chapter-1/">Chapter 1</a></span></li>
</ul>"#;

#[test]
fn chapters_keep_document_order() {
    let cfg = SiteConfig::ravenscans();
    let v = extract_chapters(CHAPTERS, &cfg).unwrap();
    let ids: Vec<&str> = v.iter().map(|c| c.id.as_str()).collect();
    assert_eq!(
        ids,
        vec![
            "https://ravenscans.com/manga/w/chapter-3/",
            "https://ravenscans.com/manga/w/chapter-2/",
            "https://ravenscans.com/manga/w/chapter-1/",
        ]
    );
    assert_eq!(v[0].title, "Chapter 3 May 3");
    assert_eq!(v[0].date.as_deref(), Some("May 3"));
    assert_eq!(v[1].title, "Chapter 2");
    assert_eq!(v[1].date, None);
    for c in &v {
        assert_eq!(c.url, c.id);
        assert_eq!(c.lang, "en");
        assert_eq!(c.volume, "");
        assert_eq!(c.number, "");
        assert_eq!(c.scanlator, "");
    }
}

#[test]
fn chapters_of_page_without_list() {
    let cfg = SiteConfig::ravenscans();
    assert!(extract_chapters("<p>nothing</p>", &cfg).unwrap().is_empty());
}

const READER: &str = r#"<div class="reading-content">
<img data-src="https://cdn/1.jpg" src="ph.gif">
<img class="ad">
<img src="https://cdn/2.jpg">
<img data-src="">
</div>"#;

#[test]
fn pages_contiguous_indices() {
    let cfg = SiteConfig::ravenscans();
    let v = extract_pages(READER, &cfg).unwrap();
    assert_eq!(v.len(), 3);
    for (i, p) in v.iter().enumerate() {
        assert_eq!(p.index, i);
    }
    assert_eq!(v[0].url, "https://cdn/1.jpg");
    assert_eq!(v[1].url, "https://cdn/2.jpg");
    assert_eq!(v[2].url, "");
}

#[test]
fn pages_empty_chapter() {
    let cfg = SiteConfig::ravenscans();
    assert!(extract_pages("<div class='reading-content'></div>", &cfg).unwrap().is_empty());
}

#[test]
fn image_url_priority() {
    let html = r#"<img data-src="" data-lazy-src="lazy.jpg" src="eager.jpg"><img src="only.jpg"><img>"#;
    let imgs = SelectorSet::of(&["img"]);
    let nodes = resolve(html, Scope::Document, &imgs);
    assert_eq!(nodes.len(), 3);
    assert_eq!(pick_image_url(html, nodes[0]).as_deref(), Some("lazy.jpg"));
    assert_eq!(pick_image_url(html, nodes[1]).as_deref(), Some("only.jpg"));
    assert_eq!(pick_image_url(html, nodes[2]), None);
}

#[test]
fn selector_fallback_takes_first_nonempty_alternative() {
    let html = r#"<p class="b">one</p><p class="c">two</p><p class="b">three</p>"#;
    let set = SelectorSet::of(&[".a", ".b", ".c"]);
    let found = resolve(html, Scope::Document, &set);
    assert_eq!(found.len(), 2);
    let texts: Vec<String> = found.iter().map(|n| trimmed_text(html, *n)).collect();
    assert_eq!(texts, vec!["one", "three"]);
    let none = SelectorSet::of(&[".x", ".y"]);
    assert!(resolve(html, Scope::Document, &none).is_empty());
    assert_eq!(resolve_first(html, Scope::Document, &none), None);
}

#[test]
fn element_scope_and_attributes() {
    let html = r#"<div id="o"><a href="/in">in</a></div><a href="/out">out</a>"#;
    let div = resolve_first(html, Scope::Document, &SelectorSet::of(&["div"])).unwrap();
    let links = resolve(html, Scope::Element(div), &SelectorSet::of(&["a"]));
    assert_eq!(links.len(), 1);
    assert_eq!(node_attribute(html, links[0], "href").as_deref(), Some("/in"));
    assert_eq!(node_attribute(html, links[0], "title"), None);
    assert_eq!(trimmed_text(html, div), "in");
}

#[test]
fn selector_parts_split_on_spaces() {
    assert_eq!(split_selector("  ul.main  .lch a "), vec!["ul.main", ".lch", "a"]);
    assert_eq!(split_selector("div.bsx"), vec!["div.bsx"]);
    assert!(split_selector("   ").is_empty());
}

#[test]
fn descendant_matches_counted_once() {
    let html = r#"<div class="x"><div class="x"><img src="a"></div><img src="b"></div><img src="c">"#;
    let found = select_path(html, Scope::Document, "div.x img");
    assert_eq!(found.len(), 2);
    assert_eq!(node_attribute(html, found[0], "src").as_deref(), Some("a"));
    assert_eq!(node_attribute(html, found[1], "src").as_deref(), Some("b"));
}

#[test]
fn ordinary_documents_parse() {
    assert!(ravenscans::dom::document_parses("<p>x</p>"));
    assert!(ravenscans::dom::document_parses(""));
}
