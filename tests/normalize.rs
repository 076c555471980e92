use ravenscans::request::{
    listing_kind, listing_request, listing_url, page_number, search_term, search_url, Filter,
    ListingKind,
};
use ravenscans::route::{classify_url, handle_url, UrlKind};
use ravenscans::status::{classify_status, Status};
use ravenscans::text::{contains_ignoring_case, contains_str, trim};
use ravenscans::url::{resolve_url, scheme_present, BASE_URL};

#[test]
fn relative_href_gets_origin() {
    assert_eq!(resolve_url("/manga/foo/"), "https://ravenscans.com/manga/foo/");
}

#[test]
fn absolute_href_unchanged() {
    let a = "https://cdn.example.org/a.jpg";
    assert_eq!(resolve_url(a), a);
    assert_eq!(resolve_url("http://x.y/z"), "http://x.y/z");
}

#[test]
fn resolve_is_idempotent() {
    for h in ["/manga/foo/", "chapter-3", "", "//cdn/x.png", "https://a.b/c"] {
        let once = resolve_url(h);
        assert_eq!(resolve_url(&once), once);
    }
}

#[test]
fn scheme_detection() {
    assert!(scheme_present("https://a"));
    assert!(scheme_present("mailto:x"));
    assert!(scheme_present("a+b.c-d:rest"));
    assert!(!scheme_present("/path:x"));
    assert!(!scheme_present("1abc:x"));
    assert!(!scheme_present(":x"));
    assert!(!scheme_present("noscheme"));
    assert!(!scheme_present(""));
}

#[test]
fn status_completed() {
    assert_eq!(classify_status("Completed"), Status::Completed);
}

#[test]
fn status_ongoing_upper_case() {
    assert_eq!(classify_status("  ONGOING now"), Status::Ongoing);
}

#[test]
fn status_hiatus_unknown() {
    assert_eq!(classify_status("hiatus"), Status::Unknown);
    assert_eq!(classify_status(""), Status::Unknown);
}

#[test]
fn status_complete_and_mixed_case() {
    assert_eq!(classify_status("cOmPlEtE"), Status::Completed);
    assert_eq!(classify_status("Status: OnGoing"), Status::Ongoing);
    assert_eq!(classify_status("ongoing, complete soon"), Status::Ongoing);
    assert_eq!(classify_status("comp lete"), Status::Unknown);
}

#[test]
fn trim_strips_unicode_whitespace() {
    assert_eq!(trim("  \t hello world \n"), "hello world");
    assert_eq!(trim("\u{a0}x\u{3000}"), "x");
    assert_eq!(trim("   "), "");
    assert_eq!(trim(""), "");
    assert_eq!(trim("a"), "a");
}

#[test]
fn substring_search() {
    assert!(contains_str("abcabd", "abd"));
    assert!(!contains_str("abcab", "abd"));
    assert!(contains_str("abc", ""));
    assert!(!contains_str("", "a"));
    assert!(contains_ignoring_case("XXONGOINGXX", "ongoing"));
    assert!(!contains_str("XXONGOINGXX", "ongoing"));
}

#[test]
fn classify_work_url() {
    assert_eq!(classify_url("https://site/manga/foo"), UrlKind::Work);
}

#[test]
fn classify_chapter_url() {
    assert_eq!(classify_url("https://site/manga/foo/chapter-3"), UrlKind::Chapter);
    assert_eq!(classify_url("https://site/ch/12"), UrlKind::Chapter);
    assert_eq!(classify_url("https://site/chapter/12"), UrlKind::Chapter);
}

#[test]
fn handle_url_keeps_url() {
    let t = handle_url("https://site/manga/foo/chapter-3");
    assert_eq!(t.kind, UrlKind::Chapter);
    assert_eq!(t.id, "https://site/manga/foo/chapter-3");
    assert_eq!(t.url, "https://site/manga/foo/chapter-3");
    assert_eq!(t.kind.host_label(), "chapter");
    assert_eq!(handle_url("https://site/manga/foo").kind.host_label(), "manga");
}

#[test]
fn search_with_empty_term() {
    assert_eq!(
        search_url("", 1),
        "https://ravenscans.com/?s=&post_type=wp-manga&page=1"
    );
}

#[test]
fn search_url_with_term_and_page() {
    assert_eq!(
        search_url("one%20piece", 12),
        "https://ravenscans.com/?s=one%20piece&post_type=wp-manga&page=12"
    );
}

#[test]
fn page_numbers_clamp_to_one() {
    assert_eq!(page_number(0), 1);
    assert_eq!(page_number(-5), 1);
    assert_eq!(page_number(i32::MIN), 1);
    assert_eq!(page_number(7), 7);
    assert_eq!(page_number(i32::MAX), 2147483647);
}

#[test]
fn listing_urls() {
    assert_eq!(
        listing_url(ListingKind::Latest, 0),
        "https://ravenscans.com/?s=&post_type=wp-manga&m_orderby=latest&page=1"
    );
    assert_eq!(
        listing_url(ListingKind::Popular, 103),
        "https://ravenscans.com/?s=&post_type=wp-manga&m_orderby=trending&page=103"
    );
}

#[test]
fn filters_choose_listing_and_term() {
    let none: Vec<Filter> = Vec::new();
    assert_eq!(listing_kind(&none), ListingKind::Latest);
    assert_eq!(search_term(&none), "");
    let filters = vec![
        Filter::Title("first".to_string()),
        Filter::Other,
        Filter::Title("Popular".to_string()),
        Filter::Other,
    ];
    assert_eq!(listing_kind(&filters), ListingKind::Popular);
    assert_eq!(search_term(&filters), "Popular");
    assert_eq!(
        listing_request(&filters, 2),
        "https://ravenscans.com/?s=&post_type=wp-manga&m_orderby=trending&page=2"
    );
    let other = vec![Filter::Title("popular".to_string())];
    assert_eq!(listing_kind(&other), ListingKind::Latest);
}

#[test]
fn base_url_is_origin() {
    assert_eq!(BASE_URL, "https://ravenscans.com");
}
