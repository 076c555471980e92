//! Absolute URLs: resolving hrefs against the site origin, and the request
//! URLs of the listing and search endpoints.

use vstd::prelude::*;
use crate::text::chars_of;

verus! {

/// Origin that relative hrefs are resolved against.
pub const BASE_URL: &'static str = "https://ravenscans.com";

/// Identity header value sent with every request.
pub const USER_AGENT: &'static str = "Mozilla/5.0 (iPhone; CPU iPhone OS 16_0 like Mac OS X) AppleWebKit/605.1.15 (KHTML, like Gecko) Mobile/15E148 Aidoku";

pub open spec fn is_alpha(c: char) -> bool {
    ('a' <= c && c <= 'z') || ('A' <= c && c <= 'Z')
}

pub open spec fn is_scheme_char(c: char) -> bool {
    is_alpha(c) || ('0' <= c && c <= '9') || c == '+' || c == '-' || c == '.'
}

/// `h` starts with a scheme: a letter, then letters, digits, `+`, `-` or
/// `.`, then a colon.
pub open spec fn has_scheme(h: Seq<char>) -> bool {
    exists|i: int| scheme_colon_at(h, i)
}

/// The scheme of `h` ends with the colon at `i`.
pub open spec fn scheme_colon_at(h: Seq<char>, i: int) -> bool {
    0 < i < h.len() && h[i] == ':' && is_alpha(h[0]) && forall|j: int|
        1 <= j < i ==> is_scheme_char(#[trigger] h[j])
}

/// An href with a scheme stays as it is; any other is prefixed with the site
/// origin.
pub open spec fn absolute_url_spec(h: Seq<char>) -> Seq<char> {
    if has_scheme(h) {
        h
    } else {
        BASE_URL@ + h
    }
}

fn is_scheme_char_exec(c: char) -> (r: bool)
    ensures
        r == is_scheme_char(c),
{
    ('a' <= c && c <= 'z') || ('A' <= c && c <= 'Z') || ('0' <= c && c <= '9') || c == '+' || c
        == '-' || c == '.'
}

pub fn scheme_present(h: &str) -> (r: bool)
    ensures
        r == has_scheme(h@),
{
    let cs = chars_of(h);
    let n = cs.len();
    if n == 0 {
        return false;
    }
    let first = cs[0];
    if !(('a' <= first && first <= 'z') || ('A' <= first && first <= 'Z')) {
        return false;
    }
    let mut i: usize = 1;
    while i < n && is_scheme_char_exec(cs[i])
        invariant
            1 <= i <= n,
            n == cs@.len(),
            cs@ == h@,
            forall|j: int| 1 <= j < i ==> is_scheme_char(#[trigger] cs@[j]),
        decreases n - i,
    {
        i = i + 1;
    }
    let r = i < n && cs[i] == ':';
    proof {
        if has_scheme(h@) {
            let w = choose|w: int| scheme_colon_at(h@, w);
            if w < i {
                assert(is_scheme_char(cs@[w]));
            }
            if i < w {
                assert(is_scheme_char(h@[i as int]));
            }
        }
        if r {
            assert(scheme_colon_at(h@, i as int));
        }
    }
    r
}

/// The absolute form of an href.
pub fn resolve_url(href: &str) -> (r: String)
    ensures
        r@ == absolute_url_spec(href@),
{
    if scheme_present(href) {
        String::from_str(href)
    } else {
        String::from_str(BASE_URL).concat(href)
    }
}

/// Prefixing the origin yields an href with a scheme.
pub proof fn lemma_resolved_has_scheme(h: Seq<char>)
    ensures
        has_scheme(absolute_url_spec(h)),
{
    if !has_scheme(h) {
        reveal_strlit("https://ravenscans.com");
        let r = BASE_URL@ + h;
        assert(r[0] == 'h' && r[1] == 't' && r[2] == 't' && r[3] == 'p' && r[4] == 's' && r[5]
            == ':');
        assert forall|j: int| 1 <= j < 5 implies is_scheme_char(#[trigger] r[j]) by {}
        assert(scheme_colon_at(r, 5));
    }
}

/// Resolving is idempotent, and an href that already has a scheme is left
/// unchanged.
pub proof fn lemma_resolve_idempotent(h: Seq<char>)
    ensures
        absolute_url_spec(absolute_url_spec(h)) == absolute_url_spec(h),
        has_scheme(h) ==> absolute_url_spec(h) == h,
{
    lemma_resolved_has_scheme(h);
}

} // verus!
