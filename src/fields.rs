//! Field normalisers over document nodes: trimmed text of the first match of
//! a selector set, and the image URL of an element.

use vstd::prelude::*;
use crate::dom::{attribute_of, first_of, node_attribute, node_text, resolve_first, resolve_spec, text_of, Scope, SelectorSet};
use crate::text::{trim, trim_spec};

verus! {

pub open spec fn opt_view(o: Option<String>) -> Option<Seq<char>> {
    match o {
        Some(s) => Some(s@),
        None => None,
    }
}

pub open spec fn or_empty(o: Option<Seq<char>>) -> Seq<char> {
    match o {
        Some(s) => s,
        None => Seq::empty(),
    }
}

/// Trimmed text of the first match of `set` in `scope`; absent when nothing
/// matches.
pub open spec fn first_text_spec(html: Seq<char>, scope: Scope, set: SelectorSet) -> Option<
    Seq<char>,
> {
    match first_of(resolve_spec(html, scope, set)) {
        Some(n) => Some(trim_spec(text_of(html, n))),
        None => None,
    }
}

/// The value of attribute `key` of the first match of `set` in `scope`;
/// absent when nothing matches or the match lacks the attribute.
pub open spec fn first_attribute_spec(
    html: Seq<char>,
    scope: Scope,
    set: SelectorSet,
    key: Seq<char>,
) -> Option<Seq<char>> {
    match first_of(resolve_spec(html, scope, set)) {
        Some(n) => attribute_of(html, n, key),
        None => None,
    }
}

/// The attribute's value when it is present and not empty.
pub open spec fn filled(a: Option<Seq<char>>) -> Option<Seq<char>> {
    match a {
        Some(v) => if v.len() > 0 {
            Some(v)
        } else {
            None
        },
        None => None,
    }
}

/// The image URL of an element: the first filled one of its lazy-load
/// attribute, its alternate lazy-load attribute and its `src`.
pub open spec fn image_url_spec(html: Seq<char>, node: u32) -> Option<Seq<char>> {
    let lazy = filled(attribute_of(html, node, "data-src"@));
    let alternate = filled(attribute_of(html, node, "data-lazy-src"@));
    let plain = filled(attribute_of(html, node, "src"@));
    if lazy is Some {
        lazy
    } else if alternate is Some {
        alternate
    } else {
        plain
    }
}

/// Node text with surrounding whitespace removed; empty, not absent, when
/// the node holds no text.
pub fn trimmed_text(html: &str, node: u32) -> (r: String)
    ensures
        r@ == trim_spec(text_of(html@, node)),
{
    let t = node_text(html, node);
    trim(t.as_str())
}

pub fn first_text(html: &str, scope: Scope, set: &SelectorSet) -> (r: Option<String>)
    ensures
        opt_view(r) == first_text_spec(html@, scope, *set),
{
    match resolve_first(html, scope, set) {
        Some(n) => Some(trimmed_text(html, n)),
        None => None,
    }
}

pub fn first_attribute(html: &str, scope: Scope, set: &SelectorSet, key: &str) -> (r: Option<
    String,
>)
    ensures
        opt_view(r) == first_attribute_spec(html@, scope, *set, key@),
{
    match resolve_first(html, scope, set) {
        Some(n) => node_attribute(html, n, key),
        None => None,
    }
}

pub fn filled_attribute(html: &str, node: u32, key: &str) -> (r: Option<String>)
    ensures
        opt_view(r) == filled(attribute_of(html@, node, key@)),
{
    match node_attribute(html, node, key) {
        Some(v) => if v.as_str().unicode_len() > 0 {
            Some(v)
        } else {
            None
        },
        None => None,
    }
}

/// Image URL of an element, preferring the lazy-load attributes, since the
/// eager `src` is often a placeholder.
pub fn pick_image_url(html: &str, node: u32) -> (r: Option<String>)
    ensures
        opt_view(r) == image_url_spec(html@, node),
{
    let lazy = filled_attribute(html, node, "data-src");
    if lazy.is_some() {
        return lazy;
    }
    let alternate = filled_attribute(html, node, "data-lazy-src");
    if alternate.is_some() {
        return alternate;
    }
    filled_attribute(html, node, "src")
}

} // verus!
