//! Queries on an HTML document, parsed by `tl`, and the selector fallback
//! chains built on them.
//!
//! A document is its HTML text; an element of it is the index `tl` gives the
//! element's node. What a query returns is a function of the text and the
//! query alone, and is named below rather than spelled out.

use vstd::prelude::*;

verus! {

/// Whether `tl` accepts the text as a document.
pub uninterp spec fn parses(html: Seq<char>) -> bool;

/// Nodes of the document that match a selector, in document order.
pub uninterp spec fn document_matches(html: Seq<char>, selector: Seq<char>) -> Seq<u32>;

/// Nodes below an element that match a selector, in document order.
pub uninterp spec fn element_matches(html: Seq<char>, node: u32, selector: Seq<char>) -> Seq<u32>;

/// Text content of a node, markup left out.
pub uninterp spec fn text_of(html: Seq<char>, node: u32) -> Seq<char>;

/// Value of a node's attribute: absent when the node has no such attribute,
/// empty when the attribute stands without a value.
pub uninterp spec fn attribute_of(html: Seq<char>, node: u32, key: Seq<char>) -> Option<
    Seq<char>,
>;

/// Relies on `tl::parse`: it fails only on input too long for its indices.
#[verifier::external_body]
pub fn document_parses(html: &str) -> (r: bool)
    ensures
        r == parses(html@),
{
    tl::parse(html, tl::ParserOptions::default()).is_ok()
}

/// Relies on `tl::VDom::query_selector`: the handles of the matching nodes,
/// in document order.
#[verifier::external_body]
fn query_document(html: &str, selector: &str) -> (r: Vec<u32>)
    ensures
        r@ == document_matches(html@, selector@),
{
    match tl::parse(html, tl::ParserOptions::default()) {
        Ok(dom) => match dom.query_selector(selector) {
            Some(found) => found.map(|h| h.get_inner()).collect(),
            None => Vec::new(),
        },
        Err(_) => Vec::new(),
    }
}

/// Relies on `tl::HTMLTag::query_selector`: the handles of the matching nodes
/// below the element, in document order.
#[verifier::external_body]
fn query_element(html: &str, node: u32, selector: &str) -> (r: Vec<u32>)
    ensures
        r@ == element_matches(html@, node, selector@),
{
    let dom = match tl::parse(html, tl::ParserOptions::default()) {
        Ok(dom) => dom,
        Err(_) => return Vec::new(),
    };
    let parser = dom.parser();
    match tl::NodeHandle::new(node).get(parser).and_then(|n| n.as_tag()) {
        Some(tag) => match tag.query_selector(parser, selector) {
            Some(found) => found.map(|h| h.get_inner()).collect(),
            None => Vec::new(),
        },
        None => Vec::new(),
    }
}

/// Relies on `tl::Node::inner_text`: the node's text without markup.
#[verifier::external_body]
pub fn node_text(html: &str, node: u32) -> (r: String)
    ensures
        r@ == text_of(html@, node),
{
    let dom = match tl::parse(html, tl::ParserOptions::default()) {
        Ok(dom) => dom,
        Err(_) => return String::new(),
    };
    let parser = dom.parser();
    match tl::NodeHandle::new(node).get(parser) {
        Some(n) => n.inner_text(parser).into_owned(),
        None => String::new(),
    }
}

/// Relies on `tl::Attributes::get`: the value of one attribute of an element.
#[verifier::external_body]
pub fn node_attribute(html: &str, node: u32, key: &str) -> (r: Option<String>)
    ensures
        r matches Some(v) ==> attribute_of(html@, node, key@) == Some(v@),
        r is None ==> attribute_of(html@, node, key@) is None,
{
    let dom = match tl::parse(html, tl::ParserOptions::default()) {
        Ok(dom) => dom,
        Err(_) => return None,
    };
    let parser = dom.parser();
    let tag = tl::NodeHandle::new(node).get(parser)?.as_tag()?;
    match tag.attributes().get(key)? {
        Some(value) => Some(value.as_utf8_str().into_owned()),
        None => Some(String::new()),
    }
}

/// Why a document yielded nothing: it could not be parsed.
#[derive(Clone, Copy, Debug, PartialEq, Eq, Structural)]
pub enum ExtractError {
    Parse,
}

/// Where a query looks: the whole document, or below one element.
#[derive(Clone, Copy, Debug, PartialEq, Eq, Structural)]
pub enum Scope {
    Document,
    Element(u32),
}

pub open spec fn matches_in(html: Seq<char>, scope: Scope, selector: Seq<char>) -> Seq<u32> {
    match scope {
        Scope::Document => document_matches(html, selector),
        Scope::Element(n) => element_matches(html, n, selector),
    }
}

pub fn select(html: &str, scope: Scope, selector: &str) -> (r: Vec<u32>)
    ensures
        r@ == matches_in(html@, scope, selector@),
{
    match scope {
        Scope::Document => query_document(html, selector),
        Scope::Element(n) => query_element(html, n, selector),
    }
}

/// Alternative selectors for one extraction target, most preferred first.
#[derive(Clone, Debug)]
pub struct SelectorSet {
    pub alternatives: Vec<String>,
}

impl SelectorSet {
    pub open spec fn alts(&self) -> Seq<Seq<char>> {
        self.alternatives@.map_values(|s: String| s@)
    }

    /// A selector set trying `alternatives` in the order given.
    pub fn of(alternatives: &[&str]) -> (r: SelectorSet)
        ensures
            r.alts() == alternatives@.map_values(|s: &str| s@),
    {
        let mut v: Vec<String> = Vec::new();
        let mut i: usize = 0;
        while i < alternatives.len()
            invariant
                i <= alternatives@.len(),
                v@.len() == i,
                forall|k: int| 0 <= k < i ==> #[trigger] v@[k]@ == alternatives@[k]@,
            decreases alternatives@.len() - i,
        {
            v.push(String::from_str(alternatives[i]));
            i = i + 1;
        }
        let r = SelectorSet { alternatives: v };
        assert(r.alts() =~= alternatives@.map_values(|s: &str| s@));
        r
    }
}

/// Parts of a selector separated by spaces, and the part still being read,
/// for the text `s` read so far.
pub open spec fn split_state(s: Seq<char>) -> (Seq<Seq<char>>, Seq<char>)
    decreases s.len(),
{
    if s.len() == 0 {
        (Seq::empty(), Seq::empty())
    } else {
        let (parts, cur) = split_state(s.drop_last());
        if s.last() == ' ' {
            if cur.len() > 0 {
                (parts.push(cur), Seq::empty())
            } else {
                (parts, Seq::empty())
            }
        } else {
            (parts, cur.push(s.last()))
        }
    }
}

/// The space-separated parts of a selector, in order: `"ul.main .lch a"` is
/// an `a` below a `.lch` below a `ul.main`.
pub open spec fn split_parts(s: Seq<char>) -> Seq<Seq<char>> {
    let (parts, cur) = split_state(s);
    if cur.len() > 0 {
        parts.push(cur)
    } else {
        parts
    }
}

/// Matches of the parts from the `k`-th on: the last part's matches below
/// each match of the part before, and so on, in the order of the outer
/// matches.
pub open spec fn chain(html: Seq<char>, scope: Scope, path: Seq<Seq<char>>, k: int) -> Seq<u32>
    decreases path.len() - k, 0int,
{
    if k < 0 || k >= path.len() {
        Seq::empty()
    } else if k + 1 == path.len() {
        matches_in(html, scope, path[k])
    } else {
        descend(html, matches_in(html, scope, path[k]), path, k + 1)
    }
}

pub open spec fn descend(html: Seq<char>, outer: Seq<u32>, path: Seq<Seq<char>>, k: int) -> Seq<
    u32,
>
    decreases path.len() - k, outer.len(),
{
    if k < 0 || k > path.len() || outer.len() == 0 {
        Seq::empty()
    } else {
        descend(html, outer.drop_last(), path, k) + chain(html, Scope::Element(outer.last()), path, k)
    }
}

/// `s` with each repeated element after its first occurrence left out.
pub open spec fn distinct(s: Seq<u32>) -> Seq<u32>
    decreases s.len(),
{
    if s.len() == 0 {
        Seq::empty()
    } else {
        let before = distinct(s.drop_last());
        if before.contains(s.last()) {
            before
        } else {
            before.push(s.last())
        }
    }
}

/// An element found below two nested matches of an outer part counts once.
pub open spec fn selector_matches(html: Seq<char>, scope: Scope, selector: Seq<char>) -> Seq<u32> {
    distinct(chain(html, scope, split_parts(selector), 0))
}

fn includes(v: &Vec<u32>, x: u32) -> (r: bool)
    ensures
        r == v@.contains(x),
{
    let mut i: usize = 0;
    while i < v.len()
        invariant
            i <= v@.len(),
            forall|k: int| 0 <= k < i ==> v@[k] != x,
        decreases v@.len() - i,
    {
        if v[i] == x {
            return true;
        }
        i = i + 1;
    }
    false
}

fn dedup(v: &Vec<u32>) -> (r: Vec<u32>)
    ensures
        r@ == distinct(v@),
{
    let mut out: Vec<u32> = Vec::new();
    let mut i: usize = 0;
    while i < v.len()
        invariant
            i <= v@.len(),
            out@ == distinct(v@.subrange(0, i as int)),
        decreases v@.len() - i,
    {
        proof {
            let next = v@.subrange(0, i + 1);
            assert(next.drop_last() =~= v@.subrange(0, i as int));
            assert(next.last() == v@[i as int]);
        }
        if !includes(&out, v[i]) {
            out.push(v[i]);
        }
        i = i + 1;
    }
    proof {
        assert(v@.subrange(0, i as int) =~= v@);
    }
    out
}

pub open spec fn strings_view(v: Seq<String>) -> Seq<Seq<char>> {
    v.map_values(|s: String| s@)
}

/// The space-separated parts of a selector.
pub fn split_selector(selector: &str) -> (r: Vec<String>)
    ensures
        strings_view(r@) == split_parts(selector@),
{
    let cs = crate::text::chars_of(selector);
    let n = cs.len();
    let mut parts: Vec<String> = Vec::new();
    let mut start: usize = 0;
    let mut i: usize = 0;
    while i < n
        invariant
            n == cs@.len(),
            cs@ == selector@,
            start <= i <= n,
            split_state(selector@.subrange(0, i as int)) == (
                strings_view(parts@),
                selector@.subrange(start as int, i as int),
            ),
        decreases n - i,
    {
        proof {
            let next = selector@.subrange(0, i + 1);
            assert(next.drop_last() =~= selector@.subrange(0, i as int));
            assert(next.last() == selector@[i as int]);
        }
        if cs[i] == ' ' {
            if start < i {
                let ghost before = parts@;
                parts.push(String::from_str(selector.substring_char(start, i)));
                proof {
                    assert(strings_view(parts@) =~= strings_view(before).push(
                        selector@.subrange(start as int, i as int),
                    ));
                }
            }
            start = i + 1;
            proof {
                assert(selector@.subrange(start as int, i + 1) =~= Seq::<char>::empty());
            }
        } else {
            proof {
                assert(selector@.subrange(start as int, i as int).push(selector@[i as int])
                    =~= selector@.subrange(start as int, i + 1));
            }
        }
        i = i + 1;
    }
    proof {
        assert(selector@.subrange(0, n as int) =~= selector@);
    }
    if start < n {
        let ghost before = parts@;
        parts.push(String::from_str(selector.substring_char(start, n)));
        proof {
            assert(strings_view(parts@) =~= strings_view(before).push(
                selector@.subrange(start as int, n as int),
            ));
        }
    }
    parts
}

fn chain_exec(html: &str, scope: Scope, path: &Vec<String>, k: usize) -> (r: Vec<u32>)
    requires
        k <= path@.len(),
    ensures
        r@ == chain(html@, scope, strings_view(path@), k as int),
    decreases path@.len() - k,
{
    if k >= path.len() {
        return Vec::new();
    }
    let found = select(html, scope, path[k].as_str());
    if k + 1 == path.len() {
        return found;
    }
    let ghost pv = strings_view(path@);
    let n = path.len();
    let mut out: Vec<u32> = Vec::new();
    let mut i: usize = 0;
    while i < found.len()
        invariant
            i <= found@.len(),
            n == path@.len(),
            k + 1 < n,
            pv == strings_view(path@),
            out@ == descend(html@, found@.subrange(0, i as int), pv, k + 1),
        decreases found@.len() - i,
    {
        proof {
            let next = found@.subrange(0, i + 1);
            assert(next.drop_last() =~= found@.subrange(0, i as int));
            assert(next.last() == found@[i as int]);
        }
        let mut inner = chain_exec(html, Scope::Element(found[i]), path, k + 1);
        out.append(&mut inner);
        i = i + 1;
    }
    proof {
        assert(found@.subrange(0, i as int) =~= found@);
    }
    out
}

/// Nodes in `scope` that match a selector whose parts may be separated by
/// spaces (descendant combinators), each part being read by `tl`.
pub fn select_path(html: &str, scope: Scope, selector: &str) -> (r: Vec<u32>)
    ensures
        r@ == selector_matches(html@, scope, selector@),
{
    let path = split_selector(selector);
    dedup(&chain_exec(html, scope, &path, 0))
}

/// The matches of the first alternative, from the `i`-th on, that matches
/// anything; empty when none does.
pub open spec fn resolve_from(html: Seq<char>, scope: Scope, alts: Seq<Seq<char>>, i: int) -> Seq<
    u32,
>
    decreases alts.len() - i,
{
    if i < 0 || i >= alts.len() {
        Seq::empty()
    } else if selector_matches(html, scope, alts[i]).len() > 0 {
        selector_matches(html, scope, alts[i])
    } else {
        resolve_from(html, scope, alts, i + 1)
    }
}

pub open spec fn resolve_spec(html: Seq<char>, scope: Scope, set: SelectorSet) -> Seq<u32> {
    resolve_from(html, scope, set.alts(), 0)
}

pub open spec fn first_of(s: Seq<u32>) -> Option<u32> {
    if s.len() > 0 {
        Some(s[0])
    } else {
        None
    }
}

/// The matches of the first alternative of `set` that matches anything in
/// `scope`; empty when none does, which is no error.
pub fn resolve(html: &str, scope: Scope, set: &SelectorSet) -> (r: Vec<u32>)
    ensures
        r@ == resolve_spec(html@, scope, *set),
{
    let mut i: usize = 0;
    while i < set.alternatives.len()
        invariant
            i <= set.alts().len(),
            resolve_from(html@, scope, set.alts(), 0) == resolve_from(
                html@,
                scope,
                set.alts(),
                i as int,
            ),
        decreases set.alts().len() - i,
    {
        let found = select_path(html, scope, set.alternatives[i].as_str());
        if found.len() > 0 {
            return found;
        }
        i = i + 1;
    }
    Vec::new()
}

/// The first match of `set` in `scope`, if any.
pub fn resolve_first(html: &str, scope: Scope, set: &SelectorSet) -> (r: Option<u32>)
    ensures
        r == first_of(resolve_spec(html@, scope, *set)),
{
    let found = resolve(html, scope, set);
    if found.len() > 0 {
        Some(found[0])
    } else {
        None
    }
}

} // verus!
