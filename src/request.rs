//! What the host asks for, turned into request URLs: the listing kind and
//! query term chosen by filters, the page number, and the endpoint URLs.

use vstd::prelude::*;
use crate::url::BASE_URL;

verus! {

/// The two catalog listings: most recently updated first, or most popular
/// first.
#[derive(Clone, Copy, Debug, PartialEq, Eq, Structural)]
pub enum ListingKind {
    Latest,
    Popular,
}

/// A filter handed over by the host: a free-text title, or any other kind,
/// which is accepted and ignored.
#[derive(Clone, Debug)]
pub enum Filter {
    Title(String),
    Other,
}

pub open spec fn is_title(f: Filter, v: Seq<char>) -> bool {
    match f {
        Filter::Title(s) => s@ == v,
        Filter::Other => false,
    }
}

/// A title filter whose value is "Popular" selects the popular listing.
pub open spec fn kind_spec(filters: Seq<Filter>) -> ListingKind {
    if exists|i: int| 0 <= i < filters.len() && is_title(#[trigger] filters[i], "Popular"@) {
        ListingKind::Popular
    } else {
        ListingKind::Latest
    }
}

/// The value of the last title filter; empty when there is none.
pub open spec fn term_spec(filters: Seq<Filter>) -> Seq<char>
    decreases filters.len(),
{
    if filters.len() == 0 {
        Seq::empty()
    } else {
        match filters.last() {
            Filter::Title(s) => s@,
            Filter::Other => term_spec(filters.drop_last()),
        }
    }
}

/// Pages are numbered from 1; a smaller request asks for the first page.
pub open spec fn page_spec(page: i32) -> nat {
    if page < 1 {
        1
    } else {
        page as nat
    }
}

pub open spec fn digit(d: nat) -> char {
    if d == 0 {
        '0'
    } else if d == 1 {
        '1'
    } else if d == 2 {
        '2'
    } else if d == 3 {
        '3'
    } else if d == 4 {
        '4'
    } else if d == 5 {
        '5'
    } else if d == 6 {
        '6'
    } else if d == 7 {
        '7'
    } else if d == 8 {
        '8'
    } else {
        '9'
    }
}

/// Decimal digits of `n`, without leading zeros.
pub open spec fn decimal(n: nat) -> Seq<char>
    decreases n,
{
    if n < 10 {
        seq![digit(n)]
    } else {
        decimal(n / 10) + seq![digit(n % 10)]
    }
}

pub open spec fn order_key(kind: ListingKind) -> Seq<char> {
    match kind {
        ListingKind::Latest => "latest"@,
        ListingKind::Popular => "trending"@,
    }
}

pub open spec fn listing_url_spec(kind: ListingKind, page: i32) -> Seq<char> {
    BASE_URL@ + "/?s=&post_type=wp-manga&m_orderby="@ + order_key(kind) + "&page="@ + decimal(
        page_spec(page),
    )
}

pub open spec fn search_url_spec(encoded_term: Seq<char>, page: i32) -> Seq<char> {
    BASE_URL@ + "/?s="@ + encoded_term + "&post_type=wp-manga&page="@ + decimal(page_spec(page))
}

pub fn listing_kind(filters: &Vec<Filter>) -> (r: ListingKind)
    ensures
        r == kind_spec(filters@),
{
    let popular = String::from_str("Popular");
    let mut i: usize = 0;
    while i < filters.len()
        invariant
            i <= filters@.len(),
            popular@ == "Popular"@,
            forall|k: int| 0 <= k < i ==> !is_title(#[trigger] filters@[k], "Popular"@),
        decreases filters@.len() - i,
    {
        match &filters[i] {
            Filter::Title(v) => {
                if *v == popular {
                    return ListingKind::Popular;
                }
            },
            Filter::Other => {},
        }
        i = i + 1;
    }
    ListingKind::Latest
}

pub fn search_term(filters: &Vec<Filter>) -> (r: String)
    ensures
        r@ == term_spec(filters@),
{
    let mut r = String::new();
    let mut i: usize = 0;
    while i < filters.len()
        invariant
            i <= filters@.len(),
            r@ == term_spec(filters@.subrange(0, i as int)),
        decreases filters@.len() - i,
    {
        proof {
            let pre = filters@.subrange(0, i + 1);
            assert(pre.drop_last() =~= filters@.subrange(0, i as int));
            assert(pre.last() == filters@[i as int]);
        }
        match &filters[i] {
            Filter::Title(v) => {
                r = v.clone();
            },
            Filter::Other => {},
        }
        i = i + 1;
    }
    proof {
        assert(filters@.subrange(0, i as int) =~= filters@);
    }
    r
}

pub fn page_number(page: i32) -> (r: u32)
    ensures
        r as nat == page_spec(page),
{
    if page < 1 {
        1
    } else {
        page as u32
    }
}

fn digit_str(d: u32) -> (r: &'static str)
    requires
        d < 10,
    ensures
        r@ == seq![digit(d as nat)],
{
    proof {
        reveal_strlit("0");
        reveal_strlit("1");
        reveal_strlit("2");
        reveal_strlit("3");
        reveal_strlit("4");
        reveal_strlit("5");
        reveal_strlit("6");
        reveal_strlit("7");
        reveal_strlit("8");
        reveal_strlit("9");
    }
    let r = if d == 0 {
        "0"
    } else if d == 1 {
        "1"
    } else if d == 2 {
        "2"
    } else if d == 3 {
        "3"
    } else if d == 4 {
        "4"
    } else if d == 5 {
        "5"
    } else if d == 6 {
        "6"
    } else if d == 7 {
        "7"
    } else if d == 8 {
        "8"
    } else {
        "9"
    };
    assert(r@ =~= seq![digit(d as nat)]);
    r
}

/// Appends the decimal digits of `n` to `out`.
pub fn append_decimal(out: &mut String, n: u32)
    ensures
        final(out)@ == old(out)@ + decimal(n as nat),
    decreases n,
{
    if n >= 10 {
        append_decimal(out, n / 10);
    }
    out.append(digit_str(n % 10));
    proof {
        if n >= 10 {
            assert(old(out)@ + decimal((n / 10) as nat) + seq![digit((n % 10) as nat)] =~= old(
                out,
            )@ + decimal(n as nat));
        } else {
            assert(n % 10 == n);
        }
    }
}

/// Request URL of one page of a listing.
pub fn listing_url(kind: ListingKind, page: i32) -> (r: String)
    ensures
        r@ == listing_url_spec(kind, page),
{
    let order = match kind {
        ListingKind::Latest => "latest",
        ListingKind::Popular => "trending",
    };
    let mut r = String::from_str(BASE_URL);
    r.append("/?s=&post_type=wp-manga&m_orderby=");
    r.append(order);
    r.append("&page=");
    append_decimal(&mut r, page_number(page));
    r
}

/// Request URL of one page of the listing that `filters` select.
pub fn listing_request(filters: &Vec<Filter>, page: i32) -> (r: String)
    ensures
        r@ == listing_url_spec(kind_spec(filters@), page),
{
    listing_url(listing_kind(filters), page)
}

/// Request URL of one page of search results; `encoded_term` is the query
/// term already URL-encoded.
pub fn search_url(encoded_term: &str, page: i32) -> (r: String)
    ensures
        r@ == search_url_spec(encoded_term@, page),
{
    let mut r = String::from_str(BASE_URL);
    r.append("/?s=");
    r.append(encoded_term);
    r.append("&post_type=wp-manga&page=");
    append_decimal(&mut r, page_number(page));
    r
}

} // verus!
