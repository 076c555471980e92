//! Character-level helpers: whitespace trimming and substring search.

use vstd::prelude::*;

verus! {

/// Unicode `White_Space`, the set that `char::is_whitespace` tests.
pub open spec fn is_space(c: char) -> bool {
    let u = c as u32;
    (0x09 <= u && u <= 0x0d) || u == 0x20 || u == 0x85 || u == 0xa0 || u == 0x1680 || (0x2000
        <= u && u <= 0x200a) || u == 0x2028 || u == 0x2029 || u == 0x202f || u == 0x205f || u
        == 0x3000
}

/// ASCII letters compare without regard to case: an upper-case letter folds
/// to its lower-case code point, every other character to its own.
pub open spec fn fold(c: char) -> int {
    let u = c as int;
    if 0x41 <= u && u <= 0x5a {
        u + 32
    } else {
        u
    }
}

/// `s` with leading and trailing whitespace removed.
pub open spec fn trim_spec(s: Seq<char>) -> Seq<char> {
    let t = s.subrange(lead_len(s) as int, s.len() as int);
    t.subrange(0, t.len() - trail_len(t))
}

pub open spec fn lead_len(s: Seq<char>) -> nat
    decreases s.len(),
{
    if s.len() > 0 && is_space(s[0]) {
        1 + lead_len(s.drop_first())
    } else {
        0
    }
}

pub open spec fn trail_len(s: Seq<char>) -> nat
    decreases s.len(),
{
    if s.len() > 0 && is_space(s.last()) {
        1 + trail_len(s.drop_last())
    } else {
        0
    }
}

/// `p` occurs in `s` starting at position `k`.
pub open spec fn occurs_at(s: Seq<char>, p: Seq<char>, k: int) -> bool {
    0 <= k && k + p.len() <= s.len() && s.subrange(k, k + p.len()) == p
}

pub open spec fn contains(s: Seq<char>, p: Seq<char>) -> bool {
    exists|k: int| occurs_at(s, p, k)
}

/// `p` occurs in `s` at `k` when case is ignored; `p` is expected lower-case.
pub open spec fn occurs_folded_at(s: Seq<char>, p: Seq<char>, k: int) -> bool {
    0 <= k && k + p.len() <= s.len() && forall|j: int|
        0 <= j < p.len() ==> #[trigger] fold(s[k + j]) == p[j] as int
}

pub open spec fn contains_folded(s: Seq<char>, p: Seq<char>) -> bool {
    exists|k: int| occurs_folded_at(s, p, k)
}

pub fn is_space_char(c: char) -> (r: bool)
    ensures
        r == is_space(c),
{
    let u = c as u32;
    (0x09 <= u && u <= 0x0d) || u == 0x20 || u == 0x85 || u == 0xa0 || u == 0x1680 || (0x2000
        <= u && u <= 0x200a) || u == 0x2028 || u == 0x2029 || u == 0x202f || u == 0x205f || u
        == 0x3000
}

/// The characters of `s`, in order.
pub fn chars_of(s: &str) -> (r: Vec<char>)
    ensures
        r@ == s@,
{
    let mut r: Vec<char> = Vec::new();
    for c in it: s.chars()
        invariant
            r@ == it.seq().subrange(0, it.index() as int),
    {
        r.push(c);
    }
    r
}

proof fn lemma_lead_len(s: Seq<char>, i: int)
    requires
        0 <= i <= s.len(),
        forall|k: int| 0 <= k < i ==> is_space(#[trigger] s[k]),
        i == s.len() || !is_space(s[i]),
    ensures
        lead_len(s) == i,
        lead_len(s) <= s.len(),
    decreases i,
{
    if i > 0 {
        let t = s.drop_first();
        assert forall|k: int| 0 <= k < i - 1 implies is_space(#[trigger] t[k]) by {
            assert(t[k] == s[k + 1]);
        }
        if i - 1 < t.len() {
            assert(t[i - 1] == s[i]);
        }
        lemma_lead_len(t, i - 1);
    }
}

proof fn lemma_trail_len(t: Seq<char>, m: int)
    requires
        0 <= m <= t.len(),
        forall|k: int| m <= k < t.len() ==> is_space(#[trigger] t[k]),
        m == 0 || !is_space(t[m - 1]),
    ensures
        trail_len(t) == t.len() - m,
    decreases t.len() - m,
{
    if m < t.len() {
        let u = t.drop_last();
        assert forall|k: int| m <= k < u.len() implies is_space(#[trigger] u[k]) by {
            assert(u[k] == t[k]);
        }
        if m > 0 {
            assert(u[m - 1] == t[m - 1]);
        }
        lemma_trail_len(u, m);
    }
}

/// `s` without its leading and trailing whitespace; empty when `s` holds
/// nothing else.
pub fn trim(s: &str) -> (r: String)
    ensures
        r@ == trim_spec(s@),
{
    let cs = chars_of(s);
    let n = cs.len();
    let mut i: usize = 0;
    while i < n && is_space_char(cs[i])
        invariant
            i <= n,
            n == cs@.len(),
            cs@ == s@,
            forall|k: int| 0 <= k < i ==> is_space(#[trigger] cs@[k]),
        decreases n - i,
    {
        i = i + 1;
    }
    proof {
        lemma_lead_len(s@, i as int);
    }
    let mut j: usize = n;
    while j > i && is_space_char(cs[j - 1])
        invariant
            i <= j <= n,
            n == cs@.len(),
            cs@ == s@,
            forall|k: int| j <= k < n ==> is_space(#[trigger] cs@[k]),
        decreases j,
    {
        j = j - 1;
    }
    proof {
        let t = s@.subrange(i as int, n as int);
        assert forall|k: int| j - i <= k < t.len() implies is_space(#[trigger] t[k]) by {
            assert(t[k] == s@[k + i]);
        }
        if j > i {
            assert(t[j - i - 1] == s@[j - 1]);
        }
        lemma_trail_len(t, j - i);
        assert(t.subrange(0, (j - i) as int) =~= s@.subrange(i as int, j as int));
    }
    String::from_str(s.substring_char(i, j))
}

/// Relies on `char::to_ascii_lowercase`: ASCII upper-case letters map to
/// their lower-case forms, every other character to itself.
#[verifier::external_body]
fn ascii_lower(c: char) -> (r: char)
    ensures
        r as int == fold(c),
{
    c.to_ascii_lowercase()
}

/// Whether `p` occurs in `s` at position `k`.
fn occurs_at_exec(s: &Vec<char>, p: &Vec<char>, k: usize, folded: bool) -> (r: bool)
    requires
        k + p@.len() <= s@.len(),
    ensures
        !folded ==> (r == occurs_at(s@, p@, k as int)),
        folded ==> (r == occurs_folded_at(s@, p@, k as int)),
{
    let n = s.len();
    let mut j: usize = 0;
    while j < p.len()
        invariant
            n == s@.len(),
            j <= p@.len(),
            k + p@.len() <= s@.len(),
            forall|i: int| 0 <= i < j ==> (!folded ==> s@[k + i] == p@[i]),
            forall|i: int| 0 <= i < j ==> (folded ==> #[trigger] fold(s@[k + i]) == p@[i] as int),
        decreases p@.len() - j,
    {
        let c = s[k + j];
        let same = if folded {
            let f = ascii_lower(c);
            proof {
                assert(f == p@[j as int] <==> f as int == p@[j as int] as int);
            }
            f == p[j]
        } else {
            c == p[j]
        };
        if !same {
            proof {
                if !folded {
                    assert(s@.subrange(k as int, k + p@.len())[j as int] == s@[k + j]);
                } else {
                    assert(fold(s@[k + j]) != p@[j as int] as int);
                }
            }
            return false;
        }
        j = j + 1;
    }
    proof {
        if !folded {
            assert(s@.subrange(k as int, k + p@.len()) =~= p@);
        }
    }
    true
}

pub fn contains_exec(s: &Vec<char>, p: &Vec<char>, folded: bool) -> (r: bool)
    ensures
        !folded ==> (r == contains(s@, p@)),
        folded ==> (r == contains_folded(s@, p@)),
{
    if p.len() > s.len() {
        return false;
    }
    if p.len() == 0 {
        assert(s@.subrange(0, 0) =~= p@);
        assert(occurs_at(s@, p@, 0));
        assert(occurs_folded_at(s@, p@, 0));
        return true;
    }
    let end = s.len() - p.len() + 1;
    let mut k: usize = 0;
    while k < end
        invariant
            end == s@.len() - p@.len() + 1,
            k <= end,
            forall|i: int| 0 <= i < k ==> (!folded ==> !occurs_at(s@, p@, i)),
            forall|i: int| 0 <= i < k ==> (folded ==> !occurs_folded_at(s@, p@, i)),
        decreases end - k,
    {
        if occurs_at_exec(s, p, k, folded) {
            return true;
        }
        k = k + 1;
    }
    proof {
        assert forall|i: int| !folded implies !occurs_at(s@, p@, i) by {
            if 0 <= i && i + p@.len() <= s@.len() {
                assert(i < k);
            }
        }
        assert forall|i: int| folded implies !occurs_folded_at(s@, p@, i) by {
            if 0 <= i && i + p@.len() <= s@.len() {
                assert(i < k);
            }
        }
    }
    false
}

/// Whether `p` occurs in `s`.
pub fn contains_str(s: &str, p: &str) -> (r: bool)
    ensures
        r == contains(s@, p@),
{
    contains_exec(&chars_of(s), &chars_of(p), false)
}

/// Whether `p` occurs in `s` when ASCII letters of `s` are taken in lower case.
pub fn contains_ignoring_case(s: &str, p: &str) -> (r: bool)
    ensures
        r == contains_folded(s@, p@),
{
    contains_exec(&chars_of(s), &chars_of(p), true)
}

} // verus!
