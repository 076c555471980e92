//! Publication status of a work, read from the free text a page gives for it.

use vstd::prelude::*;
use crate::text::{contains_folded, contains_ignoring_case, fold};

verus! {

#[derive(Clone, Copy, Debug, PartialEq, Eq, Structural)]
pub enum Status {
    Ongoing,
    Completed,
    Unknown,
}

/// "ongoing" anywhere in the text, ignoring case, means ongoing; otherwise
/// "complete" (which "completed" contains) means completed; anything else is
/// unknown.
pub open spec fn status_of(raw: Seq<char>) -> Status {
    if contains_folded(raw, "ongoing"@) {
        Status::Ongoing
    } else if contains_folded(raw, "complete"@) {
        Status::Completed
    } else {
        Status::Unknown
    }
}

/// `a` and `b` are the same text but for the case of ASCII letters.
pub open spec fn same_but_case(a: Seq<char>, b: Seq<char>) -> bool {
    a.len() == b.len() && forall|i: int| 0 <= i < a.len() ==> fold(#[trigger] a[i]) == fold(b[i])
}

pub fn classify_status(raw: &str) -> (r: Status)
    ensures
        r == status_of(raw@),
{
    if contains_ignoring_case(raw, "ongoing") {
        Status::Ongoing
    } else if contains_ignoring_case(raw, "completed") || contains_ignoring_case(raw, "complete") {
        proof {
            reveal_strlit("completed");
            reveal_strlit("complete");
            assert("complete"@ =~= "completed"@.subrange(0, 8));
            lemma_longer_pattern(raw@, "completed"@, "complete"@);
        }
        Status::Completed
    } else {
        Status::Unknown
    }
}

proof fn lemma_longer_pattern(s: Seq<char>, long: Seq<char>, short: Seq<char>)
    requires
        short.len() <= long.len(),
        short == long.subrange(0, short.len() as int),
    ensures
        contains_folded(s, long) ==> contains_folded(s, short),
{
    if contains_folded(s, long) {
        let k = choose|k: int| crate::text::occurs_folded_at(s, long, k);
        assert forall|j: int| 0 <= j < short.len() implies #[trigger] fold(s[k + j])
            == short[j] as int by {
            assert(short[j] == long[j]);
            assert(fold(s[k + j]) == long[j] as int);
        }
        assert(crate::text::occurs_folded_at(s, short, k));
    }
}

proof fn lemma_folded_case_blind(a: Seq<char>, b: Seq<char>, p: Seq<char>)
    requires
        same_but_case(a, b),
    ensures
        contains_folded(a, p) == contains_folded(b, p),
{
    if contains_folded(a, p) {
        let k = choose|k: int| crate::text::occurs_folded_at(a, p, k);
        assert forall|j: int| 0 <= j < p.len() implies #[trigger] fold(b[k + j]) == p[j] as int by {
            assert(fold(a[k + j]) == p[j] as int);
        }
        assert(crate::text::occurs_folded_at(b, p, k));
    }
    if contains_folded(b, p) {
        let k = choose|k: int| crate::text::occurs_folded_at(b, p, k);
        assert forall|j: int| 0 <= j < p.len() implies #[trigger] fold(a[k + j]) == p[j] as int by {
            assert(fold(b[k + j]) == p[j] as int);
        }
        assert(crate::text::occurs_folded_at(a, p, k));
    }
}

/// The status read from a text does not depend on the case of its letters:
/// two texts that differ only in the case of ASCII letters classify alike.
pub proof fn lemma_status_ignores_case(a: Seq<char>, b: Seq<char>)
    requires
        same_but_case(a, b),
    ensures
        status_of(a) == status_of(b),
{
    lemma_folded_case_blind(a, b, "ongoing"@);
    lemma_folded_case_blind(a, b, "complete"@);
}

} // verus!
