//! Narrowing the scheme list by user-supplied prefix patterns.
//!
//! With no pattern set every scheme is kept. With a pattern set a scheme is
//! kept iff at least one pattern is a prefix of its name (case-sensitive, no
//! wildcards). The order of the schemes is always kept.

use vstd::prelude::*;
use crate::listing::{listed_schemes, schemes_from_listing};
use crate::text::{is_prefix, has_prefix};

verus! {

/// Some pattern of `ps` is a prefix of `s`.
pub open spec fn matches_any(ps: Seq<Seq<char>>, s: Seq<char>) -> bool {
    exists|j: int| 0 <= j < ps.len() && is_prefix(#[trigger] ps[j], s)
}

/// The schemes that a pattern set selects, in their input order.
pub open spec fn selected(
    schemes: Seq<Seq<char>>,
    patterns: Option<Seq<Seq<char>>>,
) -> Seq<Seq<char>> {
    match patterns {
        None => schemes,
        Some(ps) => schemes.filter(|s: Seq<char>| matches_any(ps, s)),
    }
}

/// `a` is `b` with some elements left out, the rest in the same order:
/// `idx` gives, for each element of `a`, a strictly increasing position in `b`.
pub open spec fn is_subsequence<A>(a: Seq<A>, b: Seq<A>) -> bool {
    exists|idx: Seq<int>|
        #![trigger idx.len()]
        {
            &&& idx.len() == a.len()
            &&& forall|i: int| 0 <= i < a.len() ==> 0 <= #[trigger] idx[i] < b.len() && b[idx[i]] == a[i]
            &&& forall|i: int, j: int| 0 <= i < j < a.len() ==> #[trigger] idx[i] < #[trigger] idx[j]
        }
}

/// Whether some pattern is a prefix of the scheme name.
pub fn matches_any_pattern(scheme: &str, patterns: &Vec<String>) -> (r: bool)
    ensures
        r == matches_any(patterns.deep_view(), scheme@),
{
    let mut j: usize = 0;
    while j < patterns.len()
        invariant
            j <= patterns.len(),
            forall|k: int| 0 <= k < j ==> !is_prefix(#[trigger] patterns.deep_view()[k], scheme@),
        decreases patterns.len() - j,
    {
        if has_prefix(scheme, patterns[j].as_str()) {
            assert(is_prefix(patterns.deep_view()[j as int], scheme@));
            return true;
        }
        j = j + 1;
    }
    false
}

/// The schemes that the pattern set selects, in their input order;
/// all of them when there is no pattern set.
pub fn filter_schemes(schemes: &Vec<String>, patterns: &Option<Vec<String>>) -> (r: Vec<String>)
    ensures
        r.deep_view() == selected(schemes.deep_view(), patterns.deep_view()),
{
    let mut out: Vec<String> = Vec::new();
    let mut i: usize = 0;
    while i < schemes.len()
        invariant
            i <= schemes.len(),
            out.deep_view() == selected(schemes.deep_view().take(i as int), patterns.deep_view()),
        decreases schemes.len() - i,
    {
        proof {
            reveal(Seq::filter);
        }
        let ghost before = out.deep_view();
        let ghost taken = schemes.deep_view().take(i as int + 1);
        assert(taken.drop_last() =~= schemes.deep_view().take(i as int));
        assert(taken.last() == schemes[i as int]@);
        let keep = match patterns {
            None => true,
            Some(ps) => matches_any_pattern(schemes[i].as_str(), ps),
        };
        if keep {
            out.push(schemes[i].clone());
            assert(out.deep_view() =~= before.push(schemes[i as int]@));
        }
        i = i + 1;
    }
    assert(schemes.deep_view().take(schemes.len() as int) =~= schemes.deep_view());
    out
}

/// The schemes to build for a run: those named by the listing lines, narrowed
/// by the pattern set, in listing order.
pub fn schemes_to_build(listing: &Vec<String>, patterns: &Option<Vec<String>>) -> (r: Vec<String>)
    ensures
        r.deep_view() == selected(listed_schemes(listing.deep_view()), patterns.deep_view()),
{
    let all = schemes_from_listing(listing);
    filter_schemes(&all, patterns)
}

proof fn lemma_filter_is_subsequence<A>(b: Seq<A>, p: spec_fn(A) -> bool)
    ensures
        is_subsequence(b.filter(p), b),
    decreases b.len(),
{
    reveal(Seq::filter);
    if b.len() == 0 {
        let idx = Seq::<int>::empty();
        assert(idx.len() == b.filter(p).len());
    } else {
        let rest = b.drop_last();
        lemma_filter_is_subsequence(rest, p);
        let sub = rest.filter(p);
        let idx = choose|idx: Seq<int>|
            #![trigger idx.len()]
            {
                &&& idx.len() == sub.len()
                &&& forall|i: int| 0 <= i < sub.len() ==> 0 <= #[trigger] idx[i] < rest.len() && rest[idx[i]] == sub[i]
                &&& forall|i: int, j: int| 0 <= i < j < sub.len() ==> #[trigger] idx[i] < #[trigger] idx[j]
            };
        if p(b.last()) {
            let idx2 = idx.push(b.len() - 1);
            let a = b.filter(p);
            assert(a == sub.push(b.last()));
            assert forall|i: int| 0 <= i < a.len() implies 0 <= #[trigger] idx2[i] < b.len() && b[idx2[i]] == a[i] by {
                if i < sub.len() {
                    assert(idx2[i] == idx[i]);
                }
            }
            assert forall|i: int, j: int| 0 <= i < j < a.len() implies #[trigger] idx2[i] < #[trigger] idx2[j] by {
                if j < sub.len() {
                    assert(idx2[i] == idx[i] && idx2[j] == idx[j]);
                } else {
                    assert(idx2[i] == idx[i]);
                }
            }
            assert(idx2.len() == a.len());
        } else {
            assert(b.filter(p) == sub);
            assert forall|i: int| 0 <= i < sub.len() implies 0 <= #[trigger] idx[i] < b.len() && b[idx[i]] == sub[i] by {
                assert(rest[idx[i]] == b[idx[i]]);
            }
            assert(idx.len() == sub.len());
        }
    }
}

/// Selecting schemes never adds or reorders any: the result is a subsequence
/// of the input, so it is no longer than the input, and with no pattern set
/// the input comes back unchanged.
pub proof fn lemma_selection_keeps_order(schemes: Seq<Seq<char>>, patterns: Option<Seq<Seq<char>>>)
    ensures
        is_subsequence(selected(schemes, patterns), schemes),
        selected(schemes, patterns).len() <= schemes.len(),
        selected(schemes, None) == schemes,
{
    match patterns {
        None => {
            let idx = Seq::new(schemes.len(), |i: int| i);
            assert(idx.len() == schemes.len());
        },
        Some(ps) => {
            let p = |s: Seq<char>| matches_any(ps, s);
            lemma_filter_is_subsequence(schemes, p);
            schemes.lemma_filter_len(p);
        },
    }
}

} // verus!
