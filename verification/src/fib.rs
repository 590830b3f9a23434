//! The Fibonacci sequence that sizes the tiling squares.
//!
//! The sequence is regenerated from scratch every frame: it starts `[1, 1]`,
//! each later term is the sum of the previous two, and it stops after
//! `MAX_TERMS` terms or as soon as the next term would exceed `TERM_CEILING`
//! (that overflowing term is discarded). Every term is an exact integer, so
//! the sequence is carried as `u64` values.

use vstd::prelude::*;

verus! {

/// At most this many terms are generated per frame.
pub const MAX_TERMS: usize = 50;

/// No generated term exceeds this magnitude ceiling.
pub const TERM_CEILING: u64 = 1_000_000_000_000_000;

/// The mathematical contents of a term vector.
pub open spec fn int_terms(s: Seq<u64>) -> Seq<int> {
    s.map_values(|t: u64| t as int)
}

/// A sequence is a well-formed Fibonacci prefix: it starts `[1, 1]`, obeys
/// the recurrence, and respects the length and magnitude ceilings.
pub open spec fn fib_prefix_wf(s: Seq<int>) -> bool {
    &&& s.len() >= 2
    &&& s.len() <= MAX_TERMS
    &&& s[0] == 1
    &&& s[1] == 1
    &&& forall|i: int| 2 <= i < s.len() ==> #[trigger] s[i] == s[i - 1] + s[i - 2]
    &&& forall|i: int| 0 <= i < s.len() ==> 1 <= #[trigger] s[i] <= TERM_CEILING
}

/// A well-formed prefix is maximal: either the term ceiling stopped it or
/// the length ceiling did.
pub open spec fn fib_prefix_complete(s: Seq<int>) -> bool {
    s.len() == MAX_TERMS || s[s.len() - 1] + s[s.len() - 2] > TERM_CEILING
}

/// Generate the frame's Fibonacci sequence: the unique maximal well-formed
/// prefix.
pub fn fib_sequence() -> (terms: Vec<u64>)
    ensures
        fib_prefix_wf(int_terms(terms@)),
        fib_prefix_complete(int_terms(terms@)),
{
    let mut terms: Vec<u64> = Vec::new();
    terms.push(1);
    terms.push(1);
    while terms.len() < MAX_TERMS
            && terms[terms.len() - 1] + terms[terms.len() - 2] <= TERM_CEILING
        invariant
            2 <= terms.len() <= MAX_TERMS,
            terms[0] == 1,
            terms[1] == 1,
            forall|i: int| 2 <= i < terms.len()
                ==> #[trigger] terms[i] == terms[i - 1] + terms[i - 2],
            forall|i: int| 0 <= i < terms.len() ==> 1 <= #[trigger] terms[i] <= TERM_CEILING,
        decreases MAX_TERMS - terms.len(),
    {
        let next: u64 = terms[terms.len() - 1] + terms[terms.len() - 2];
        terms.push(next);
    }
    terms
}

/// The terms are non-decreasing: each square is at least as large as the
/// one placed before it, which is what makes the oversize early exit of the
/// per-frame loop safe.
pub proof fn lemma_fib_prefix_monotone(s: Seq<int>)
    requires
        fib_prefix_wf(s),
    ensures
        forall|i: int, j: int| 0 <= i <= j < s.len() ==> s[i] <= s[j],
{
    assert forall|i: int, j: int| 0 <= i <= j < s.len() implies s[i] <= s[j] by {
        lemma_fib_step_monotone(s, i, j);
    }
}

proof fn lemma_fib_step_monotone(s: Seq<int>, i: int, j: int)
    requires
        fib_prefix_wf(s),
        0 <= i <= j < s.len(),
    ensures
        s[i] <= s[j],
    decreases j - i,
{
    if i < j {
        lemma_fib_step_monotone(s, i, j - 1);
        if j >= 2 {
            assert(s[j] == s[j - 1] + s[j - 2]);
        }
    }
}

} // verus!
