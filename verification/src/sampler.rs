//! The sampler: turning one logit row into a single token id.
//!
//! The deterministic path (`top_k <= 1`) is the arg-max of the raw logits.
//! The stochastic path sorts candidates by probability descending, keeps at
//! most `top_k`, applies the nucleus (top-p) cutoff to the sorted prefix,
//! and draws one candidate from the renormalized cumulative distribution.
//!
//! The host's numeric work — softmax, temperature reweighting, the uniform
//! draw — happens in its floating-point domain.  Every decision is taken
//! here, over order-preserving integer encodings of those values: a greater
//! encoding means a greater value under the total order the host sorts by.
//! The contracts pin each stage for every encoding, so the selection logic
//! is verified for whatever numbers the host produces.

use vstd::prelude::*;
use vstd::pervasive::VecAdditionalExecFns;
use vstd::seq_lib::*;
use vstd::set_lib::*;

verus! {

/// Whether a `top_k` setting disables sampling: any value of at most one
/// forces the deterministic arg-max path, which never applies softmax.
pub fn sampling_disabled(top_k: usize) -> (r: bool)
    ensures
        r == (top_k <= 1),
{
    top_k <= 1
}

/// `r` is the first index of the maximum of `w`: it holds the greatest
/// weight, and every earlier index holds a strictly smaller one.
pub open spec fn spec_is_first_max(w: Seq<u64>, r: int) -> bool {
    &&& 0 <= r < w.len()
    &&& forall|j: int| 0 <= j < w.len() ==> w[j] <= w[r]
    &&& forall|j: int| 0 <= j < r ==> w[j] < w[r]
}

/// Arg-max with ties broken by first occurrence in index order.
pub fn argmax(w: &Vec<u64>) -> (r: usize)
    requires
        w@.len() > 0,
    ensures
        spec_is_first_max(w@, r as int),
{
    let mut best: usize = 0;
    let mut i: usize = 1;
    while i < w.len()
        invariant
            1 <= i <= w@.len(),
            best < i,
            forall|j: int| 0 <= j < i ==> w@[j] <= w@[best as int],
            forall|j: int| 0 <= j < best ==> w@[j] < w@[best as int],
        decreases w@.len() - i,
    {
        if w[i] > w[best] {
            best = i;
        }
        i += 1;
    }
    best
}

/// Law: the first-maximum index is unique, so the deterministic path is
/// reproducible — repeated calls on identical logits pick the same token.
pub proof fn lemma_first_max_unique(w: Seq<u64>, r1: int, r2: int)
    requires
        spec_is_first_max(w, r1),
        spec_is_first_max(w, r2),
    ensures
        r1 == r2,
{
    if r1 < r2 {
        assert(w[r1] < w[r2]);
    }
    if r2 < r1 {
        assert(w[r2] < w[r1]);
    }
}

/// Deterministic sampling path: with `top_k <= 1` the sampler never
/// applies softmax and returns the arg-max token id, ties broken toward
/// the lowest index.
pub fn argmax_token(logits: &Vec<u64>) -> (t: u16)
    requires
        0 < logits@.len() <= 0x1_0000,
    ensures
        spec_is_first_max(logits@, t as int),
{
    let r = argmax(logits);
    r as u16
}

/// Sorts the candidate indices `0..w.len()` by weight, descending.  The
/// result is a permutation: every entry indexes `w`, no entry repeats, and
/// weights never increase along it.  Candidates of equal weight may come
/// out in either order, as under an unstable sort.
pub fn sort_indices_desc(w: &Vec<u64>) -> (r: Vec<usize>)
    ensures
        r@.len() == w@.len(),
        forall|i: int| 0 <= i < r@.len() ==> (#[trigger] r@[i]) < w@.len(),
        forall|i: int, j: int| 0 <= i < j < r@.len() ==> r@[i] != r@[j],
        forall|i: int, j: int| 0 <= i < j < r@.len() ==> w@[r@[i] as int] >= w@[r@[j] as int],
        forall|k: usize| (k as int) < w@.len() ==> #[trigger] r@.contains(k),
{
    let n = w.len();
    let mut r: Vec<usize> = Vec::new();
    let mut k: usize = 0;
    while k < n
        invariant
            k <= n,
            r@.len() == k,
            forall|a: int| 0 <= a < k ==> r@[a] == a,
        decreases n - k,
    {
        r.push(k);
        k += 1;
    }
    let mut i: usize = 0;
    while i < n
        invariant
            i <= n,
            n == w@.len(),
            r@.len() == n,
            forall|a: int| 0 <= a < n ==> (#[trigger] r@[a]) < n,
            forall|a: int, b: int| 0 <= a < b < n ==> r@[a] != r@[b],
            forall|a: int, b: int| 0 <= a < b < i ==> w@[r@[a] as int] >= w@[r@[b] as int],
            forall|a: int, b: int| 0 <= a < i && i <= b < n ==> w@[r@[a] as int] >= w@[r@[b] as int],
        decreases n - i,
    {
        let mut m: usize = i;
        let mut j: usize = i + 1;
        while j < n
            invariant
                i <= m < j <= n,
                n == w@.len(),
                r@.len() == n,
                forall|a: int| 0 <= a < n ==> (#[trigger] r@[a]) < n,
                forall|a: int| i <= a < j ==> w@[r@[a] as int] <= w@[r@[m as int] as int],
            decreases n - j,
        {
            if w[r[j]] > w[r[m]] {
                m = j;
            }
            j += 1;
        }
        let vi = r[i];
        let vm = r[m];
        r.set(i, vm);
        r.set(m, vi);
        i += 1;
    }
    proof {
        assert forall|k: usize| (k as int) < w@.len() implies #[trigger] r@.contains(k) by {
            lemma_indices_complete(r@, w@.len() as int, k as int);
            let witness = choose|i: int| 0 <= i < r@.len() && #[trigger] r@[i] as int == k as int;
            assert(r@[witness] == k);
        }
    }
    r
}

/// Law (permutation): a duplicate-free index sequence of length `n` whose
/// entries all lie below `n` — what the descending sort returns — visits
/// every candidate index, so the top-k cutoff keeps exactly the `k`
/// greatest weights.
pub proof fn lemma_indices_complete(r: Seq<usize>, n: int, k: int)
    requires
        r.len() == n,
        forall|i: int| 0 <= i < r.len() ==> (#[trigger] r[i]) < n,
        forall|i: int, j: int| 0 <= i < j < r.len() ==> r[i] != r[j],
        0 <= k < n,
    ensures
        exists|i: int| 0 <= i < r.len() && #[trigger] r[i] as int == k,
{
    broadcast use vstd::set::group_set_axioms;

    let ri = r.map_values(|x: usize| x as int);
    assert(ri.no_duplicates());
    ri.unique_seq_to_set();
    if !(exists|i: int| 0 <= i < r.len() && #[trigger] r[i] as int == k) {
        let s = ri.to_set();
        let range = set_int_range(0, n);
        lemma_int_range(0, n);
        let rest = range.remove(k);
        assert(s.subset_of(rest)) by {
            assert forall|x: int| s.contains(x) implies rest.contains(x) by {
                let i = choose|i: int| 0 <= i < ri.len() && ri[i] == x;
                assert(r[i] as int == x);
                assert(x != k);
            };
        };
        lemma_len_subset(s, rest);
        assert(s.len() == n);
        assert(rest.len() == n - 1);
        assert(false);
    }
}

/// How many sorted candidates the top-k cutoff keeps: `k` of them (never
/// fewer than one), or all of them when fewer are on offer.
pub open spec fn spec_top_k_count(len: int, k: int) -> int {
    let kk = if k < 1 { 1int } else { k };
    if kk <= len {
        kk
    } else {
        len
    }
}

/// Top-k cutoff: keeps the leading `k` sorted candidates (at least one is
/// asked for even when `k` is zero; fewer come back only when the
/// vocabulary itself is smaller).
pub fn top_k_prefix(sorted: &Vec<usize>, k: usize) -> (r: Vec<usize>)
    ensures
        r@ == sorted@.take(spec_top_k_count(sorted@.len() as int, k as int)),
{
    let kk: usize = if k < 1 { 1 } else { k };
    let count: usize = if kk <= sorted.len() { kk } else { sorted.len() };
    let mut r: Vec<usize> = Vec::new();
    let mut i: usize = 0;
    while i < count
        invariant
            i <= count,
            count <= sorted@.len(),
            r@ == sorted@.take(i as int),
        decreases count - i,
    {
        r.push(sorted[i]);
        i += 1;
    }
    proof {
        assert(r@ =~= sorted@.take(spec_top_k_count(sorted@.len() as int, k as int)));
    }
    r
}

/// Where the nucleus scan stops, starting from candidate `i`: the first
/// candidate whose preceding cumulative mass already exceeds `top_p`, or
/// the candidate count if the scan never stops.
pub open spec fn spec_nucleus_stop(cum: Seq<u64>, top_p: u64, i: int) -> int
    decreases cum.len() - i,
{
    if i < 0 || i >= cum.len() {
        cum.len() as int
    } else if cum[i] > top_p {
        i
    } else {
        spec_nucleus_stop(cum, top_p, i + 1)
    }
}

/// Nucleus (top-p) cutoff over the sorted candidates.  `cum_before[i]` is
/// the cumulative probability mass of candidates `0..i` (so the first entry
/// is zero).  Scanning in sorted order, a candidate is retained while the
/// mass before it does not exceed `top_p`; the candidate that pushes the
/// mass past the threshold is itself still retained — the smallest set
/// whose mass reaches the threshold — and at least one candidate always is.
pub fn nucleus_count(cum_before: &Vec<u64>, top_p: u64) -> (r: usize)
    requires
        cum_before@.len() > 0,
        cum_before@[0] == 0,
    ensures
        r == spec_nucleus_stop(cum_before@, top_p, 0),
        1 <= r <= cum_before@.len(),
        forall|i: int| 0 <= i < r ==> cum_before@[i] <= top_p,
        r < cum_before@.len() ==> cum_before@[r as int] > top_p,
{
    let mut i: usize = 0;
    while i < cum_before.len()
        invariant
            i <= cum_before@.len(),
            cum_before@.len() > 0,
            cum_before@[0] == 0,
            forall|j: int| 0 <= j < i ==> cum_before@[j] <= top_p,
            spec_nucleus_stop(cum_before@, top_p, 0) == spec_nucleus_stop(cum_before@, top_p, i as int),
        decreases cum_before@.len() - i,
    {
        if cum_before[i] > top_p {
            return i;
        }
        i += 1;
    }
    i
}

/// Law (nucleus, concentrated distribution): when the first candidate
/// alone already carries more mass than the threshold, exactly one
/// candidate is retained.
pub proof fn lemma_nucleus_single(cum: Seq<u64>, top_p: u64)
    requires
        cum.len() >= 2,
        cum[0] == 0,
        cum[1] > top_p,
    ensures
        spec_nucleus_stop(cum, top_p, 0) == 1,
{
    assert(spec_nucleus_stop(cum, top_p, 1) == 1);
}

/// Law (nucleus, permissive threshold): when no prefix mass exceeds the
/// threshold — as with a threshold of the whole mass — every candidate
/// offered to the scan is retained.
pub proof fn lemma_nucleus_all(cum: Seq<u64>, top_p: u64)
    requires
        forall|i: int| 0 <= i < cum.len() ==> cum[i] <= top_p,
    ensures
        spec_nucleus_stop(cum, top_p, 0) == cum.len(),
{
    lemma_nucleus_all_from(cum, top_p, 0);
}

proof fn lemma_nucleus_all_from(cum: Seq<u64>, top_p: u64, i: int)
    requires
        0 <= i <= cum.len(),
        forall|j: int| 0 <= j < cum.len() ==> cum[j] <= top_p,
    ensures
        spec_nucleus_stop(cum, top_p, i) == cum.len(),
    decreases cum.len() - i,
{
    if i < cum.len() {
        lemma_nucleus_all_from(cum, top_p, i + 1);
    }
}

/// The position the draw selects, scanning from `i`: the first candidate
/// whose cumulative weight reaches the draw, or the first candidate of the
/// retained set when rounding leaves the draw above every cumulative
/// weight.
pub open spec fn spec_select(cum: Seq<u64>, draw: u64, i: int) -> int
    decreases cum.len() - i,
{
    if i < 0 || i >= cum.len() {
        0
    } else if draw <= cum[i] {
        i
    } else {
        spec_select(cum, draw, i + 1)
    }
}

/// Draws one candidate: walking the cumulative distribution in sorted
/// order, the first whose cumulative weight reaches the draw; if none
/// qualifies (a numeric edge case), the fallback is the first candidate.
/// The result always stays within the retained set.
pub fn select_index(cum: &Vec<u64>, draw: u64) -> (r: usize)
    requires
        cum@.len() > 0,
    ensures
        r == spec_select(cum@, draw, 0),
        r < cum@.len(),
        (exists|i: int| 0 <= i < cum@.len() && draw <= cum@[i])
            ==> draw <= cum@[r as int] && (forall|j: int| 0 <= j < r ==> cum@[j] < draw),
        (forall|i: int| 0 <= i < cum@.len() ==> cum@[i] < draw) ==> r == 0,
{
    let mut i: usize = 0;
    while i < cum.len()
        invariant
            i <= cum@.len(),
            forall|j: int| 0 <= j < i ==> cum@[j] < draw,
            spec_select(cum@, draw, 0) == spec_select(cum@, draw, i as int),
        decreases cum@.len() - i,
    {
        if draw <= cum[i] {
            return i;
        }
        i += 1;
    }
    0
}

/// Maps the drawn position back to a token id.  `candidates` holds the
/// retained sorted candidate indices and `cum` their cumulative
/// renormalized weights; the token returned is always below `num_vocab` —
/// the stochastic path never leaves the vocabulary.
pub fn pick_token(candidates: &Vec<usize>, cum: &Vec<u64>, draw: u64, num_vocab: usize) -> (t: u16)
    requires
        candidates@.len() == cum@.len(),
        cum@.len() > 0,
        forall|i: int| 0 <= i < candidates@.len() ==> (#[trigger] candidates@[i]) < num_vocab,
        num_vocab <= 0x1_0000,
    ensures
        (t as int) < num_vocab,
        t as int == candidates@[spec_select(cum@, draw, 0)] as int,
{
    let idx = select_index(cum, draw);
    let tok = candidates[idx];
    tok as u16
}

} // verus!
