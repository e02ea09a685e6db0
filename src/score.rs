//! Per-class scores, each held as the bit pattern of an IEEE-754
//! single-precision value, and the choice of the best one.
use vstd::prelude::*;

verus! {

/// The sign bit of a single-precision bit pattern.
pub const SIGN_BIT: u32 = 0x8000_0000;

/// The bit pattern of positive infinity; a larger magnitude is a NaN.
pub const INFINITY_BITS: u32 = 0x7f80_0000;

/// The bit pattern with the sign bit cleared.
pub open spec fn magnitude(bits: u32) -> int {
    if bits >= SIGN_BIT {
        bits - SIGN_BIT
    } else {
        bits as int
    }
}

/// Whether the pattern encodes a NaN, which has no place in the order.
pub open spec fn is_nan(bits: u32) -> bool {
    magnitude(bits) > INFINITY_BITS
}

/// An integer that orders non-NaN patterns as their values are ordered:
/// for such `a` and `b`, `a < b` as floats exactly when
/// `score_rank(a) < score_rank(b)`; both zeros rank 0.
pub open spec fn score_rank(bits: u32) -> int {
    if bits >= SIGN_BIT {
        -magnitude(bits)
    } else {
        magnitude(bits)
    }
}

/// A score vector has a maximum when it is non-empty and holds no NaN.
pub open spec fn has_maximum(scores: Seq<u32>) -> bool {
    scores.len() > 0 && forall|i: int| 0 <= i < scores.len() ==> !is_nan(#[trigger] scores[i])
}

/// `k` holds a maximal score, and every earlier score is strictly smaller.
pub open spec fn is_first_maximum(scores: Seq<u32>, k: int) -> bool {
    &&& 0 <= k < scores.len()
    &&& forall|i: int| 0 <= i < scores.len() ==> score_rank(#[trigger] scores[i]) <= score_rank(scores[k])
    &&& forall|i: int| 0 <= i < k ==> score_rank(#[trigger] scores[i]) < score_rank(scores[k])
}

/// At most one position is the first maximum.
pub proof fn lemma_first_maximum_unique(scores: Seq<u32>, j: int, k: int)
    requires
        is_first_maximum(scores, j),
        is_first_maximum(scores, k),
    ensures
        j == k,
{
    if j < k {
        assert(score_rank(scores[j]) < score_rank(scores[k]));
        assert(score_rank(scores[k]) <= score_rank(scores[j]));
    } else if k < j {
        assert(score_rank(scores[k]) < score_rank(scores[j]));
        assert(score_rank(scores[j]) <= score_rank(scores[k]));
    }
}

/// Whether `bits` is a NaN pattern.
pub fn score_is_nan(bits: u32) -> (r: bool)
    ensures
        r == is_nan(bits),
{
    let m: u32 = if bits >= SIGN_BIT { bits - SIGN_BIT } else { bits };
    m > INFINITY_BITS
}

/// Whether score `a` is strictly greater than score `b`; neither is a NaN.
pub fn score_greater(a: u32, b: u32) -> (r: bool)
    requires
        !is_nan(a),
        !is_nan(b),
    ensures
        r == (score_rank(a) > score_rank(b)),
{
    let a_neg = a >= SIGN_BIT;
    let b_neg = b >= SIGN_BIT;
    if !a_neg && !b_neg {
        a > b
    } else if a_neg && b_neg {
        a < b
    } else if a_neg {
        false
    } else {
        // `a` is non-negative and `b` negative: only two zeros are equal.
        a != 0 || b != SIGN_BIT
    }
}

/// The position of the best score: the first one of maximal value. `None`
/// when the vector is empty or holds a NaN, so that no maximum exists.
pub fn best_score(scores: &[u32]) -> (r: Option<usize>)
    ensures
        r is None <==> !has_maximum(scores@),
        r matches Some(k) ==> is_first_maximum(scores@, k as int),
{
    let n = scores.len();
    if n == 0 {
        return None;
    }
    let mut i: usize = 0;
    while i < n
        invariant
            n == scores@.len(),
            0 <= i <= n,
            forall|j: int| 0 <= j < i ==> !is_nan(#[trigger] scores@[j]),
        decreases n - i,
    {
        if score_is_nan(scores[i]) {
            return None;
        }
        i = i + 1;
    }
    let mut best: usize = 0;
    let mut i: usize = 1;
    while i < n
        invariant
            n == scores@.len(),
            has_maximum(scores@),
            0 <= best < i <= n,
            forall|j: int| 0 <= j < i ==> score_rank(#[trigger] scores@[j]) <= score_rank(scores@[best as int]),
            forall|j: int| 0 <= j < best ==> score_rank(#[trigger] scores@[j]) < score_rank(scores@[best as int]),
        decreases n - i,
    {
        if score_greater(scores[i], scores[best]) {
            best = i;
        }
        i = i + 1;
    }
    Some(best)
}

} // verus!
