//! General properties of the tolerance comparison, proved over the same spec
//! functions that `close` and `close_abs` state their results with.
use vstd::prelude::*;

use crate::compare::{all_close, pair_close};
use crate::traits::{abs_int, Float};

verus! {

/// Two equally long sequences of finite values, each pair no further apart
/// than `delta`, are close.
pub proof fn lemma_close_within_tolerance<F: Float>(x: Seq<F>, y: Seq<F>, delta: F)
    requires
        x.len() == y.len(),
        forall|i: int| 0 <= i < x.len() ==> #[trigger] x[i].spec_is_finite(),
        forall|i: int| 0 <= i < y.len() ==> #[trigger] y[i].spec_is_finite(),
        forall|i: int| 0 <= i < x.len() ==> #[trigger] x[i].spec_within(&y[i], &delta),
    ensures
        all_close(x, y, delta, false),
{
    assert forall|j: int| 0 <= j < x.len() implies #[trigger] pair_close(
        x[j],
        y[j],
        delta,
        false,
    ) by {
        assert(x[j].spec_is_finite());
        assert(y[j].spec_is_finite());
        assert(x[j].spec_within(&y[j], &delta));
    }
}

/// Two equally long sequences of finite values with one pair further apart
/// than `delta` are not close.
pub proof fn lemma_close_tolerance_exceeded<F: Float>(x: Seq<F>, y: Seq<F>, delta: F, i: int)
    requires
        x.len() == y.len(),
        forall|k: int| 0 <= k < x.len() ==> #[trigger] x[k].spec_is_finite(),
        forall|k: int| 0 <= k < y.len() ==> #[trigger] y[k].spec_is_finite(),
        0 <= i < x.len(),
        !x[i].spec_within(&y[i], &delta),
    ensures
        !all_close(x, y, delta, false),
{
    assert(x[i].spec_is_finite() && y[i].spec_is_finite());
    assert(!pair_close(x[i], y[i], delta, false));
}

/// A sequence of integers is close to itself at tolerance zero.
pub proof fn lemma_close_reflexive(x: Seq<i64>)
    ensures
        all_close(x, x, 0i64, false),
{
    assert forall|j: int| 0 <= j < x.len() implies #[trigger] pair_close(
        x[j],
        x[j],
        0i64,
        false,
    ) by {
        assert(abs_int(x[j] - x[j]) == 0);
    }
}

/// Two empty sequences are close at any tolerance, under either policy.
pub proof fn lemma_close_empty<F: Float>(delta: F, by_magnitude: bool)
    ensures
        all_close(Seq::<F>::empty(), Seq::<F>::empty(), delta, by_magnitude),
{
}

/// Sequences of different lengths are never close, whatever their values
/// and the tolerance.
pub proof fn lemma_close_length_mismatch<F: Float>(
    x: Seq<F>,
    y: Seq<F>,
    delta: F,
    by_magnitude: bool,
)
    requires
        x.len() != y.len(),
    ensures
        !all_close(x, y, delta, by_magnitude),
{
}

} // verus!
