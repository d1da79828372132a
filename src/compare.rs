//! Tolerance-aware comparison of two sequences of numbers.
//!
//! Both sequences must have the same length. Each pair of finite values must
//! lie within the tolerance (`|a - b| <= delta`, or `||a| - |b|| <= delta` for
//! the magnitude variant); a pair in which either value is not finite must be
//! equal under the type's own equality instead.
use vstd::prelude::*;

use crate::traits::{Float, FloatSeq, Floats};

verus! {

/// Why two sequences were not close.
#[derive(Debug, Clone, Copy, PartialEq, Eq, Structural)]
pub enum CloseError {
    /// The sequences have different lengths.
    LengthMismatch { left: usize, right: usize },
    /// At `index` both values are finite and further apart than the tolerance.
    ToleranceExceeded { index: usize },
    /// At `index` a value is not finite and the two values are not equal.
    NonFiniteMismatch { index: usize },
    /// At `index` the two values are not equal (exact comparison).
    ExactMismatch { index: usize },
}

/// Whether both values of a pair are finite.
pub open spec fn both_finite<F: Float>(a: F, b: F) -> bool {
    a.spec_is_finite() && b.spec_is_finite()
}

/// Whether one pair passes: within the tolerance when both are finite (on
/// magnitudes when `by_magnitude`), equal otherwise.
pub open spec fn pair_close<F: Float>(a: F, b: F, delta: F, by_magnitude: bool) -> bool {
    if both_finite(a, b) {
        if by_magnitude {
            a.spec_within_abs(&b, &delta)
        } else {
            a.spec_within(&b, &delta)
        }
    } else {
        a.spec_same(&b)
    }
}

/// Whether every pair in `x[..n]`, `y[..n]` passes.
pub open spec fn prefix_close<F: Float>(
    x: Seq<F>,
    y: Seq<F>,
    delta: F,
    by_magnitude: bool,
    n: int,
) -> bool {
    forall|j: int| 0 <= j < n ==> #[trigger] pair_close(x[j], y[j], delta, by_magnitude)
}

/// Whether `x` and `y` have equal lengths and every pair passes.
pub open spec fn all_close<F: Float>(x: Seq<F>, y: Seq<F>, delta: F, by_magnitude: bool) -> bool {
    x.len() == y.len() && prefix_close(x, y, delta, by_magnitude, x.len() as int)
}

/// Whether `i` is the first position of two equally long sequences at which
/// the pair fails.
pub open spec fn first_failure<F: Float>(
    x: Seq<F>,
    y: Seq<F>,
    delta: F,
    by_magnitude: bool,
    i: int,
) -> bool {
    &&& x.len() == y.len()
    &&& 0 <= i < x.len()
    &&& !pair_close(x[i], y[i], delta, by_magnitude)
    &&& prefix_close(x, y, delta, by_magnitude, i)
}

/// The outcome of comparing `x` with `y`, pinned down exactly.
pub open spec fn close_outcome<F: Float>(
    x: Seq<F>,
    y: Seq<F>,
    delta: F,
    by_magnitude: bool,
    r: Result<(), CloseError>,
) -> bool {
    match r {
        Ok(()) => all_close(x, y, delta, by_magnitude),
        Err(CloseError::LengthMismatch { left, right }) => x.len() != y.len() && left == x.len()
            && right == y.len(),
        Err(CloseError::ToleranceExceeded { index }) => first_failure(
            x,
            y,
            delta,
            by_magnitude,
            index as int,
        ) && both_finite(x[index as int], y[index as int]),
        Err(CloseError::NonFiniteMismatch { index }) => first_failure(
            x,
            y,
            delta,
            by_magnitude,
            index as int,
        ) && !both_finite(x[index as int], y[index as int]),
        Err(CloseError::ExactMismatch { .. }) => false,
    }
}

/// Whether the first `n` pairs are equal under the type's equality.
pub open spec fn prefix_same<F: Float>(x: Seq<F>, y: Seq<F>, n: int) -> bool {
    forall|j: int| 0 <= j < n ==> #[trigger] x[j].spec_same(&y[j])
}

/// Whether `x` and `y` have equal lengths and equal values at every position.
pub open spec fn all_same<F: Float>(x: Seq<F>, y: Seq<F>) -> bool {
    x.len() == y.len() && prefix_same(x, y, x.len() as int)
}

/// The outcome of an exact comparison of `x` with `y`, pinned down exactly.
pub open spec fn equal_outcome<F: Float>(x: Seq<F>, y: Seq<F>, r: Result<(), CloseError>) -> bool {
    match r {
        Ok(()) => all_same(x, y),
        Err(CloseError::LengthMismatch { left, right }) => x.len() != y.len() && left == x.len()
            && right == y.len(),
        Err(CloseError::ExactMismatch { index }) => {
            &&& x.len() == y.len()
            &&& index < x.len()
            &&& !x[index as int].spec_same(&y[index as int])
            &&& prefix_same(x, y, index as int)
        },
        Err(_) => false,
    }
}

/// Walks both views in lockstep; the one loop behind `close` and `close_abs`.
fn compare<F: Float>(
    x: &FloatSeq<'_, F>,
    y: &FloatSeq<'_, F>,
    delta: &F,
    by_magnitude: bool,
) -> (r: Result<(), CloseError>)
    ensures
        close_outcome(x@, y@, *delta, by_magnitude, r),
        r is Ok <==> all_close(x@, y@, *delta, by_magnitude),
{
    let n = x.len();
    let m = y.len();
    if n != m {
        return Err(CloseError::LengthMismatch { left: n, right: m });
    }
    let mut i: usize = 0;
    while i < n
        invariant
            n == x@.len(),
            n == y@.len(),
            i <= n,
            prefix_close(x@, y@, *delta, by_magnitude, i as int),
        decreases n - i,
    {
        let a = x.get(i);
        let b = y.get(i);
        if a.is_finite() && b.is_finite() {
            let ok = if by_magnitude {
                a.within_abs(b, delta)
            } else {
                a.within(b, delta)
            };
            if !ok {
                return Err(CloseError::ToleranceExceeded { index: i });
            }
        } else if !a.same(b) {
            return Err(CloseError::NonFiniteMismatch { index: i });
        }
        assert(pair_close(x@[i as int], y@[i as int], *delta, by_magnitude));
        i = i + 1;
    }
    Ok(())
}

/// Checks that the absolute difference between two quantities is at most
/// `delta`, element by element. A single value counts as a sequence of
/// length one.
pub fn close<F: Float, F1: Floats<F>, F2: Floats<F>>(
    x: F1,
    y: F2,
    delta: F,
) -> (r: Result<(), CloseError>)
    ensures
        close_outcome(x.spec_floats(), y.spec_floats(), delta, false, r),
        r is Ok <==> all_close(x.spec_floats(), y.spec_floats(), delta, false),
{
    let xs = x.floats();
    let ys = y.floats();
    compare(&xs, &ys, &delta, false)
}

/// Like `close`, but compares the magnitudes `|a|` and `|b|` of each finite
/// pair; a pair with a value that is not finite must still be equal as it is.
pub fn close_abs<F: Float, F1: Floats<F>, F2: Floats<F>>(
    x: F1,
    y: F2,
    delta: F,
) -> (r: Result<(), CloseError>)
    ensures
        close_outcome(x.spec_floats(), y.spec_floats(), delta, true, r),
        r is Ok <==> all_close(x.spec_floats(), y.spec_floats(), delta, true),
{
    let xs = x.floats();
    let ys = y.floats();
    compare(&xs, &ys, &delta, true)
}

/// Checks that two sequences have the same length and equal values at every
/// position, under the type's own equality and with no tolerance.
pub fn equal<F: Float, F1: Floats<F>, F2: Floats<F>>(x: F1, y: F2) -> (r: Result<(), CloseError>)
    ensures
        equal_outcome(x.spec_floats(), y.spec_floats(), r),
        r is Ok <==> all_same(x.spec_floats(), y.spec_floats()),
{
    let xs = x.floats();
    let ys = y.floats();
    let n = xs.len();
    let m = ys.len();
    if n != m {
        return Err(CloseError::LengthMismatch { left: n, right: m });
    }
    let mut i: usize = 0;
    while i < n
        invariant
            xs@ == x.spec_floats(),
            ys@ == y.spec_floats(),
            n == xs@.len(),
            n == ys@.len(),
            i <= n,
            prefix_same(xs@, ys@, i as int),
        decreases n - i,
    {
        if !xs.get(i).same(ys.get(i)) {
            assert(!xs@[i as int].spec_same(&ys@[i as int]));
            return Err(CloseError::ExactMismatch { index: i });
        }
        i = i + 1;
    }
    Ok(())
}

} // verus!
