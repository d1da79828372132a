//! Exact comparison of two sequences of any comparable items, and checks on
//! the variant of an outcome.
use vstd::prelude::*;
use vstd::std_specs::cmp::PartialEqSpec;

verus! {

/// Where and how two sequences first differ.
#[derive(Debug, Clone, Copy, PartialEq, Eq, Structural)]
pub enum SeqMismatch {
    /// The left sequence stops at `index` while the right one goes on.
    LeftShort { index: usize },
    /// The right sequence stops at `index` while the left one goes on.
    RightShort { index: usize },
    /// The items at `index` are not equal.
    Differ { index: usize },
}

/// Whether the first `n` items of `l` and `r` are pairwise equal.
pub open spec fn prefix_equal<T: PartialEq>(l: Seq<T>, r: Seq<T>, n: int) -> bool {
    forall|j: int| 0 <= j < n ==> #[trigger] l[j].eq_spec(&r[j])
}

/// Whether `l` and `r` have the same length and pairwise equal items.
pub open spec fn seq_equal<T: PartialEq>(l: Seq<T>, r: Seq<T>) -> bool {
    l.len() == r.len() && prefix_equal(l, r, l.len() as int)
}

/// The shorter of two lengths.
pub open spec fn min_len(a: int, b: int) -> int {
    if a < b {
        a
    } else {
        b
    }
}

/// The outcome of walking `l` and `r` in lockstep, pinned down exactly.
pub open spec fn sequence_outcome<T: PartialEq>(
    l: Seq<T>,
    r: Seq<T>,
    res: Result<(), SeqMismatch>,
) -> bool {
    match res {
        Ok(()) => seq_equal(l, r),
        Err(SeqMismatch::Differ { index }) => {
            &&& index < min_len(l.len() as int, r.len() as int)
            &&& !l[index as int].eq_spec(&r[index as int])
            &&& prefix_equal(l, r, index as int)
        },
        Err(SeqMismatch::LeftShort { index }) => {
            &&& l.len() < r.len()
            &&& index == l.len()
            &&& prefix_equal(l, r, l.len() as int)
        },
        Err(SeqMismatch::RightShort { index }) => {
            &&& r.len() < l.len()
            &&& index == r.len()
            &&& prefix_equal(l, r, r.len() as int)
        },
    }
}

/// Checks that two sequences have the same length and equal items, and
/// reports the first position at which they do not.
pub fn sequence_eq<T: PartialEq>(left: &[T], right: &[T]) -> (res: Result<(), SeqMismatch>)
    requires
        T::obeys_eq_spec(),
    ensures
        sequence_outcome(left@, right@, res),
        res is Ok <==> seq_equal(left@, right@),
{
    let mut index: usize = 0;
    loop
        invariant
            index <= left@.len(),
            index <= right@.len(),
            prefix_equal(left@, right@, index as int),
            T::obeys_eq_spec(),
        decreases left@.len() - index,
    {
        let left_done = index == left.len();
        let right_done = index == right.len();
        if left_done && right_done {
            return Ok(());
        }
        if left_done {
            return Err(SeqMismatch::LeftShort { index });
        }
        if right_done {
            return Err(SeqMismatch::RightShort { index });
        }
        if !left[index].eq(&right[index]) {
            return Err(SeqMismatch::Differ { index });
        }
        index = index + 1;
    }
}

/// Checks that two sequences are not equal: their lengths differ, or the
/// items at some position differ. Stops at the first difference.
/// Returns `false` when the sequences are in fact equal.
pub fn sequence_ne<T: PartialEq>(left: &[T], right: &[T]) -> (r: bool)
    requires
        T::obeys_eq_spec(),
    ensures
        r == !seq_equal(left@, right@),
{
    let mut index: usize = 0;
    loop
        invariant
            index <= left@.len(),
            index <= right@.len(),
            prefix_equal(left@, right@, index as int),
            T::obeys_eq_spec(),
        decreases left@.len() - index,
    {
        if index == left.len() || index == right.len() {
            return left.len() != right.len();
        }
        if !left[index].eq(&right[index]) {
            return true;
        }
        index = index + 1;
    }
}

/// Whether the outcome is a success.
pub fn result_is_ok<T, E>(r: &Result<T, E>) -> (b: bool)
    ensures
        b == r is Ok,
{
    match r {
        Ok(_) => true,
        Err(_) => false,
    }
}

/// Whether the outcome is a failure.
pub fn result_is_err<T, E>(r: &Result<T, E>) -> (b: bool)
    ensures
        b == r is Err,
{
    match r {
        Ok(_) => false,
        Err(_) => true,
    }
}

} // verus!
