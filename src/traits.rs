//! The capabilities that the comparisons rely on: a number with a finiteness
//! test and a distance test, and a read-only view of one or more numbers.
use vstd::prelude::*;

verus! {

/// The absolute value of a mathematical integer.
pub open spec fn abs_int(i: int) -> int {
    if i < 0 {
        -i
    } else {
        i
    }
}

/// A number that the comparisons can work on.
///
/// The spec functions describe the type's own arithmetic: `spec_within`
/// says whether `|self - other| <= delta` under that arithmetic, and
/// `spec_same` what the type's equality operator answers. An implementation
/// defines them; the default bodies leave them unspecified, so that nothing
/// is known of a type that defines only the executable methods.
pub trait Float: Sized {
    /// Whether the value is finite (neither NaN nor an infinity).
    open spec fn spec_is_finite(&self) -> bool {
        arbitrary()
    }

    /// Whether `|self - other| <= delta`.
    open spec fn spec_within(&self, other: &Self, delta: &Self) -> bool {
        arbitrary()
    }

    /// Whether `||self| - |other|| <= delta`.
    open spec fn spec_within_abs(&self, other: &Self, delta: &Self) -> bool {
        arbitrary()
    }

    /// Whether the type's equality operator holds `self` and `other` equal.
    open spec fn spec_same(&self, other: &Self) -> bool {
        arbitrary()
    }

    fn is_finite(&self) -> (r: bool)
        ensures
            r == self.spec_is_finite(),
    ;

    fn within(&self, other: &Self, delta: &Self) -> (r: bool)
        ensures
            r == self.spec_within(other, delta),
    ;

    fn within_abs(&self, other: &Self, delta: &Self) -> (r: bool)
        ensures
            r == self.spec_within_abs(other, delta),
    ;

    fn same(&self, other: &Self) -> (r: bool)
        ensures
            r == self.spec_same(other),
    ;
}

impl Float for i64 {
    /// Every integer is finite.
    open spec fn spec_is_finite(&self) -> bool {
        true
    }

    open spec fn spec_within(&self, other: &i64, delta: &i64) -> bool {
        abs_int(*self - *other) <= *delta
    }

    open spec fn spec_within_abs(&self, other: &i64, delta: &i64) -> bool {
        abs_int(abs_int(*self as int) - abs_int(*other as int)) <= *delta
    }

    open spec fn spec_same(&self, other: &i64) -> bool {
        *self == *other
    }

    fn is_finite(&self) -> (r: bool) {
        true
    }

    fn within(&self, other: &i64, delta: &i64) -> (r: bool) {
        let d: i128 = *self as i128 - *other as i128;
        let m: i128 = if d < 0 { -d } else { d };
        m <= *delta as i128
    }

    fn within_abs(&self, other: &i64, delta: &i64) -> (r: bool) {
        let a: i128 = if *self < 0 { -(*self as i128) } else { *self as i128 };
        let b: i128 = if *other < 0 { -(*other as i128) } else { *other as i128 };
        let d: i128 = a - b;
        let m: i128 = if d < 0 { -d } else { d };
        m <= *delta as i128
    }

    fn same(&self, other: &i64) -> (r: bool) {
        *self == *other
    }
}

impl Float for i32 {
    /// Every integer is finite.
    open spec fn spec_is_finite(&self) -> bool {
        true
    }

    open spec fn spec_within(&self, other: &i32, delta: &i32) -> bool {
        abs_int(*self - *other) <= *delta
    }

    open spec fn spec_within_abs(&self, other: &i32, delta: &i32) -> bool {
        abs_int(abs_int(*self as int) - abs_int(*other as int)) <= *delta
    }

    open spec fn spec_same(&self, other: &i32) -> bool {
        *self == *other
    }

    fn is_finite(&self) -> (r: bool) {
        true
    }

    fn within(&self, other: &i32, delta: &i32) -> (r: bool) {
        let d: i64 = *self as i64 - *other as i64;
        let m: i64 = if d < 0 { -d } else { d };
        m <= *delta as i64
    }

    fn within_abs(&self, other: &i32, delta: &i32) -> (r: bool) {
        let a: i64 = if *self < 0 { -(*self as i64) } else { *self as i64 };
        let b: i64 = if *other < 0 { -(*other as i64) } else { *other as i64 };
        let d: i64 = a - b;
        let m: i64 = if d < 0 { -d } else { d };
        m <= *delta as i64
    }

    fn same(&self, other: &i32) -> (r: bool) {
        *self == *other
    }
}

/// A read-only view of one or more numbers: either a single borrowed value
/// or a borrowed slice. Nothing is copied.
pub enum FloatSeq<'a, T> {
    One(&'a T),
    Many(&'a [T]),
}

impl<'a, T> View for FloatSeq<'a, T> {
    type V = Seq<T>;

    open spec fn view(&self) -> Seq<T> {
        match self {
            FloatSeq::One(v) => seq![**v],
            FloatSeq::Many(s) => s@,
        }
    }
}

impl<'a, T> FloatSeq<'a, T> {
    /// The number of values in the view: 1 for a single value.
    pub fn len(&self) -> (n: usize)
        ensures
            n == self@.len(),
    {
        match self {
            FloatSeq::One(_) => 1,
            FloatSeq::Many(s) => s.len(),
        }
    }

    /// The value at position `i`.
    pub fn get(&self, i: usize) -> (v: &'a T)
        requires
            i < self@.len(),
        ensures
            *v == self@[i as int],
    {
        match self {
            FloatSeq::One(v) => *v,
            FloatSeq::Many(s) => &s[i],
        }
    }
}

/// One or more numbers, seen as an ordered sequence.
pub trait Floats<T: Float> {
    /// The values, front to back. An implementation defines it; the default
    /// body leaves it unspecified.
    open spec fn spec_floats(&self) -> Seq<T> {
        arbitrary()
    }

    fn floats(&self) -> (r: FloatSeq<'_, T>)
        ensures
            r@ == self.spec_floats(),
    ;
}

/// A single value is a sequence of length one.
impl Floats<i64> for i64 {
    open spec fn spec_floats(&self) -> Seq<i64> {
        seq![*self]
    }

    fn floats(&self) -> (r: FloatSeq<'_, i64>) {
        FloatSeq::One(self)
    }
}

/// A single value is a sequence of length one.
impl Floats<i32> for i32 {
    open spec fn spec_floats(&self) -> Seq<i32> {
        seq![*self]
    }

    fn floats(&self) -> (r: FloatSeq<'_, i32>) {
        FloatSeq::One(self)
    }
}

impl<T: Float> Floats<T> for Vec<T> {
    open spec fn spec_floats(&self) -> Seq<T> {
        self@
    }

    fn floats(&self) -> (r: FloatSeq<'_, T>) {
        FloatSeq::Many(self.as_slice())
    }
}

impl<'l, T: Float> Floats<T> for &'l Vec<T> {
    open spec fn spec_floats(&self) -> Seq<T> {
        (**self)@
    }

    fn floats(&self) -> (r: FloatSeq<'_, T>) {
        FloatSeq::Many((**self).as_slice())
    }
}

impl<'l, T: Float> Floats<T> for &'l [T] {
    open spec fn spec_floats(&self) -> Seq<T> {
        (**self)@
    }

    fn floats(&self) -> (r: FloatSeq<'_, T>) {
        FloatSeq::Many(*self)
    }
}

impl<'l, T: Float, const N: usize> Floats<T> for &'l [T; N] {
    open spec fn spec_floats(&self) -> Seq<T> {
        (**self)@
    }

    fn floats(&self) -> (r: FloatSeq<'_, T>) {
        FloatSeq::Many((**self).as_slice())
    }
}

} // verus!
