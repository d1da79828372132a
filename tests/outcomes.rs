use approx_assert::{
    close_abs, equal, result_is_err, result_is_ok, sequence_eq, sequence_ne, CloseError, Float,
    FloatSeq, Floats, SeqMismatch,
};

/// A double-precision number, compared with the host's own arithmetic.
#[derive(Debug, Clone, Copy, PartialEq, PartialOrd)]
struct Double(f64);

impl Float for Double {
    fn is_finite(&self) -> bool {
        self.0.is_finite()
    }

    fn within(&self, other: &Double, delta: &Double) -> bool {
        (self.0 - other.0).abs() <= delta.0
    }

    fn within_abs(&self, other: &Double, delta: &Double) -> bool {
        (self.0.abs() - other.0.abs()).abs() <= delta.0
    }

    fn same(&self, other: &Double) -> bool {
        self.0 == other.0
    }
}

impl Floats<Double> for Double {
    fn floats(&self) -> FloatSeq<'_, Double> {
        FloatSeq::One(self)
    }
}

fn d(values: &[f64]) -> Vec<Double> {
    values.iter().map(|&v| Double(v)).collect()
}

#[test]
fn close_within_tolerance_passes() {
    let x = d(&[1.0, 2.0, 3.0]);
    let y = d(&[1.5, 1.75, 3.0]);
    assert_eq!(approx_assert::close(&x, &y, Double(0.5)), Ok(()));
}

#[test]
fn close_tolerance_is_inclusive() {
    assert_eq!(approx_assert::close(Double(1.0), Double(1.5), Double(0.5)), Ok(()));
    assert_eq!(approx_assert::close(3i64, 5i64, 2i64), Ok(()));
    assert_eq!(
        approx_assert::close(3i64, 6i64, 2i64),
        Err(CloseError::ToleranceExceeded { index: 0 })
    );
}

#[test]
fn close_reports_first_exceeded_index() {
    let x = d(&[1.0, 2.0, 3.0, 4.0]);
    let y = d(&[1.0, 2.5, 3.0, 9.0]);
    assert_eq!(
        approx_assert::close(&x, &y, Double(0.25)),
        Err(CloseError::ToleranceExceeded { index: 1 })
    );
}

#[test]
fn close_self_at_zero_tolerance() {
    let x = d(&[-1.5, 0.0, 7.25, 1e300]);
    assert_eq!(approx_assert::close(&x, &x, Double(0.0)), Ok(()));
    let ints: Vec<i64> = vec![i64::MIN, -1, 0, i64::MAX];
    assert_eq!(approx_assert::close(&ints, &ints, 0i64), Ok(()));
}

#[test]
fn close_empty_sequences_pass() {
    let e: Vec<Double> = vec![];
    assert_eq!(approx_assert::close(&e, &e, Double(0.0)), Ok(()));
    assert_eq!(approx_assert::close(&e, &e, Double(3.0)), Ok(()));
    let ei: Vec<i32> = vec![];
    assert_eq!(close_abs(&ei, &ei, 0i32), Ok(()));
}

#[test]
fn close_length_mismatch_is_reported() {
    assert_eq!(
        approx_assert::close(vec![], vec![Double(1.0)], Double(1.0)),
        Err(CloseError::LengthMismatch { left: 0, right: 1 })
    );
    let x = d(&[1.0, 2.0, 3.0]);
    let y = d(&[1.0, 2.0]);
    assert_eq!(
        approx_assert::close(&x, &y, Double(100.0)),
        Err(CloseError::LengthMismatch { left: 3, right: 2 })
    );
}

#[test]
fn close_abs_ignores_sign() {
    assert_eq!(close_abs(&[Double(1.0)], &[Double(-1.0)], Double(0.0)), Ok(()));
    assert_eq!(
        approx_assert::close(&[Double(1.0)], &[Double(-1.0)], Double(0.0)),
        Err(CloseError::ToleranceExceeded { index: 0 })
    );
    assert_eq!(close_abs(1i64, -1i64, 0i64), Ok(()));
    assert_eq!(
        close_abs(vec![5i32, -4], vec![-5i32, 6], 1i32),
        Err(CloseError::ToleranceExceeded { index: 1 })
    );
}

#[test]
fn close_abs_non_finite_needs_equal_values() {
    assert_eq!(
        close_abs(Double(f64::INFINITY), Double(f64::NEG_INFINITY), Double(1.0)),
        Err(CloseError::NonFiniteMismatch { index: 0 })
    );
}

#[test]
fn close_nan_is_never_equal() {
    assert_eq!(
        approx_assert::close(Double(f64::NAN), Double(f64::NAN), Double(1.0)),
        Err(CloseError::NonFiniteMismatch { index: 0 })
    );
}

#[test]
fn close_matching_infinities_pass() {
    let x = d(&[f64::NEG_INFINITY, 1.0, f64::INFINITY]);
    assert_eq!(approx_assert::close(&x, &x, Double(0.0)), Ok(()));
    let y = d(&[f64::NEG_INFINITY, 1.0, 2.0]);
    assert_eq!(
        approx_assert::close(&x, &y, Double(10.0)),
        Err(CloseError::NonFiniteMismatch { index: 2 })
    );
}

#[test]
fn close_scalars_are_single_values() {
    assert_eq!(approx_assert::close(Double(1.0), Double(1.0 + 1e-10), Double(2e-10)), Ok(()));
    assert_eq!(
        approx_assert::close(Double(1.0), Double(2.0), Double(1e-10)),
        Err(CloseError::ToleranceExceeded { index: 0 })
    );
    assert_eq!(approx_assert::close(7i32, &[7i32], 0i32), Ok(()));
}

#[test]
fn close_integers_do_not_overflow() {
    assert_eq!(
        approx_assert::close(i64::MIN, i64::MAX, i64::MAX),
        Err(CloseError::ToleranceExceeded { index: 0 })
    );
    assert_eq!(close_abs(i64::MIN, i64::MAX, 1i64), Ok(()));
    assert_eq!(close_abs(i32::MIN, i32::MAX, 0i32), Err(CloseError::ToleranceExceeded { index: 0 }));
}

#[test]
fn sequence_eq_reports_left_short_index() {
    let a: Vec<i32> = vec![1, 2, 3];
    let b: Vec<i32> = vec![1, 2, 3, 4];
    assert_eq!(sequence_eq(&a, &a), Ok(()));
    assert_eq!(sequence_eq(&a, &b), Err(SeqMismatch::LeftShort { index: 3 }));
    assert_eq!(sequence_eq(&b, &a), Err(SeqMismatch::RightShort { index: 3 }));
}

#[test]
fn sequence_eq_reports_differing_index() {
    let a: Vec<i32> = vec![1, 2, 3];
    let b: Vec<i32> = vec![4, 5, 6];
    let c: Vec<i32> = vec![1, 2, 4, 0];
    assert_eq!(sequence_eq(&a, &b), Err(SeqMismatch::Differ { index: 0 }));
    assert_eq!(sequence_eq(&a, &c), Err(SeqMismatch::Differ { index: 2 }));
    let e: Vec<i32> = vec![];
    assert_eq!(sequence_eq(&e, &e), Ok(()));
}

#[test]
fn sequence_ne_detects_equal_sequences() {
    let a: Vec<i32> = vec![1, 2, 3];
    let b: Vec<i32> = vec![1, 2, 4];
    assert!(!sequence_ne(&a, &a));
    assert!(sequence_ne(&a, &b));
    let e: Vec<i32> = vec![];
    assert!(!sequence_ne(&e, &e));
}

#[test]
fn outcome_variants() {
    let ok: Result<i32, String> = Ok(5);
    let err: Result<i32, String> = Err(String::from("bad"));
    assert!(result_is_ok(&ok));
    assert!(!result_is_ok(&err));
    assert!(result_is_err(&err));
    assert!(!result_is_err(&ok));
}

#[test]
fn equal_compares_exactly() {
    let x = d(&[1.0, f64::INFINITY, -2.5]);
    assert_eq!(equal(&x, &x), Ok(()));
    let y = d(&[1.0, f64::INFINITY, -2.5 + 1e-12]);
    assert_eq!(equal(&x, &y), Err(CloseError::ExactMismatch { index: 2 }));
    assert_eq!(equal(vec![4i64, 5], vec![4i64, 5, 6]), Err(CloseError::LengthMismatch { left: 2, right: 3 }));
    assert_eq!(equal(9i32, &[9i32]), Ok(()));
    assert_eq!(equal(Double(f64::NAN), Double(f64::NAN)), Err(CloseError::ExactMismatch { index: 0 }));
}
