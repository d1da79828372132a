//! Assertions for tests: tolerance-aware comparison of numeric sequences,
//! exact comparison of arbitrary sequences, and checks on outcomes.
pub mod compare;
pub mod laws;
pub mod sequence;
pub mod traits;

pub use compare::{close, close_abs, equal, CloseError};
pub use sequence::{result_is_err, result_is_ok, sequence_eq, sequence_ne, SeqMismatch};
pub use traits::{Float, FloatSeq, Floats};
