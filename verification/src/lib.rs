//! Fibonacci terms over any numeric type that offers a zero value, a one
//! value and a checked addition, with explicit, non-panicking detection of
//! the first term that no longer fits the type.
//!
//! [`Fibonacci`] is a resumable producer of terms; [`Fibonacci::f`] is a
//! one-shot indexed accessor. Both report exactly where a numeric type runs
//! out of room instead of wrapping around or failing at run time.

pub mod generator;
pub mod number;
pub mod terms;

pub use generator::Fibonacci;
pub use number::Number;
