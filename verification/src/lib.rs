//! Interval arithmetic with directed rounding.
//!
//! A value is kept as a closed range `[start, end]`. Every arithmetic
//! operator computes the lower bound while the rounding-mode register is
//! switched toward negative infinity and the upper bound while it is
//! switched toward positive infinity, so that rounding can only widen the
//! range.

pub mod utils;
pub mod rounding;
pub mod interval;
pub mod order;
pub mod arith;
pub mod sine;
pub mod laws;
