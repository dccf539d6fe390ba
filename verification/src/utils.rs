//! Selection of the smaller or the larger of two partially ordered values.
//!
//! The comparison of a type need not be a function of its arguments: what
//! and under a changing rounding mode the arithmetic of a floating-point
//! type is none either. What is known of every type is only which answers
//! its operators may give. The predicates named `..._answers` say so, and
//! the contracts of this library are stated twice: over these answers, for
//! every type, and over `add_spec`, `partial_cmp_spec` and their like, for
//! the types whose operators obey them.

use vstd::prelude::*;
use vstd::std_specs::cmp::{PartialOrdIs, PartialOrdSpec};

verus! {

/// `a <= b` may answer `out`.
pub open spec fn le_answers<T: PartialOrd>(a: T, b: T, out: bool) -> bool {
    call_ensures(T::le, (&a, &b), out)
}

/// `a >= b` may answer `out`.
pub open spec fn ge_answers<T: PartialOrd>(a: T, b: T, out: bool) -> bool {
    call_ensures(T::ge, (&a, &b), out)
}

/// `a > b` may answer `out`.
pub open spec fn gt_answers<T: PartialOrd>(a: T, b: T, out: bool) -> bool {
    call_ensures(T::gt, (&a, &b), out)
}

/// `a + b` may return `out`.
pub open spec fn add_answers<P: core::ops::Add>(a: P, b: P, out: P::Output) -> bool {
    call_ensures(P::add, (a, b), out)
}

/// `a - b` may return `out`.
pub open spec fn sub_answers<P: core::ops::Sub>(a: P, b: P, out: P::Output) -> bool {
    call_ensures(P::sub, (a, b), out)
}

/// `a * b` may return `out`.
pub open spec fn mul_answers<P: core::ops::Mul>(a: P, b: P, out: P::Output) -> bool {
    call_ensures(P::mul, (a, b), out)
}

/// `a / b` may return `out`.
pub open spec fn div_answers<P: core::ops::Div>(a: P, b: P, out: P::Output) -> bool {
    call_ensures(P::div, (a, b), out)
}

/// The conversion of the small integer `n` may return `out`.
pub open spec fn small_answers<T: From<i8>>(n: i8, out: T) -> bool {
    call_ensures(T::from, (n,), out)
}

/// `r` is `a` after `a <= b` answered yes, or `b` after it answered no.
pub open spec fn min_picks<T: PartialOrd>(a: T, b: T, r: T) -> bool {
    (r == a && le_answers(a, b, true)) || (r == b && le_answers(a, b, false))
}

/// `r` is `a` after `a >= b` answered yes, or `b` after it answered no.
pub open spec fn max_picks<T: PartialOrd>(a: T, b: T, r: T) -> bool {
    (r == a && ge_answers(a, b, true)) || (r == b && ge_answers(a, b, false))
}

/// What `partial_min` selects: `a` when `a <= b`, otherwise `b`.
pub open spec fn min_of<T: PartialOrd>(a: T, b: T) -> T {
    if a.is_le(&b) {
        a
    } else {
        b
    }
}

/// What `partial_max` selects: `a` when `a >= b`, otherwise `b`.
pub open spec fn max_of<T: PartialOrd>(a: T, b: T) -> T {
    if a.is_ge(&b) {
        a
    } else {
        b
    }
}

/// Returns `a` when `a <= b` and `b` otherwise; `b` is thus also the answer
/// for two values that cannot be compared.
pub fn partial_min<T: PartialOrd>(a: T, b: T) -> (r: T)
    ensures
        min_picks(a, b, r),
        T::obeys_partial_cmp_spec() ==> r == min_of(a, b),
{
    if a <= b {
        a
    } else {
        b
    }
}

/// Returns `a` when `a >= b` and `b` otherwise; `b` is thus also the answer
/// for two values that cannot be compared.
pub fn partial_max<T: PartialOrd>(a: T, b: T) -> (r: T)
    ensures
        max_picks(a, b, r),
        T::obeys_partial_cmp_spec() ==> r == max_of(a, b),
{
    if a >= b {
        a
    } else {
        b
    }
}

} // verus!
