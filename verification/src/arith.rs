//! Arithmetic on ranges.
//!
//! A lower bound is computed while the register rounds downward and an
//! upper bound while it rounds upward. The register is handed in by the
//! caller and holds the code it held before, once an operator has returned
//! a range.

use core::ops::Neg;
use vstd::prelude::*;
use vstd::std_specs::cmp::PartialOrdSpec;
use vstd::std_specs::ops::{AddSpec, DivSpec, MulSpec, NegSpec, NegSpecImpl, SubSpec};
use crate::interval::Interval;
use crate::rounding::{Rounding, RoundingError, RoundingRegister};
use crate::utils::{
    add_answers, div_answers, max_of, min_of, mul_answers, partial_max, partial_min, sub_answers,
};

verus! {

/// The register takes the two directed modes, and takes back the code
/// `saved` that it held before.
pub open spec fn can_round<E: RoundingRegister>(saved: i32) -> bool {
    &&& E::supports(Rounding::Downward.spec_code())
    &&& E::supports(Rounding::Upward.spec_code())
    &&& E::supports(saved)
}

/// The code that the register holds after an operator: the code `saved`
/// that it held before, unless it took the downward mode and then refused
/// to take `saved` back.
pub open spec fn code_after<E: RoundingRegister>(saved: i32) -> i32 {
    if E::supports(Rounding::Downward.spec_code()) && !E::supports(saved) {
        Rounding::Downward.spec_code()
    } else {
        saved
    }
}

/// The smallest of four values, taken from left to right.
pub open spec fn least<T: PartialOrd>(p: T, q: T, r: T, s: T) -> T {
    min_of(min_of(min_of(p, q), r), s)
}

/// The largest of four values, taken from left to right.
pub open spec fn greatest<T: PartialOrd>(p: T, q: T, r: T, s: T) -> T {
    max_of(max_of(max_of(p, q), r), s)
}

/// `v` is what the multiplication of `T` returned for a bound of the one
/// range and a bound of the other.
pub open spec fn is_corner_product<T: core::ops::Mul<Output = T>>(
    x: Interval<T>,
    y: Interval<T>,
    v: T,
) -> bool {
    ||| mul_answers(x.start, y.start, v)
    ||| mul_answers(x.start, y.end, v)
    ||| mul_answers(x.end, y.start, v)
    ||| mul_answers(x.end, y.end, v)
}

/// `v` is what the division of `T` returned for a bound of the one range
/// and a bound of the other.
pub open spec fn is_corner_quotient<T: core::ops::Div<Output = T>>(
    x: Interval<T>,
    y: Interval<T>,
    v: T,
) -> bool {
    ||| div_answers(x.start, y.start, v)
    ||| div_answers(x.start, y.end, v)
    ||| div_answers(x.end, y.start, v)
    ||| div_answers(x.end, y.end, v)
}

/// Selects the smallest of four values as `partial_min` orders them.
pub fn least_of<T: PartialOrd>(p: T, q: T, r: T, s: T) -> (m: T)
    ensures
        m == p || m == q || m == r || m == s,
        T::obeys_partial_cmp_spec() ==> m == least(p, q, r, s),
{
    partial_min(partial_min(partial_min(p, q), r), s)
}

/// Selects the largest of four values as `partial_max` orders them.
pub fn greatest_of<T: PartialOrd>(p: T, q: T, r: T, s: T) -> (m: T)
    ensures
        m == p || m == q || m == r || m == s,
        T::obeys_partial_cmp_spec() ==> m == greatest(p, q, r, s),
{
    partial_max(partial_max(partial_max(p, q), r), s)
}

impl<T> Interval<T> {
    /// The bounds swapped and negated.
    pub open spec fn opposite(self) -> Interval<T> where T: Neg<Output = T> {
        Interval { start: self.end.neg_spec(), end: self.start.neg_spec() }
    }

    /// Start plus start, end plus end.
    pub open spec fn sum(self, other: Interval<T>) -> Interval<T> where
        T: core::ops::Add<Output = T>,
     {
        Interval {
            start: self.start.add_spec(other.start),
            end: self.end.add_spec(other.end),
        }
    }

    /// Start minus start, end minus end.
    pub open spec fn difference(self, other: Interval<T>) -> Interval<T> where
        T: core::ops::Sub<Output = T>,
     {
        Interval {
            start: self.start.sub_spec(other.start),
            end: self.end.sub_spec(other.end),
        }
    }

    /// From the smallest to the largest of the four products of a bound of
    /// the one range and a bound of the other.
    pub open spec fn product(self, other: Interval<T>) -> Interval<T> where
        T: core::ops::Mul<Output = T> + PartialOrd,
     {
        let ac = self.start.mul_spec(other.start);
        let ad = self.start.mul_spec(other.end);
        let bc = self.end.mul_spec(other.start);
        let bd = self.end.mul_spec(other.end);
        Interval { start: least(ac, ad, bc, bd), end: greatest(ac, ad, bc, bd) }
    }

    /// From the smallest to the largest of the four quotients of a bound of
    /// the one range by a bound of the other.
    pub open spec fn quotient(self, other: Interval<T>) -> Interval<T> where
        T: core::ops::Div<Output = T> + PartialOrd,
     {
        let ac = self.start.div_spec(other.start);
        let ad = self.start.div_spec(other.end);
        let bc = self.end.div_spec(other.start);
        let bd = self.end.div_spec(other.end);
        Interval { start: least(ac, ad, bc, bd), end: greatest(ac, ad, bc, bd) }
    }
}

impl<T: Neg<Output = T> + Copy> Neg for Interval<T> {
    type Output = Interval<T>;

    /// The range of the negated values. Negation is exact, so the register
    /// is not needed.
    fn neg(self) -> (r: Interval<T>) {
        Interval { start: self.end.neg(), end: self.start.neg() }
    }
}

impl<T: Neg<Output = T> + Copy> NegSpecImpl for Interval<T> {
    open spec fn obeys_neg_spec() -> bool {
        T::obeys_neg_spec()
    }

    open spec fn neg_req(self) -> bool {
        self.end.neg_req() && self.start.neg_req()
    }

    open spec fn neg_spec(self) -> Interval<T> {
        self.opposite()
    }
}

impl<T: Copy> Interval<T> {
    /// The sum of two ranges: the starts added while rounding downward,
    /// the ends added while rounding upward.
    pub fn add<E: RoundingRegister>(self, other: Interval<T>, env: &mut E) -> (r: Result<
        Interval<T>,
        RoundingError,
    >) where T: core::ops::Add<Output = T>
        requires
            self.start.add_req(other.start),
            self.end.add_req(other.end),
        ensures
            r is Ok <==> can_round::<E>(old(env).raw_mode()),
            final(env).raw_mode() == code_after::<E>(old(env).raw_mode()),
            r matches Ok(v) ==> add_answers(self.start, other.start, v.start) && add_answers(
                self.end,
                other.end,
                v.end,
            ),
            T::obeys_add_spec() ==> (r matches Ok(v) ==> v == self.sum(other)),
    {
        let (a, b, c, d) = (self.start, self.end, other.start, other.end);
        let low = |_e: &mut E| -> (v: T)
            requires
                _e.raw_mode() == Rounding::Downward.spec_code(),
                a.add_req(c),
            ensures
                final(_e).raw_mode() == old(_e).raw_mode(),
                add_answers(a, c, v),
                T::obeys_add_spec() ==> v == a.add_spec(c),
            { a + c };
        let high = |_e: &mut E| -> (v: T)
            requires
                _e.raw_mode() == Rounding::Upward.spec_code(),
                b.add_req(d),
            ensures
                final(_e).raw_mode() == old(_e).raw_mode(),
                add_answers(b, d, v),
                T::obeys_add_spec() ==> v == b.add_spec(d),
            { b + d };
        let start = match Rounding::Downward.execute(env, low) {
            Ok(v) => v,
            Err(e) => { return Err(e); },
        };
        let end = match Rounding::Upward.execute(env, high) {
            Ok(v) => v,
            Err(e) => { return Err(e); },
        };
        Ok(Interval { start, end })
    }

    /// The difference of two ranges, bound by bound: the starts subtracted
    /// while rounding downward, the ends subtracted while rounding upward.
    /// The result is a valid range only where the start of the difference
    /// does not exceed its end.
    pub fn sub<E: RoundingRegister>(self, other: Interval<T>, env: &mut E) -> (r: Result<
        Interval<T>,
        RoundingError,
    >) where T: core::ops::Sub<Output = T>
        requires
            self.start.sub_req(other.start),
            self.end.sub_req(other.end),
        ensures
            r is Ok <==> can_round::<E>(old(env).raw_mode()),
            final(env).raw_mode() == code_after::<E>(old(env).raw_mode()),
            r matches Ok(v) ==> sub_answers(self.start, other.start, v.start) && sub_answers(
                self.end,
                other.end,
                v.end,
            ),
            T::obeys_sub_spec() ==> (r matches Ok(v) ==> v == self.difference(other)),
    {
        let (a, b, c, d) = (self.start, self.end, other.start, other.end);
        let low = |_e: &mut E| -> (v: T)
            requires
                _e.raw_mode() == Rounding::Downward.spec_code(),
                a.sub_req(c),
            ensures
                final(_e).raw_mode() == old(_e).raw_mode(),
                sub_answers(a, c, v),
                T::obeys_sub_spec() ==> v == a.sub_spec(c),
            { a - c };
        let high = |_e: &mut E| -> (v: T)
            requires
                _e.raw_mode() == Rounding::Upward.spec_code(),
                b.sub_req(d),
            ensures
                final(_e).raw_mode() == old(_e).raw_mode(),
                sub_answers(b, d, v),
                T::obeys_sub_spec() ==> v == b.sub_spec(d),
            { b - d };
        let start = match Rounding::Downward.execute(env, low) {
            Ok(v) => v,
            Err(e) => { return Err(e); },
        };
        let end = match Rounding::Upward.execute(env, high) {
            Ok(v) => v,
            Err(e) => { return Err(e); },
        };
        Ok(Interval { start, end })
    }

    /// The product of two ranges. The signs of the bounds are not known, so
    /// all four products of a bound of the one and a bound of the other are
    /// formed: the start is the smallest of them as computed while rounding
    /// downward, the end the largest as computed while rounding upward.
    pub fn mul<E: RoundingRegister>(self, other: Interval<T>, env: &mut E) -> (r: Result<
        Interval<T>,
        RoundingError,
    >) where T: core::ops::Mul<Output = T> + PartialOrd
        requires
            self.start.mul_req(other.start),
            self.start.mul_req(other.end),
            self.end.mul_req(other.start),
            self.end.mul_req(other.end),
        ensures
            r is Ok <==> can_round::<E>(old(env).raw_mode()),
            final(env).raw_mode() == code_after::<E>(old(env).raw_mode()),
            r matches Ok(v) ==> is_corner_product(self, other, v.start) && is_corner_product(
                self,
                other,
                v.end,
            ),
            T::obeys_mul_spec() && T::obeys_partial_cmp_spec() ==> (r matches Ok(v) ==> v
                == self.product(other)),
    {
        let (a, b, c, d) = (self.start, self.end, other.start, other.end);
        let low = |_e: &mut E| -> (v: T)
            requires
                _e.raw_mode() == Rounding::Downward.spec_code(),
                a.mul_req(c) && a.mul_req(d) && b.mul_req(c) && b.mul_req(d),
            ensures
                final(_e).raw_mode() == old(_e).raw_mode(),
                is_corner_product(self, other, v),
                T::obeys_mul_spec() && T::obeys_partial_cmp_spec() ==> v == self.product(
                    other,
                ).start,
            { least_of(a * c, a * d, b * c, b * d) };
        let high = |_e: &mut E| -> (v: T)
            requires
                _e.raw_mode() == Rounding::Upward.spec_code(),
                a.mul_req(c) && a.mul_req(d) && b.mul_req(c) && b.mul_req(d),
            ensures
                final(_e).raw_mode() == old(_e).raw_mode(),
                is_corner_product(self, other, v),
                T::obeys_mul_spec() && T::obeys_partial_cmp_spec() ==> v == self.product(
                    other,
                ).end,
            { greatest_of(a * c, a * d, b * c, b * d) };
        let start = match Rounding::Downward.execute(env, low) {
            Ok(v) => v,
            Err(e) => { return Err(e); },
        };
        let end = match Rounding::Upward.execute(env, high) {
            Ok(v) => v,
            Err(e) => { return Err(e); },
        };
        Ok(Interval { start, end })
    }

    /// The quotient of two ranges, formed as the product is, from the four
    /// quotients of a bound of `self` by a bound of `other`. A divisor that
    /// contains zero is not refused: the bounds are then whatever the
    /// division of `T` returns.
    pub fn div<E: RoundingRegister>(self, other: Interval<T>, env: &mut E) -> (r: Result<
        Interval<T>,
        RoundingError,
    >) where T: core::ops::Div<Output = T> + PartialOrd
        requires
            self.start.div_req(other.start),
            self.start.div_req(other.end),
            self.end.div_req(other.start),
            self.end.div_req(other.end),
        ensures
            r is Ok <==> can_round::<E>(old(env).raw_mode()),
            final(env).raw_mode() == code_after::<E>(old(env).raw_mode()),
            r matches Ok(v) ==> is_corner_quotient(self, other, v.start) && is_corner_quotient(
                self,
                other,
                v.end,
            ),
            T::obeys_div_spec() && T::obeys_partial_cmp_spec() ==> (r matches Ok(v) ==> v
                == self.quotient(other)),
    {
        let (a, b, c, d) = (self.start, self.end, other.start, other.end);
        let low = |_e: &mut E| -> (v: T)
            requires
                _e.raw_mode() == Rounding::Downward.spec_code(),
                a.div_req(c) && a.div_req(d) && b.div_req(c) && b.div_req(d),
            ensures
                final(_e).raw_mode() == old(_e).raw_mode(),
                is_corner_quotient(self, other, v),
                T::obeys_div_spec() && T::obeys_partial_cmp_spec() ==> v == self.quotient(
                    other,
                ).start,
            { least_of(a / c, a / d, b / c, b / d) };
        let high = |_e: &mut E| -> (v: T)
            requires
                _e.raw_mode() == Rounding::Upward.spec_code(),
                a.div_req(c) && a.div_req(d) && b.div_req(c) && b.div_req(d),
            ensures
                final(_e).raw_mode() == old(_e).raw_mode(),
                is_corner_quotient(self, other, v),
                T::obeys_div_spec() && T::obeys_partial_cmp_spec() ==> v == self.quotient(
                    other,
                ).end,
            { greatest_of(a / c, a / d, b / c, b / d) };
        let start = match Rounding::Downward.execute(env, low) {
            Ok(v) => v,
            Err(e) => { return Err(e); },
        };
        let end = match Rounding::Upward.execute(env, high) {
            Ok(v) => v,
            Err(e) => { return Err(e); },
        };
        Ok(Interval { start, end })
    }
}

} // verus!
