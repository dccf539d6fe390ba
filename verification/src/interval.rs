//! The interval type: construction, inspection and intersection.

use vstd::prelude::*;
use vstd::std_specs::cmp::{PartialEqSpec, PartialOrdIs, PartialOrdSpec};
use vstd::std_specs::convert::FromSpec;
use vstd::std_specs::ops::{AddSpec, DivSpec, SubSpec};
use vstd::string::{to_string_from_display_ensures, StringExecFns};
use crate::utils::{
    add_answers, div_answers, gt_answers, le_answers, max_of, max_picks, min_of, min_picks,
    partial_max, partial_min, small_answers, sub_answers,
};

verus! {

/// A closed range `[start, end]` of an ordered numeric type.
///
/// A range is valid when `start <= end`: see `is_valid`. The constructors
/// hand out valid ranges only. The operators take the bounds as they are
/// and ask for no valid range, because the difference of two valid ranges,
/// taken bound by bound, need not be one.
#[derive(Clone, Copy, Debug, PartialEq)]
pub struct Interval<T> {
    pub start: T,
    pub end: T,
}

/// The start of a range was not at most its end.
#[derive(Clone, Copy, Debug, PartialEq, Eq, Structural)]
pub struct InvalidRangeError;

/// The text of a range whose bounds are written `start` and `end`.
pub open spec fn bracket_text(start: Seq<char>, end: Seq<char>) -> Seq<char> {
    seq!['['] + start + seq![',', ' '] + end + seq![']']
}

/// Writes two bounds as `[start, end]`.
pub fn bracketed(start: &str, end: &str) -> (r: String)
    ensures
        r@ == bracket_text(start@, end@),
{
    proof {
        reveal_strlit("[");
        reveal_strlit(", ");
        reveal_strlit("]");
    }
    let mut text = String::from_str("[");
    text.append(start);
    text.append(", ");
    text.append(end);
    text.append("]");
    assert(text@ =~= bracket_text(start@, end@));
    text
}

impl<T> Interval<T> {
    /// `start <= end`.
    pub open spec fn is_valid(self) -> bool where T: PartialOrd {
        self.start.is_le(&self.end)
    }

    /// What `with_range` returns for two bounds.
    pub open spec fn range_of(start: T, end: T) -> Result<Interval<T>, InvalidRangeError> where
        T: PartialOrd,
     {
        if start.is_le(&end) {
            Ok(Interval { start, end })
        } else {
            Err(InvalidRangeError)
        }
    }

    /// `start <= value <= end`.
    pub open spec fn holds(self, value: T) -> bool where T: PartialOrd {
        self.start.is_le(&value) && value.is_le(&self.end)
    }

    /// The overlap of two ranges: from the larger start to the smaller end,
    /// unless that start lies above that end.
    pub open spec fn meet(self, other: Interval<T>) -> Option<Interval<T>> where T: PartialOrd {
        let low = max_of(self.start, other.start);
        let high = min_of(self.end, other.end);
        if low.is_gt(&high) {
            None
        } else {
            Some(Interval { start: low, end: high })
        }
    }
}

impl<T: PartialOrd> Interval<T> {
    /// The range from `start` to `end`, or an error unless `start <= end`.
    pub fn with_range(start: T, end: T) -> (r: Result<Interval<T>, InvalidRangeError>)
        ensures
            r matches Ok(range) ==> range.start == start && range.end == end,
            r is Ok ==> le_answers(start, end, true),
            r is Err ==> le_answers(start, end, false),
            T::obeys_partial_cmp_spec() ==> r == Self::range_of(start, end),
            T::obeys_partial_cmp_spec() ==> (r matches Ok(range) ==> range.is_valid()),
    {
        if start <= end {
            Ok(Interval { start, end })
        } else {
            Err(InvalidRangeError)
        }
    }

    /// The range from `center - epsilon` to `center + epsilon`.
    pub fn with_epsilon<P>(center: P, epsilon: P) -> (r: Result<Interval<T>, InvalidRangeError>)
        where P: core::ops::Add<Output = T> + core::ops::Sub<Output = T> + Copy
        requires
            center.sub_req(epsilon),
            center.add_req(epsilon),
        ensures
            r matches Ok(range) ==> sub_answers(center, epsilon, range.start) && add_answers(
                center,
                epsilon,
                range.end,
            ) && le_answers(range.start, range.end, true),
            r is Err ==> (exists|start: T, end: T|
                sub_answers(center, epsilon, start) && add_answers(center, epsilon, end)
                    && #[trigger] le_answers(start, end, false)),
            P::obeys_sub_spec() && P::obeys_add_spec() && T::obeys_partial_cmp_spec() ==> r
                == Self::range_of(center.sub_spec(epsilon), center.add_spec(epsilon)),
            P::obeys_sub_spec() && P::obeys_add_spec() && T::obeys_partial_cmp_spec() ==> (r matches Ok(
                range,
            ) ==> range.is_valid()),
    {
        Interval::with_range(center - epsilon, center + epsilon)
    }

    /// The range that holds `value` alone.
    pub fn exact(value: T) -> (r: Result<Interval<T>, InvalidRangeError>) where T: Copy
        ensures
            r matches Ok(range) ==> range.start == value && range.end == value,
            r is Ok ==> le_answers(value, value, true),
            r is Err ==> le_answers(value, value, false),
            T::obeys_partial_cmp_spec() ==> r == Self::range_of(value, value),
            T::obeys_partial_cmp_spec() ==> (r matches Ok(range) ==> range.is_valid()),
    {
        Interval::with_range(value, value)
    }

    /// The range that holds zero alone.
    pub fn zero() -> (r: Result<Interval<T>, InvalidRangeError>) where T: Copy + From<i8>
        ensures
            r matches Ok(range) ==> small_answers(0i8, range.start) && range.end == range.start,
            T::obeys_from_spec() ==> (r matches Ok(range) ==> range.start == T::from_spec(0i8)
                && range.end == T::from_spec(0i8)),
            T::obeys_from_spec() && T::obeys_partial_cmp_spec() ==> r == Self::range_of(
                T::from_spec(0i8),
                T::from_spec(0i8),
            ),
    {
        Interval::exact(T::from(0i8))
    }

    /// The range that holds one alone.
    pub fn one() -> (r: Result<Interval<T>, InvalidRangeError>) where T: Copy + From<i8>
        ensures
            r matches Ok(range) ==> small_answers(1i8, range.start) && range.end == range.start,
            T::obeys_from_spec() ==> (r matches Ok(range) ==> range.start == T::from_spec(1i8)
                && range.end == T::from_spec(1i8)),
            T::obeys_from_spec() && T::obeys_partial_cmp_spec() ==> r == Self::range_of(
                T::from_spec(1i8),
                T::from_spec(1i8),
            ),
    {
        Interval::exact(T::from(1i8))
    }

    /// Whether both bounds equal zero.
    pub fn is_zero(&self) -> (r: bool) where T: From<i8>
        ensures
            T::obeys_from_spec() && T::obeys_eq_spec() ==> r == (self.start.eq_spec(
                &T::from_spec(0i8),
            ) && self.end.eq_spec(&T::from_spec(0i8))),
    {
        self.start == T::from(0i8) && self.end == T::from(0i8)
    }
}

impl<T: Copy> Interval<T> {
    /// Whether `value` lies in the range, both bounds included.
    pub fn contains(&self, value: T) -> (r: bool) where T: PartialOrd
        ensures
            r ==> le_answers(self.start, value, true) && le_answers(value, self.end, true),
            !r ==> le_answers(self.start, value, false) || le_answers(value, self.end, false),
            T::obeys_partial_cmp_spec() ==> r == self.holds(value),
    {
        self.start <= value && value <= self.end
    }

    /// `end - start`.
    pub fn width(&self) -> (r: T) where T: core::ops::Sub<Output = T>
        requires
            self.end.sub_req(self.start),
        ensures
            sub_answers(self.end, self.start, r),
            T::obeys_sub_spec() ==> r == self.end.sub_spec(self.start),
    {
        self.end - self.start
    }

    /// `(start + end) / 2`, in the arithmetic of `T` as it stands: the
    /// rounding mode is left alone.
    pub fn center(&self) -> (r: T) where
        T: core::ops::Add<Output = T> + core::ops::Div<Output = T> + From<i8>,

        requires
            self.start.add_req(self.end),
            forall|sum: T, two: T|
                add_answers(self.start, self.end, sum) && small_answers(2i8, two) ==> sum.div_req(
                    two,
                ),
        ensures
            (exists|sum: T, two: T|
                add_answers(self.start, self.end, sum) && small_answers(2i8, two)
                    && #[trigger] div_answers(sum, two, r)),
            T::obeys_add_spec() && T::obeys_div_spec() && T::obeys_from_spec() ==> r
                == self.start.add_spec(self.end).div_spec(T::from_spec(2i8)),
    {
        let sum = self.start + self.end;
        let two = T::from(2i8);
        let half = sum / two;
        assert(div_answers(sum, two, half));
        half
    }

    /// The part that two ranges share, if they share any.
    pub fn intersection(&self, other: &Interval<T>) -> (r: Option<Interval<T>>) where
        T: PartialOrd,

        ensures
            match r {
                Some(shared) => max_picks(self.start, other.start, shared.start) && min_picks(
                    self.end,
                    other.end,
                    shared.end,
                ) && gt_answers(shared.start, shared.end, false),
                None => (exists|low: T, high: T|
                    max_picks(self.start, other.start, low) && min_picks(self.end, other.end, high)
                        && #[trigger] gt_answers(low, high, true)),
            },
            T::obeys_partial_cmp_spec() ==> r == self.meet(*other),
    {
        let low = partial_max(self.start, other.start);
        let high = partial_min(self.end, other.end);
        if low > high {
            assert(gt_answers(low, high, true));
            return None;
        }
        Some(Interval { start: low, end: high })
    }

    /// Half of the width.
    pub fn epsilon(&self) -> (r: T) where
        T: core::ops::Sub<Output = T> + core::ops::Div<Output = T> + From<i8>,

        requires
            self.end.sub_req(self.start),
            forall|width: T, two: T|
                sub_answers(self.end, self.start, width) && small_answers(2i8, two)
                    ==> width.div_req(two),
        ensures
            (exists|width: T, two: T|
                sub_answers(self.end, self.start, width) && small_answers(2i8, two)
                    && #[trigger] div_answers(width, two, r)),
            T::obeys_sub_spec() && T::obeys_div_spec() && T::obeys_from_spec() ==> r
                == self.end.sub_spec(self.start).div_spec(T::from_spec(2i8)),
    {
        let width = self.width();
        let two = T::from(2i8);
        let half = width / two;
        assert(div_answers(width, two, half));
        half
    }

    /// The range as text: `[start, end]`, each bound as `T` displays it.
    pub fn to_string(&self) -> (r: String) where T: core::fmt::Display
        ensures
            (exists|start: String, end: String|
                to_string_from_display_ensures::<T>(&self.start, start)
                    && to_string_from_display_ensures::<T>(&self.end, end) && r@ == bracket_text(
                    start@,
                    end@,
                )),
    {
        let start = self.start.to_string();
        let end = self.end.to_string();
        bracketed(start.as_str(), end.as_str())
    }
}

} // verus!
