//! Comparison of a range with a single value.
//!
//! A range equals every value that it contains. A range lies above a value
//! that lies below its start, and below a value that lies above its end.

use core::cmp::Ordering;
use vstd::prelude::*;
use vstd::std_specs::cmp::{PartialEqSpecImpl, PartialOrdIs, PartialOrdSpec, PartialOrdSpecImpl};
use crate::interval::Interval;

verus! {

impl<T: PartialOrd + Copy> PartialEq<T> for Interval<T> {
    /// Whether the range contains `other`.
    fn eq(&self, other: &T) -> (r: bool) {
        self.contains(*other)
    }
}

impl<T: PartialOrd + Copy> PartialEqSpecImpl<T> for Interval<T> {
    open spec fn obeys_eq_spec() -> bool {
        T::obeys_partial_cmp_spec()
    }

    open spec fn eq_spec(&self, other: &T) -> bool {
        self.holds(*other)
    }
}

impl<T: PartialOrd + Copy> PartialOrd<T> for Interval<T> {
    /// Where the range lies with respect to `other`; nothing when `other`
    /// can be compared with neither bound.
    fn partial_cmp(&self, other: &T) -> (r: Option<Ordering>) {
        if *other < self.start {
            return Some(Ordering::Greater);
        }
        if *other > self.end {
            return Some(Ordering::Less);
        }
        if self.contains(*other) {
            return Some(Ordering::Equal);
        }
        None
    }
}

impl<T: PartialOrd + Copy> PartialOrdSpecImpl<T> for Interval<T> {
    open spec fn obeys_partial_cmp_spec() -> bool {
        T::obeys_partial_cmp_spec()
    }

    open spec fn partial_cmp_spec(&self, other: &T) -> Option<Ordering> {
        if other.is_lt(&self.start) {
            Some(Ordering::Greater)
        } else if other.is_gt(&self.end) {
            Some(Ordering::Less)
        } else if self.holds(*other) {
            Some(Ordering::Equal)
        } else {
            None
        }
    }
}

} // verus!
