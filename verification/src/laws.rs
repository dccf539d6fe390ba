//! What holds of ranges whatever their bounds are.

use core::cmp::Ordering;
use vstd::prelude::*;
use vstd::std_specs::cmp::{PartialEqSpec, PartialOrdIs, PartialOrdSpec};
use vstd::std_specs::ops::{DivSpec, MulSpec};
use crate::arith::{greatest, least};
use crate::interval::Interval;
use crate::utils::{max_of, min_of};

verus! {

/// The order of `T` is total, two values compare as equal only when they
/// are the same value, `x < y` is the same as `y > x`, and `x <= y <= z`
/// gives `x <= z`.
pub open spec fn is_total_order<T: PartialOrd>() -> bool {
    &&& forall|x: T, y: T| (#[trigger] x.partial_cmp_spec(&y)) is Some
    &&& forall|x: T, y: T| #[trigger] x.partial_cmp_spec(&y) == Some(Ordering::Equal) <==> x == y
    &&& forall|x: T, y: T| #[trigger]
        x.partial_cmp_spec(&y) == Some(Ordering::Less) <==> y.partial_cmp_spec(&x) == Some(
            Ordering::Greater,
        )
    &&& forall|x: T, y: T, z: T|
        #![trigger x.partial_cmp_spec(&y), y.partial_cmp_spec(&z)]
        x.is_le(&y) && y.is_le(&z) ==> x.is_le(&z)
}

/// A range equals a value exactly when it contains the value.
pub proof fn lemma_eq_is_contains<T: PartialOrd + Copy>(range: Interval<T>, value: T)
    ensures
        PartialEqSpec::eq_spec(&range, &value) <==> range.holds(value),
{
}

/// Over a total order the larger of two values does not depend on which
/// of them is named first.
pub proof fn lemma_max_commutes<T: PartialOrd>(a: T, b: T)
    requires
        is_total_order::<T>(),
    ensures
        max_of(a, b) == max_of(b, a),
{
    let ab = a.partial_cmp_spec(&b);
    let ba = b.partial_cmp_spec(&a);
    assert(ab is Some && ba is Some);
}

/// Over a total order the smaller of two values does not depend on which
/// of them is named first.
pub proof fn lemma_min_commutes<T: PartialOrd>(a: T, b: T)
    requires
        is_total_order::<T>(),
    ensures
        min_of(a, b) == min_of(b, a),
{
    let ab = a.partial_cmp_spec(&b);
    let ba = b.partial_cmp_spec(&a);
    assert(ab is Some && ba is Some);
}

/// Over a total order two ranges overlap in the same range whichever of
/// them is asked.
pub proof fn lemma_intersection_commutes<T: PartialOrd>(a: Interval<T>, b: Interval<T>)
    requires
        is_total_order::<T>(),
        a.is_valid(),
        b.is_valid(),
    ensures
        a.meet(b) == b.meet(a),
{
    lemma_max_commutes(a.start, b.start);
    lemma_min_commutes(a.end, b.end);
}

/// Over a total order the overlap of two ranges is a valid range.
pub proof fn lemma_intersection_is_valid<T: PartialOrd>(a: Interval<T>, b: Interval<T>)
    requires
        is_total_order::<T>(),
    ensures
        a.meet(b) matches Some(shared) ==> shared.is_valid(),
{
    let low = max_of(a.start, b.start);
    let high = min_of(a.end, b.end);
    assert(low.partial_cmp_spec(&high) is Some);
}

/// Over a total order the overlap of two ranges holds the values that both
/// of them hold, and two ranges that share no value have no overlap.
pub proof fn lemma_intersection_holds<T: PartialOrd>(a: Interval<T>, b: Interval<T>, value: T)
    requires
        is_total_order::<T>(),
    ensures
        (a.meet(b) matches Some(shared) && shared.holds(value)) <==> a.holds(value) && b.holds(
            value,
        ),
{
    let low = max_of(a.start, b.start);
    let high = min_of(a.end, b.end);
    lemma_le_total(a.start, b.start);
    lemma_le_total(a.end, b.end);
    lemma_le_total(low, high);
    if a.holds(value) && b.holds(value) {
        assert(low.is_le(&value));
        assert(value.is_le(&high));
        lemma_le_transitive(low, value, high);
    }
    if a.meet(b) matches Some(shared) && shared.holds(value) {
        assert(a.start.is_le(&low));
        assert(b.start.is_le(&low));
        assert(high.is_le(&a.end));
        assert(high.is_le(&b.end));
        lemma_le_transitive(a.start, low, value);
        lemma_le_transitive(b.start, low, value);
        lemma_le_transitive(value, high, a.end);
        lemma_le_transitive(value, high, b.end);
    }
}

/// Over a total order, of two values one is at most the other, and
/// `x > y` is the same as not `x <= y`.
pub proof fn lemma_le_total<T: PartialOrd>(x: T, y: T)
    requires
        is_total_order::<T>(),
    ensures
        x.is_le(&y) || y.is_le(&x),
        x.is_le(&x),
        x.is_gt(&y) <==> !x.is_le(&y),
        x.is_ge(&y) <==> y.is_le(&x),
{
    assert(x.partial_cmp_spec(&y) is Some);
    assert(y.partial_cmp_spec(&x) is Some);
    assert(x.partial_cmp_spec(&x) == Some(Ordering::Equal));
}

/// Over a total order `x <= y` and `y <= z` give `x <= z`.
pub proof fn lemma_le_transitive<T: PartialOrd>(x: T, y: T, z: T)
    requires
        is_total_order::<T>(),
        x.is_le(&y),
        y.is_le(&z),
    ensures
        x.is_le(&z),
{
}

/// Over a total order the smaller of two values is at most each of them,
/// and each of them is at most the larger.
pub proof fn lemma_min_max_bound<T: PartialOrd>(a: T, b: T)
    requires
        is_total_order::<T>(),
    ensures
        min_of(a, b).is_le(&a),
        min_of(a, b).is_le(&b),
        a.is_le(&max_of(a, b)),
        b.is_le(&max_of(a, b)),
{
    lemma_le_total(a, b);
    lemma_le_total(b, a);
}

/// Over a total order the least of four values is at most the greatest of
/// them.
pub proof fn lemma_least_le_greatest<T: PartialOrd>(p: T, q: T, r: T, s: T)
    requires
        is_total_order::<T>(),
    ensures
        least(p, q, r, s).is_le(&greatest(p, q, r, s)),
{
    let low2 = min_of(p, q);
    let low3 = min_of(low2, r);
    let high2 = max_of(p, q);
    let high3 = max_of(high2, r);
    lemma_min_max_bound(p, q);
    lemma_min_max_bound(low2, r);
    lemma_min_max_bound(low3, s);
    lemma_min_max_bound(high2, r);
    lemma_min_max_bound(high3, s);
    lemma_le_transitive(low3, low2, p);
    lemma_le_transitive(least(p, q, r, s), low3, p);
    lemma_le_transitive(p, high2, high3);
    lemma_le_transitive(p, high3, greatest(p, q, r, s));
    lemma_le_transitive(least(p, q, r, s), p, greatest(p, q, r, s));
}

/// Over a total order the product of two ranges is a valid range.
pub proof fn lemma_product_is_valid<T>(a: Interval<T>, b: Interval<T>) where
    T: PartialOrd + core::ops::Mul<Output = T>,

    requires
        is_total_order::<T>(),
    ensures
        a.product(b).is_valid(),
{
    lemma_least_le_greatest(
        a.start.mul_spec(b.start),
        a.start.mul_spec(b.end),
        a.end.mul_spec(b.start),
        a.end.mul_spec(b.end),
    );
}

/// Over a total order the quotient of two ranges is a valid range.
pub proof fn lemma_quotient_is_valid<T>(a: Interval<T>, b: Interval<T>) where
    T: PartialOrd + core::ops::Div<Output = T>,

    requires
        is_total_order::<T>(),
    ensures
        a.quotient(b).is_valid(),
{
    lemma_least_le_greatest(
        a.start.div_spec(b.start),
        a.start.div_spec(b.end),
        a.end.div_spec(b.start),
        a.end.div_spec(b.end),
    );
}

/// Over a total order a range contains its own bounds exactly when it is
/// valid.
pub proof fn lemma_valid_holds_bounds<T: PartialOrd>(a: Interval<T>)
    requires
        is_total_order::<T>(),
    ensures
        a.is_valid() <==> a.holds(a.start),
        a.is_valid() <==> a.holds(a.end),
{
    lemma_le_total(a.start, a.end);
    lemma_le_total(a.end, a.start);
}

/// The order of `T` is total on the values that compare with themselves,
/// as the order of floating-point numbers is on those that are numbers:
/// two values that compare at all compare with themselves, as equal; two
/// values that compare with themselves compare with each other; `x < y` is
/// the same as `y > x`; and `x <= y <= z` gives `x <= z`. Two values that
/// compare as equal need not be the same value.
pub open spec fn is_total_where_comparable<T: PartialOrd>() -> bool {
    &&& forall|x: T, y: T| (#[trigger] x.partial_cmp_spec(&y)) is Some ==> x.partial_cmp_spec(&x)
        == Some(Ordering::Equal) && y.partial_cmp_spec(&y) == Some(Ordering::Equal)
    &&& forall|x: T, y: T|
        x.partial_cmp_spec(&x) is Some && y.partial_cmp_spec(&y) is Some ==> (
        #[trigger] x.partial_cmp_spec(&y)) is Some
    &&& forall|x: T, y: T| #[trigger]
        x.partial_cmp_spec(&y) == Some(Ordering::Less) <==> y.partial_cmp_spec(&x) == Some(
            Ordering::Greater,
        )
    &&& forall|x: T, y: T, z: T|
        #![trigger x.partial_cmp_spec(&y), y.partial_cmp_spec(&z)]
        x.is_le(&y) && y.is_le(&z) ==> x.is_le(&z)
}

/// Two outcomes of an intersection are alike: both are empty, or the two
/// ranges have starts that compare as equal and ends that compare as equal.
pub open spec fn alike<T: PartialOrd>(x: Option<Interval<T>>, y: Option<Interval<T>>) -> bool {
    match (x, y) {
        (None, None) => true,
        (Some(p), Some(q)) => p.start.partial_cmp_spec(&q.start) == Some(Ordering::Equal)
            && p.end.partial_cmp_spec(&q.end) == Some(Ordering::Equal),
        _ => false,
    }
}

/// A total order is total where its values compare.
pub proof fn lemma_total_order_is_total_where_comparable<T: PartialOrd>()
    requires
        is_total_order::<T>(),
    ensures
        is_total_where_comparable::<T>(),
{
}

/// Two valid ranges overlap alike whichever of them is asked, over an
/// order that is total where its values compare.
pub proof fn lemma_intersection_commutes_alike<T: PartialOrd>(a: Interval<T>, b: Interval<T>)
    requires
        is_total_where_comparable::<T>(),
        a.is_valid(),
        b.is_valid(),
    ensures
        alike(a.meet(b), b.meet(a)),
{
    let low = max_of(a.start, b.start);
    let low2 = max_of(b.start, a.start);
    let high = min_of(a.end, b.end);
    let high2 = min_of(b.end, a.end);
    assert(a.start.partial_cmp_spec(&a.end) is Some);
    assert(b.start.partial_cmp_spec(&b.end) is Some);
    assert(a.start.partial_cmp_spec(&b.start) is Some);
    assert(b.start.partial_cmp_spec(&a.start) is Some);
    assert(a.end.partial_cmp_spec(&b.end) is Some);
    assert(b.end.partial_cmp_spec(&a.end) is Some);
    assert(low.partial_cmp_spec(&high) is Some);
    assert(low2.partial_cmp_spec(&high2) is Some);
    assert(low2.is_le(&low) && low.is_le(&low2));
    assert(high.is_le(&high2) && high2.is_le(&high));
}

} // verus!
