use inter::arith::{greatest_of, least_of};
use inter::utils::{partial_max, partial_min};

#[test]
fn partial_min_selects_the_smaller() {
    assert_eq!(partial_min(1, 2), 1);
    assert_eq!(partial_min(2, 1), 1);
    assert_eq!(partial_min(3, 3), 3);
    assert_eq!(partial_min(-1.5, 2.5), -1.5);
    assert_eq!(partial_min("b", "a"), "a");
}

#[test]
fn partial_max_selects_the_larger() {
    assert_eq!(partial_max(1, 2), 2);
    assert_eq!(partial_max(2, 1), 2);
    assert_eq!(partial_max(3, 3), 3);
    assert_eq!(partial_max(-1.5, 2.5), 2.5);
    assert_eq!(partial_max("b", "a"), "b");
}

#[test]
fn values_that_do_not_compare_give_the_second() {
    assert_eq!(partial_min(f64::NAN, 2.), 2.);
    assert!(partial_min(2., f64::NAN).is_nan());
    assert_eq!(partial_max(f64::NAN, 2.), 2.);
    assert!(partial_max(2., f64::NAN).is_nan());
}

#[test]
fn values_that_compare_as_equal_give_the_first() {
    assert!(partial_min(0.0f64, -0.0).is_sign_positive());
    assert!(partial_min(-0.0f64, 0.0).is_sign_negative());
    assert!(partial_max(0.0f64, -0.0).is_sign_positive());
    assert!(partial_max(-0.0f64, 0.0).is_sign_negative());
}

#[test]
fn least_and_greatest_of_four() {
    assert_eq!(least_of(3, 4, 6, 8), 3);
    assert_eq!(least_of(-3, -4, 6, 8), -4);
    assert_eq!(least_of(9, 7, 5, 1), 1);
    assert_eq!(greatest_of(3, 4, 6, 8), 8);
    assert_eq!(greatest_of(-3, -4, 6, -8), 6);
    assert_eq!(greatest_of(9, 7, 5, 1), 9);
    assert_eq!(least_of(1.5, 3., 2., 4.), 1.5);
    assert_eq!(greatest_of(1.5, 3., 2., 4.), 4.);
}
