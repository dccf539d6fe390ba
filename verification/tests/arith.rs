use inter::interval::Interval;
use inter::rounding::{
    Rounding, RoundingError, RoundingRegister, SoftRegister, CODE_DOWNWARD, CODE_TO_NEAREST,
    CODE_TOWARD_ZERO,
};

/// A register of a platform that cannot round upward.
struct Lame {
    raw: i32,
}

impl RoundingRegister for Lame {
    fn supports(code: i32) -> bool {
        code == CODE_TO_NEAREST || code == CODE_DOWNWARD || code == CODE_TOWARD_ZERO
    }

    fn raw_mode(&self) -> i32 {
        self.raw
    }

    fn read_mode(&self) -> i32 {
        self.raw
    }

    fn write_mode(&mut self, code: i32) -> i32 {
        if Self::supports(code) {
            self.raw = code;
            0
        } else {
            1
        }
    }
}

/// A register that counts how often each directed mode was applied.
struct Counting {
    raw: i32,
    downward: u32,
    upward: u32,
}

impl RoundingRegister for Counting {
    fn supports(_code: i32) -> bool {
        true
    }

    fn raw_mode(&self) -> i32 {
        self.raw
    }

    fn read_mode(&self) -> i32 {
        self.raw
    }

    fn write_mode(&mut self, code: i32) -> i32 {
        if code == 0x0400 {
            self.downward += 1;
        }
        if code == 0x0800 {
            self.upward += 1;
        }
        self.raw = code;
        0
    }
}

fn range(start: f64, end: f64) -> Interval<f64> {
    Interval::with_range(start, end).unwrap()
}

#[test]
fn sum_adds_bound_to_bound() {
    let mut env = SoftRegister::new();
    assert_eq!(range(-1., 2.).add(range(0.5, 0.75), &mut env), Ok(range(-0.5, 2.75)));
    assert_eq!(range(1., 2.).add(range(-5., -4.), &mut env), Ok(range(-4., -2.)));
}

#[test]
fn difference_subtracts_bound_from_bound() {
    let mut env = SoftRegister::new();
    assert_eq!(range(3., 4.).sub(range(1., 2.), &mut env), Ok(range(2., 2.)));
    assert_eq!(range(3., 10.).sub(range(1., 2.), &mut env), Ok(range(2., 8.)));
}

#[test]
fn difference_may_be_no_valid_range() {
    let mut env = SoftRegister::new();
    let d = range(1., 2.).sub(range(0., 5.), &mut env).unwrap();
    assert_eq!(d.start, 1.);
    assert_eq!(d.end, -3.);
}

#[test]
fn product_takes_the_extreme_corners() {
    let mut env = SoftRegister::new();
    assert_eq!(range(-1., 2.).mul(range(3., 4.), &mut env), Ok(range(-4., 8.)));
    assert_eq!(range(-2., -1.).mul(range(3., 4.), &mut env), Ok(range(-8., -3.)));
    assert_eq!(range(-2., 3.).mul(range(-5., 4.), &mut env), Ok(range(-15., 12.)));
    assert_eq!(range(-3., -2.).mul(range(-5., -4.), &mut env), Ok(range(8., 15.)));
}

#[test]
fn quotient_takes_the_extreme_corners() {
    let mut env = SoftRegister::new();
    assert_eq!(range(3., 4.).div(range(1., 2.), &mut env), Ok(range(1.5, 4.)));
    assert_eq!(range(-4., 2.).div(range(2., 4.), &mut env), Ok(range(-2., 1.)));
    assert_eq!(range(1., 2.).div(range(-4., -2.), &mut env), Ok(range(-1., -0.25)));
}

#[test]
fn division_by_a_range_with_zero_is_not_refused() {
    let mut env = SoftRegister::new();
    let q = range(1., 2.).div(range(0., 1.), &mut env).unwrap();
    assert_eq!(q.start, 1.);
    assert_eq!(q.end, f64::INFINITY);
    let z = range(0., 0.).div(range(0., 0.), &mut env).unwrap();
    assert!(z.start.is_nan());
    assert!(z.end.is_nan());
}

#[test]
fn negation_swaps_the_bounds() {
    assert_eq!(-range(-1., 3.), range(-3., 1.));
    assert_eq!(-range(0.5, 0.5), range(-0.5, -0.5));
    assert_eq!(-(-range(1., 2.)), range(1., 2.));
    assert_eq!(-Interval::with_range(2, 7).unwrap(), Interval { start: -7, end: -2 });
}

#[test]
fn operators_leave_the_mode_as_it_was() {
    let mut env = SoftRegister::new();
    assert_eq!(Rounding::TowardZero.set(&mut env), Ok(()));
    let (a, b) = (range(1., 2.), range(3., 4.));
    assert!(a.add(b, &mut env).is_ok());
    assert_eq!(Rounding::current(&env), Ok(Rounding::TowardZero));
    assert!(a.sub(b, &mut env).is_ok());
    assert_eq!(Rounding::current(&env), Ok(Rounding::TowardZero));
    assert!(a.mul(b, &mut env).is_ok());
    assert_eq!(Rounding::current(&env), Ok(Rounding::TowardZero));
    assert!(a.div(b, &mut env).is_ok());
    assert_eq!(Rounding::current(&env), Ok(Rounding::TowardZero));
}

#[test]
fn operators_round_each_bound_in_its_direction() {
    let (a, b) = (range(1., 2.), range(3., 4.));
    let mut env = Counting { raw: 0, downward: 0, upward: 0 };
    assert!(a.add(b, &mut env).is_ok());
    assert_eq!((env.downward, env.upward, env.raw), (1, 1, 0));
    assert!(a.sub(b, &mut env).is_ok());
    assert_eq!((env.downward, env.upward, env.raw), (2, 2, 0));
    assert!(a.mul(b, &mut env).is_ok());
    assert_eq!((env.downward, env.upward, env.raw), (3, 3, 0));
    assert!(a.div(b, &mut env).is_ok());
    assert_eq!((env.downward, env.upward, env.raw), (4, 4, 0));
}

#[test]
fn operators_report_a_refused_mode() {
    let (a, b) = (range(1., 2.), range(3., 4.));
    let mut env = Lame { raw: CODE_TOWARD_ZERO };
    assert_eq!(a.add(b, &mut env), Err(RoundingError));
    assert_eq!(a.sub(b, &mut env), Err(RoundingError));
    assert_eq!(a.mul(b, &mut env), Err(RoundingError));
    assert_eq!(a.div(b, &mut env), Err(RoundingError));
    assert_eq!(env.raw, CODE_TOWARD_ZERO);
}

#[test]
fn operators_report_a_code_that_cannot_be_put_back() {
    let (a, b) = (range(1., 2.), range(3., 4.));
    let mut env = SoftRegister::holding(5);
    assert_eq!(a.add(b, &mut env), Err(RoundingError));
    assert_eq!(env.raw, 0x0400);
    assert_eq!(a.mul(b, &mut SoftRegister::holding(5)), Err(RoundingError));
    assert_eq!(a.sub(b, &mut SoftRegister::holding(5)), Err(RoundingError));
    assert_eq!(a.div(b, &mut SoftRegister::holding(5)), Err(RoundingError));
}
