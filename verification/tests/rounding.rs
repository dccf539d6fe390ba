use inter::rounding::{
    Rounding, RoundingError, RoundingRegister, SoftRegister, UnknownModeError, CODE_DOWNWARD,
    CODE_TOWARD_ZERO, CODE_TO_NEAREST, CODE_UPWARD,
};

/// A register of a platform that cannot round upward.
struct NoUpward {
    raw: i32,
}

impl RoundingRegister for NoUpward {
    fn supports(code: i32) -> bool {
        code == CODE_TO_NEAREST || code == CODE_DOWNWARD || code == CODE_TOWARD_ZERO
    }

    fn raw_mode(&self) -> i32 {
        self.raw
    }

    fn read_mode(&self) -> i32 {
        self.raw
    }

    fn write_mode(&mut self, code: i32) -> i32 {
        if Self::supports(code) {
            self.raw = code;
            0
        } else {
            1
        }
    }
}

#[test]
fn codes_of_the_modes() {
    assert_eq!(Rounding::ToNearest.code(), 0x0000);
    assert_eq!(Rounding::Downward.code(), 0x0400);
    assert_eq!(Rounding::Upward.code(), 0x0800);
    assert_eq!(Rounding::TowardZero.code(), 0x0C00);
    assert_eq!(CODE_TO_NEAREST, 0x0000);
    assert_eq!(CODE_DOWNWARD, 0x0400);
    assert_eq!(CODE_UPWARD, 0x0800);
    assert_eq!(CODE_TOWARD_ZERO, 0x0C00);
}

#[test]
fn modes_of_the_codes() {
    assert_eq!(Rounding::from_i64(0x0000), Some(Rounding::ToNearest));
    assert_eq!(Rounding::from_i64(0x0400), Some(Rounding::Downward));
    assert_eq!(Rounding::from_i64(0x0800), Some(Rounding::Upward));
    assert_eq!(Rounding::from_i64(0x0C00), Some(Rounding::TowardZero));
    assert_eq!(Rounding::from_i64(1), None);
    assert_eq!(Rounding::from_i64(-1), None);
    assert_eq!(Rounding::from_i64(0x0401), None);
    assert_eq!(Rounding::from_i64(i64::MIN), None);
    assert_eq!(Rounding::from_u64(0x0000), Some(Rounding::ToNearest));
    assert_eq!(Rounding::from_u64(0x0400), Some(Rounding::Downward));
    assert_eq!(Rounding::from_u64(0x0800), Some(Rounding::Upward));
    assert_eq!(Rounding::from_u64(0x0C00), Some(Rounding::TowardZero));
    assert_eq!(Rounding::from_u64(0x0C01), None);
    assert_eq!(Rounding::from_u64(u64::MAX), None);
}

#[test]
fn codes_and_modes_name_each_other() {
    for mode in [
        Rounding::ToNearest,
        Rounding::Downward,
        Rounding::Upward,
        Rounding::TowardZero,
    ] {
        assert_eq!(Rounding::from_i64(mode.code() as i64), Some(mode));
        assert_eq!(Rounding::from_u64(mode.code() as u64), Some(mode));
    }
}

#[test]
fn a_new_register_rounds_to_nearest() {
    let env = SoftRegister::new();
    assert_eq!(env.raw, 0);
    assert_eq!(env.read_mode(), 0);
    assert_eq!(Rounding::current(&env), Ok(Rounding::ToNearest));
}

#[test]
fn current_names_the_mode_of_the_register() {
    assert_eq!(
        Rounding::current(&SoftRegister::holding(0x0800)),
        Ok(Rounding::Upward)
    );
    assert_eq!(
        Rounding::current(&SoftRegister::holding(0x0C00)),
        Ok(Rounding::TowardZero)
    );
}

#[test]
fn current_refuses_an_unknown_code() {
    assert_eq!(
        Rounding::current(&SoftRegister::holding(0x0123)),
        Err(UnknownModeError)
    );
    assert_eq!(
        Rounding::current(&SoftRegister::holding(-1)),
        Err(UnknownModeError)
    );
}

#[test]
fn set_applies_the_mode() {
    let mut env = SoftRegister::new();
    assert_eq!(Rounding::Upward.set(&mut env), Ok(()));
    assert_eq!(env.raw, 0x0800);
    assert_eq!(Rounding::current(&env), Ok(Rounding::Upward));
    assert_eq!(Rounding::Downward.set(&mut env), Ok(()));
    assert_eq!(Rounding::current(&env), Ok(Rounding::Downward));
}

#[test]
fn set_reports_a_refusal() {
    let mut env = NoUpward { raw: CODE_DOWNWARD };
    assert_eq!(Rounding::Upward.set(&mut env), Err(RoundingError));
    assert_eq!(env.raw, CODE_DOWNWARD);
    assert_eq!(Rounding::TowardZero.set(&mut env), Ok(()));
    assert_eq!(env.raw, CODE_TOWARD_ZERO);
}

#[test]
fn the_soft_register_refuses_other_codes() {
    let mut env = SoftRegister::new();
    assert_eq!(env.write_mode(0x0400), 0);
    assert_eq!(env.raw, 0x0400);
    assert_ne!(env.write_mode(0x0401), 0);
    assert_eq!(env.raw, 0x0400);
}

#[test]
fn execute_runs_the_body_under_the_mode() {
    let mut env = SoftRegister::new();
    let seen = Rounding::Upward.execute(&mut env, |e: &mut SoftRegister| Rounding::current(e));
    assert_eq!(seen, Ok(Ok(Rounding::Upward)));
    assert_eq!(Rounding::current(&env), Ok(Rounding::ToNearest));
}

#[test]
fn execute_restores_the_mode() {
    let mut env = SoftRegister::new();
    assert_eq!(Rounding::TowardZero.set(&mut env), Ok(()));
    let out = Rounding::Downward.execute(&mut env, |_e: &mut SoftRegister| 42);
    assert_eq!(out, Ok(42));
    assert_eq!(Rounding::current(&env), Ok(Rounding::TowardZero));
}

#[test]
fn execute_restores_the_mode_that_the_body_changed() {
    let mut env = SoftRegister::new();
    assert_eq!(Rounding::Upward.set(&mut env), Ok(()));
    let out = Rounding::Downward.execute(&mut env, |e: &mut SoftRegister| {
        let inside = Rounding::current(e);
        let changed = Rounding::TowardZero.set(e);
        (inside, changed, Rounding::current(e))
    });
    assert_eq!(
        out,
        Ok((Ok(Rounding::Downward), Ok(()), Ok(Rounding::TowardZero)))
    );
    assert_eq!(Rounding::current(&env), Ok(Rounding::Upward));
}

#[test]
fn execute_nests() {
    let mut env = SoftRegister::new();
    let out = Rounding::Downward.execute(&mut env, |outer: &mut SoftRegister| {
        let inner = Rounding::Upward.execute(outer, |e: &mut SoftRegister| Rounding::current(e));
        (inner, Rounding::current(outer))
    });
    assert_eq!(out, Ok((Ok(Ok(Rounding::Upward)), Ok(Rounding::Downward))));
    assert_eq!(Rounding::current(&env), Ok(Rounding::ToNearest));
}

#[test]
fn execute_does_not_run_the_body_under_a_refused_mode() {
    let mut env = NoUpward { raw: CODE_DOWNWARD };
    let mut ran = false;
    let out = Rounding::Upward.execute(&mut env, |_e: &mut NoUpward| {
        ran = true;
    });
    assert_eq!(out, Err(RoundingError));
    assert!(!ran);
    assert_eq!(env.raw, CODE_DOWNWARD);
}

#[test]
fn execute_reports_a_code_that_cannot_be_put_back() {
    let mut env = SoftRegister::holding(7);
    let out = Rounding::Downward.execute(&mut env, |_e: &mut SoftRegister| 1);
    assert_eq!(out, Err(RoundingError));
    assert_eq!(env.raw, 0x0400);
    let mut env = SoftRegister::holding(7);
    let out = Rounding::Downward.execute(&mut env, |e: &mut SoftRegister| {
        Rounding::Upward.set(e)
    });
    assert_eq!(out, Err(RoundingError));
    assert_eq!(env.raw, 0x0800);
}
