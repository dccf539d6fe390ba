//! Control of the floating-point rounding mode.
//!
//! The rounding-mode register belongs to the platform. The library reaches
//! it through the two primitives of [`RoundingRegister`], so that a caller
//! decides which register is driven: the one of the hardware, or
//! [`SoftRegister`], which only remembers the code it was given.

use vstd::prelude::*;

verus! {

/// Platform code of round-to-nearest.
pub const CODE_TO_NEAREST: i32 = 0x0000;

/// Platform code of rounding toward negative infinity.
pub const CODE_DOWNWARD: i32 = 0x0400;

/// Platform code of rounding toward positive infinity.
pub const CODE_UPWARD: i32 = 0x0800;

/// Platform code of rounding toward zero.
pub const CODE_TOWARD_ZERO: i32 = 0x0C00;

/// Direction in which the result of a floating-point operation is rounded.
#[derive(Clone, Copy, Debug, PartialEq, Eq, Structural)]
pub enum Rounding {
    ToNearest,
    Downward,
    Upward,
    TowardZero,
}

/// The register refused a rounding code.
#[derive(Clone, Copy, Debug, PartialEq, Eq, Structural)]
pub struct RoundingError;

/// The register holds a code that is not one of the four rounding modes.
#[derive(Clone, Copy, Debug, PartialEq, Eq, Structural)]
pub struct UnknownModeError;

/// The two primitives of a platform's floating-point environment that deal
/// with the rounding mode: reading the register and writing it.
///
/// `supports` and `raw_mode` describe the register to the verifier. An
/// implementation in unverified code writes them as ordinary functions;
/// nothing calls them.
pub trait RoundingRegister {
    /// Whether the platform can round in the direction that `code` names.
    spec fn supports(code: i32) -> bool;

    /// The code that the register holds.
    spec fn raw_mode(&self) -> i32;

    /// Reads the register.
    fn read_mode(&self) -> (code: i32)
        ensures
            code == self.raw_mode(),
    ;

    /// Asks the register to hold `code`. The status is zero exactly when
    /// the platform supports the code, and only then does the register
    /// change.
    fn write_mode(&mut self, code: i32) -> (status: i32)
        ensures
            status == 0 <==> Self::supports(code),
            Self::supports(code) ==> final(self).raw_mode() == code,
            !Self::supports(code) ==> final(self).raw_mode() == old(self).raw_mode(),
    ;
}

impl Rounding {
    /// The platform code of a mode.
    pub open spec fn spec_code(self) -> i32 {
        match self {
            Rounding::ToNearest => CODE_TO_NEAREST,
            Rounding::Downward => CODE_DOWNWARD,
            Rounding::Upward => CODE_UPWARD,
            Rounding::TowardZero => CODE_TOWARD_ZERO,
        }
    }

    /// The mode that a platform code names, if it names one.
    pub open spec fn of_code(n: int) -> Option<Rounding> {
        if n == CODE_TO_NEAREST {
            Some(Rounding::ToNearest)
        } else if n == CODE_DOWNWARD {
            Some(Rounding::Downward)
        } else if n == CODE_UPWARD {
            Some(Rounding::Upward)
        } else if n == CODE_TOWARD_ZERO {
            Some(Rounding::TowardZero)
        } else {
            None
        }
    }

    /// Returns the platform code of this mode.
    #[verifier::when_used_as_spec(spec_code)]
    pub fn code(self) -> (c: i32)
        ensures
            c == self.spec_code(),
    {
        match self {
            Rounding::ToNearest => CODE_TO_NEAREST,
            Rounding::Downward => CODE_DOWNWARD,
            Rounding::Upward => CODE_UPWARD,
            Rounding::TowardZero => CODE_TOWARD_ZERO,
        }
    }

    /// Maps a platform code back to its mode.
    pub fn from_i64(n: i64) -> (r: Option<Rounding>)
        ensures
            r == Rounding::of_code(n as int),
    {
        if n == 0x0000 {
            Some(Rounding::ToNearest)
        } else if n == 0x0400 {
            Some(Rounding::Downward)
        } else if n == 0x0800 {
            Some(Rounding::Upward)
        } else if n == 0x0C00 {
            Some(Rounding::TowardZero)
        } else {
            None
        }
    }

    /// Maps an unsigned platform code back to its mode.
    pub fn from_u64(n: u64) -> (r: Option<Rounding>)
        ensures
            r == Rounding::of_code(n as int),
    {
        if n <= 0x0C00 {
            Rounding::from_i64(n as i64)
        } else {
            None
        }
    }

    /// Queries the register and names the mode that it holds.
    pub fn current<E: RoundingRegister>(env: &E) -> (r: Result<Rounding, UnknownModeError>)
        ensures
            r == match Rounding::of_code(env.raw_mode() as int) {
                Some(mode) => Ok::<Rounding, UnknownModeError>(mode),
                None => Err(UnknownModeError),
            },
    {
        match Rounding::from_i64(env.read_mode() as i64) {
            Some(mode) => Ok(mode),
            None => Err(UnknownModeError),
        }
    }

    /// Applies this mode to the register.
    pub fn set<E: RoundingRegister>(self, env: &mut E) -> (r: Result<(), RoundingError>)
        ensures
            r is Ok <==> E::supports(self.spec_code()),
            r is Ok ==> final(env).raw_mode() == self.spec_code(),
            r is Err ==> final(env).raw_mode() == old(env).raw_mode(),
    {
        let status: i32 = env.write_mode(self.code());
        if status == 0 {
            Ok(())
        } else {
            Err(RoundingError)
        }
    }

    /// Runs `body` with this mode applied, then puts back the code that the
    /// register held before the call, whatever `body` did to the register.
    ///
    /// Nothing is run when the register refuses the mode. When the register
    /// refuses to take the saved code back, the result of `body` is dropped
    /// and the register keeps what `body` left in it.
    pub fn execute<E: RoundingRegister, R, F: FnOnce(&mut E) -> R>(
        self,
        env: &mut E,
        body: F,
    ) -> (r: Result<R, RoundingError>)
        requires
            forall|e: &mut E| e.raw_mode() == self.spec_code() ==> #[trigger] body.requires((e,)),
        ensures
            r is Ok <==> E::supports(self.spec_code()) && E::supports(old(env).raw_mode()),
            E::supports(old(env).raw_mode()) ==> final(env).raw_mode() == old(env).raw_mode(),
            !E::supports(self.spec_code()) ==> final(env).raw_mode() == old(env).raw_mode(),
            r is Ok ==> (exists|e: &mut E|
                e.raw_mode() == self.spec_code() && #[trigger] body.ensures((e,), r->Ok_0)),
            r is Err && E::supports(self.spec_code()) ==> (exists|e: &mut E, out: R|
                e.raw_mode() == self.spec_code() && #[trigger] body.ensures((e,), out)
                    && final(env).raw_mode() == final(e).raw_mode()),
    {
        let saved: i32 = env.read_mode();
        if env.write_mode(self.code()) != 0 {
            return Err(RoundingError);
        }
        let ghost applied = *env;
        let out = body(env);
        assert(exists|e: &mut E|
            *e == applied && *final(e) == *env && #[trigger] body.ensures((e,), out));
        if env.write_mode(saved) != 0 {
            return Err(RoundingError);
        }
        let r: Result<R, RoundingError> = Ok(out);
        assert(r->Ok_0 == out);
        r
    }
}

/// The codes and the modes name each other.
pub proof fn lemma_code_round_trip(mode: Rounding)
    ensures
        Rounding::of_code(mode.spec_code() as int) == Some(mode),
{
}

/// A code that names a mode is the code of that mode.
pub proof fn lemma_of_code_is_code(n: int)
    ensures
        Rounding::of_code(n) matches Some(mode) ==> mode.spec_code() == n,
{
}

/// A rounding-mode register that lives in memory: it holds the last code
/// that it accepted, and it accepts the codes of the four modes.
#[derive(Clone, Copy, Debug, PartialEq, Eq, Structural)]
pub struct SoftRegister {
    pub raw: i32,
}

impl SoftRegister {
    /// A register that rounds to nearest.
    pub fn new() -> (r: SoftRegister)
        ensures
            r.raw == CODE_TO_NEAREST,
    {
        SoftRegister { raw: CODE_TO_NEAREST }
    }

    /// A register that holds `raw`, whether or not the code names a mode.
    pub fn holding(raw: i32) -> (r: SoftRegister)
        ensures
            r.raw == raw,
    {
        SoftRegister { raw }
    }
}

impl RoundingRegister for SoftRegister {
    open spec fn supports(code: i32) -> bool {
        Rounding::of_code(code as int) is Some
    }

    open spec fn raw_mode(&self) -> i32 {
        self.raw
    }

    fn read_mode(&self) -> (code: i32) {
        self.raw
    }

    fn write_mode(&mut self, code: i32) -> (status: i32) {
        match Rounding::from_i64(code as i64) {
            Some(_) => {
                self.raw = code;
                0
            },
            None => 1,
        }
    }
}

} // verus!
