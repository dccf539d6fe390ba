//! The sine of a range, by a fixed number of steps of a recurrence over the
//! arithmetic of ranges.

use vstd::prelude::*;
use vstd::std_specs::cmp::{PartialOrdIs, PartialOrdSpec};
use vstd::std_specs::convert::FromSpec;
use vstd::std_specs::ops::{AddSpec, DivSpec, MulSpec, SubSpec};
use crate::arith::{can_round, code_after};
use crate::interval::{Interval, InvalidRangeError};
use crate::rounding::{RoundingError, RoundingRegister};
use crate::utils::{max_of, min_of, partial_max, partial_min};

verus! {

/// The step at which `sin` stops: it takes the steps 1, 2, ... below this
/// limit.
pub const SINE_LIMIT: u64 = 500_000;

/// Why no sine was computed.
#[derive(Clone, Copy, Debug, PartialEq, Eq, Structural)]
pub enum SineError {
    /// The register refused a rounding code.
    Rounding(RoundingError),
    /// A divisor of the recurrence does not compare with itself.
    InvalidRange(InvalidRangeError),
}

/// The four operators of `T` may be applied to any two values.
pub open spec fn is_total_arithmetic<T>() -> bool where
    T: core::ops::Add<Output = T> + core::ops::Sub<Output = T> + core::ops::Mul<
        Output = T,
    > + core::ops::Div<Output = T>,
 {
    &&& forall|a: T, b: T| #[trigger] a.add_req(b)
    &&& forall|a: T, b: T| #[trigger] a.sub_req(b)
    &&& forall|a: T, b: T| #[trigger] a.mul_req(b)
    &&& forall|a: T, b: T| #[trigger] a.div_req(b)
}

/// The operators, the comparison and the conversion of `T` are functions
/// of their arguments: each obeys its `..._spec`.
pub open spec fn is_exact_arithmetic<T>() -> bool where
    T: core::ops::Add<Output = T> + core::ops::Sub<Output = T> + core::ops::Mul<
        Output = T,
    > + core::ops::Div<Output = T> + PartialOrd + From<i8>,
 {
    &&& T::obeys_add_spec()
    &&& T::obeys_sub_spec()
    &&& T::obeys_mul_spec()
    &&& T::obeys_div_spec()
    &&& T::obeys_partial_cmp_spec()
    &&& T::obeys_from_spec()
}

/// `2 * i` in `T`, for `i >= 1`: the value 2 added up `i` times.
pub open spec fn twice<T>(i: nat) -> T where T: core::ops::Add<Output = T> + From<i8>
    decreases i,
{
    if i <= 1 {
        T::from_spec(2i8)
    } else {
        twice::<T>((i - 1) as nat).add_spec(T::from_spec(2i8))
    }
}

/// `2 * i * (2 * i + 1)` in `T`.
pub open spec fn divisor<T>(i: nat) -> T where
    T: core::ops::Add<Output = T> + core::ops::Mul<Output = T> + From<i8>,
 {
    twice::<T>(i).mul_spec(twice::<T>(i).add_spec(T::from_spec(1i8)))
}

/// A bound moved into `[-1, 1]`.
pub open spec fn clamped<T>(v: T) -> T where T: PartialOrd + From<i8> {
    min_of(max_of(v, T::from_spec(-1i8)), T::from_spec(1i8))
}

impl<T> Interval<T> where
    T: Copy + PartialOrd + core::ops::Add<Output = T> + core::ops::Sub<Output = T> + core::ops::Mul<
        Output = T,
    > + core::ops::Div<Output = T> + From<i8>,
 {
    /// Step `i` of the recurrence on the accumulator `acc`, where `square`
    /// is the square of the argument.
    pub open spec fn sine_step(square: Interval<T>, acc: Interval<T>, i: nat) -> Interval<T> {
        let d = divisor::<T>(i);
        let factor = square.quotient(Interval { start: d, end: d });
        if i % 2 == 0 {
            acc.product(factor).sum(acc)
        } else {
            acc.product(factor).difference(acc)
        }
    }

    /// The accumulator after the steps 1 to `n`.
    pub open spec fn sine_acc(self, n: nat) -> Interval<T>
        decreases n,
    {
        if n == 0 {
            self
        } else {
            Self::sine_step(self.product(self), self.sine_acc((n - 1) as nat), n)
        }
    }

    /// Whether each divisor of the steps 1 to `n` compares with itself.
    pub open spec fn divisors_ordered(n: nat) -> bool {
        forall|j: nat| 1 <= j <= n ==> (#[trigger] divisor::<T>(j)).is_le(&divisor::<T>(j))
    }

    /// What `sin_up_to` returns over exact arithmetic, given whether the
    /// register can round.
    pub open spec fn sine_of(self, limit: nat, rounds: bool) -> Result<Interval<T>, SineError> {
        let n = if limit == 0 {
            0nat
        } else {
            (limit - 1) as nat
        };
        if !rounds {
            Err(SineError::Rounding(RoundingError))
        } else if !Self::divisors_ordered(n) {
            Err(SineError::InvalidRange(InvalidRangeError))
        } else {
            Ok(
                Interval {
                    start: clamped(self.sine_acc(n).start),
                    end: clamped(self.sine_acc(n).end),
                },
            )
        }
    }

    /// One step of the recurrence: `acc * factor + acc` for an even step,
    /// `acc * factor - acc` for an odd one, where `factor` is `square`
    /// divided by the range that holds `d` alone.
    fn sine_next<E: RoundingRegister>(
        square: Interval<T>,
        acc: Interval<T>,
        even: bool,
        d: T,
        env: &mut E,
    ) -> (r: Result<Interval<T>, SineError>)
        requires
            is_total_arithmetic::<T>(),
            can_round::<E>(old(env).raw_mode()),
        ensures
            final(env).raw_mode() == old(env).raw_mode(),
            !(r matches Err(SineError::Rounding(_))),
            is_exact_arithmetic::<T>() ==> r == (if !d.is_le(&d) {
                Err::<Interval<T>, SineError>(SineError::InvalidRange(InvalidRangeError))
            } else {
                let factor = square.quotient(Interval { start: d, end: d });
                if even {
                    Ok(acc.product(factor).sum(acc))
                } else {
                    Ok(acc.product(factor).difference(acc))
                }
            }),
    {
        let point = match Interval::exact(d) {
            Ok(v) => v,
            Err(e) => { return Err(SineError::InvalidRange(e)); },
        };
        let factor = match square.div(point, env) {
            Ok(v) => v,
            Err(e) => { return Err(SineError::Rounding(e)); },
        };
        let scaled = match acc.mul(factor, env) {
            Ok(v) => v,
            Err(e) => { return Err(SineError::Rounding(e)); },
        };
        let next = if even {
            scaled.add(acc, env)
        } else {
            scaled.sub(acc, env)
        };
        match next {
            Ok(v) => Ok(v),
            Err(e) => Err(SineError::Rounding(e)),
        }
    }

    /// The sine of the range by the steps 1, 2, ... below `limit`, with
    /// both bounds of the outcome moved into `[-1, 1]`.
    pub fn sin_up_to<E: RoundingRegister>(self, env: &mut E, limit: u64) -> (r: Result<
        Interval<T>,
        SineError,
    >)
        requires
            is_total_arithmetic::<T>(),
        ensures
            r matches Err(SineError::Rounding(_)) <==> !can_round::<E>(old(env).raw_mode()),
            final(env).raw_mode() == code_after::<E>(old(env).raw_mode()),
            is_exact_arithmetic::<T>() ==> r == self.sine_of(
                limit as nat,
                can_round::<E>(old(env).raw_mode()),
            ),
    {
        let ghost saved = env.raw_mode();
        let square = match self.mul(self, env) {
            Ok(v) => v,
            Err(e) => { return Err(SineError::Rounding(e)); },
        };
        let one = T::from(1i8);
        let two = T::from(2i8);
        let mut acc = self;
        let mut doubled = two;
        let mut i: u64 = 1;
        while i < limit
            invariant
                is_total_arithmetic::<T>(),
                can_round::<E>(saved),
                saved == old(env).raw_mode(),
                env.raw_mode() == saved,
                1 <= i,
                limit >= 1 ==> i <= limit,
                limit == 0 ==> i == 1,
                is_exact_arithmetic::<T>() ==> {
                    &&& one == T::from_spec(1i8)
                    &&& two == T::from_spec(2i8)
                    &&& square == self.product(self)
                    &&& doubled == twice::<T>((i - 1) as nat)
                    &&& acc == self.sine_acc((i - 1) as nat)
                    &&& Self::divisors_ordered((i - 1) as nat)
                },
            decreases limit - i,
        {
            if i > 1 {
                doubled = doubled + two;
            }
            let d = doubled * (doubled + one);
            let next = Self::sine_next(square, acc, i % 2 == 0, d, env);
            proof {
                if is_exact_arithmetic::<T>() {
                    assert(doubled == twice::<T>(i as nat));
                    assert(d == divisor::<T>(i as nat));
                    if next is Ok {
                        assert(next->Ok_0 == self.sine_acc(i as nat));
                        assert(Self::divisors_ordered(i as nat));
                    } else {
                        assert(!Self::divisors_ordered((limit - 1) as nat));
                    }
                }
            }
            acc = match next {
                Ok(v) => v,
                Err(e) => {
                    return Err(e);
                },
            };
            i = i + 1;
        }
        let low = T::from(-1i8);
        Ok(
            Interval {
                start: partial_min(partial_max(acc.start, low), one),
                end: partial_min(partial_max(acc.end, low), one),
            },
        )
    }

    /// The sine of the range by the steps below `SINE_LIMIT`.
    pub fn sin<E: RoundingRegister>(self, env: &mut E) -> (r: Result<Interval<T>, SineError>)
        requires
            is_total_arithmetic::<T>(),
        ensures
            r matches Err(SineError::Rounding(_)) <==> !can_round::<E>(old(env).raw_mode()),
            final(env).raw_mode() == code_after::<E>(old(env).raw_mode()),
            is_exact_arithmetic::<T>() ==> r == self.sine_of(
                SINE_LIMIT as nat,
                can_round::<E>(old(env).raw_mode()),
            ),
    {
        self.sin_up_to(env, SINE_LIMIT)
    }
}

} // verus!
