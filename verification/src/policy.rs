//! Restart, backoff and admission policies of a submission.

use vstd::prelude::*;

verus! {

/// When a task is run again after an attempt has ended.
#[derive(Clone, Copy, Debug, PartialEq, Eq, Structural)]
#[allow(inconsistent_fields)]
pub enum RestartStrategy {
    /// Never: every outcome is final.
    Never,
    /// Only after a failure or a timeout.
    OnFailure,
    /// After every exit; after a success the next run waits `interval_ms`
    /// where it is given, and the backoff delay where it is not.
    Always { interval_ms: Option<u64> },
    /// After every exit, `interval_ms` after a success.
    Periodic { interval_ms: u64 },
}

impl RestartStrategy {
    /// Restart on every exit, `interval_ms` after a success.
    pub fn periodic(interval_ms: u64) -> (r: Self)
        ensures
            r == (RestartStrategy::Periodic { interval_ms }),
    {
        RestartStrategy::Periodic { interval_ms }
    }
}

/// How the backoff delay is randomised.
#[derive(Clone, Copy, Debug, PartialEq, Eq, Structural)]
pub enum JitterStrategy {
    /// The delay as computed.
    Off,
    /// Uniform between zero and the delay.
    Full,
    /// Half the delay plus uniform up to the other half.
    Equal,
    /// Uniform between the first delay and three times the previous one.
    Decorrelated,
}

/// Growth factor of the backoff delay: a double-precision number, held as
/// its IEEE-754 bit pattern.
#[derive(Clone, Copy, Debug, PartialEq, Eq, Structural)]
pub struct Factor {
    /// The bit pattern of the number.
    pub bits: u64,
}

/// Bit pattern of positive infinity: the largest pattern of a number
/// greater than zero.
pub const FACTOR_INFINITY_BITS: u64 = 0x7FF0_0000_0000_0000;

/// Bit pattern of `1.0`.
pub const FACTOR_ONE_BITS: u64 = 0x3FF0_0000_0000_0000;

/// Bit pattern of `2.0`.
pub const FACTOR_TWO_BITS: u64 = 0x4000_0000_0000_0000;

impl Factor {
    /// The number is greater than zero: its sign bit is clear, it is not
    /// zero and it is not a NaN.
    pub open spec fn positive(self) -> bool {
        0 < self.bits <= FACTOR_INFINITY_BITS
    }

    /// The factor with bit pattern `bits`.
    pub fn from_bits(bits: u64) -> (r: Self)
        ensures
            r == (Factor { bits }),
    {
        Factor { bits }
    }

    /// The bit pattern of the factor.
    pub fn to_bits(&self) -> (r: u64)
        ensures
            r == self.bits,
    {
        self.bits
    }

    /// Whether the factor is greater than zero.
    pub fn is_positive(&self) -> (r: bool)
        ensures
            r == self.positive(),
    {
        0 < self.bits && self.bits <= FACTOR_INFINITY_BITS
    }
}

/// Delay between retries: `first_ms` at first, multiplied by `factor`
/// each time, never above `max_ms`.
#[derive(Clone, Copy, Debug, PartialEq, Eq, Structural)]
pub struct BackoffStrategy {
    pub jitter: JitterStrategy,
    pub first_ms: u64,
    pub max_ms: u64,
    pub factor: Factor,
}

impl BackoffStrategy {
    /// Both delays and the factor are greater than zero.
    pub open spec fn valid(self) -> bool {
        self.first_ms > 0 && self.max_ms > 0 && self.factor.positive()
    }

    /// Whether both delays and the factor are greater than zero.
    pub fn is_valid(&self) -> (r: bool)
        ensures
            r == self.valid(),
    {
        self.first_ms > 0 && self.max_ms > 0 && self.factor.is_positive()
    }
}

/// What happens to a submission whose slot is busy.
#[derive(Clone, Copy, Debug, PartialEq, Eq, Structural)]
pub enum AdmissionStrategy {
    /// The submission is rejected.
    DropIfRunning,
    /// The running task is canceled and the submission takes its place.
    Replace,
    /// The submission waits its turn.
    Queue,
}

} // verus!
