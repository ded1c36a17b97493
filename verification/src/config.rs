//! The two rates that configure a scheduler, and the intervals they give.

use vstd::prelude::*;

verus! {

/// The nanoseconds in one second.
pub const BILLION: u64 = 1_000_000_000;

/// The updates per second that a new scheduler runs at.
pub const DEFAULT_UPS: u64 = 120;

/// The most frames per second that a new scheduler renders.
pub const DEFAULT_MAX_FPS: u64 = 60;

/// The number of updates per second: at least one, at most a billion.
///
/// This is the fixed update rate on average over time: a scheduler that lags
/// behind the clock commits updates until it has caught up.
#[derive(Clone, Copy, Debug, PartialEq, Eq)]
pub struct Ups(pub u64);

/// The maximum number of frames per second: at least one, at most a billion.
///
/// The frame rate can be lower, because the next frame is always scheduled from
/// the start of the previous one.
#[derive(Clone, Copy, Debug, PartialEq, Eq)]
pub struct MaxFps(pub u64);

/// Why a rate was turned down.
#[derive(Clone, Copy, Debug, PartialEq, Eq)]
pub enum ConfigurationError {
    /// Zero updates per second leave no interval between two updates.
    ZeroUpdatesPerSecond,
    /// Zero frames per second leave no interval between two frames.
    ZeroMaxFramesPerSecond,
    /// More than a billion updates per second leave an interval of less than
    /// a nanosecond, which the scheduler cannot count.
    UpdatesPerSecondTooHigh,
    /// More than a billion frames per second leave an interval of less than
    /// a nanosecond, which the scheduler cannot count.
    MaxFramesPerSecondTooHigh,
}

/// Whether a scheduler can run at this rate: it is positive, and its interval
/// is at least one nanosecond.
pub open spec fn valid_rate(rate: u64) -> bool {
    0 < rate <= BILLION
}

/// The whole nanoseconds between two events that come `rate` times a second.
pub open spec fn interval_ns(rate: u64) -> u64
    recommends
        valid_rate(rate),
{
    (BILLION / rate) as u64
}

/// The interval of a valid rate is at least one nanosecond and at most one
/// second, and it is the longest whole number of nanoseconds that fits `rate`
/// times into a second.
pub proof fn law_interval_bounds(rate: u64)
    requires
        valid_rate(rate),
    ensures
        1 <= interval_ns(rate) <= BILLION,
        interval_ns(rate) * rate <= BILLION,
        BILLION < (interval_ns(rate) + 1) * rate,
{
    let q = BILLION as int / rate as int;
    assert(q * rate <= BILLION && BILLION < (q + 1) * rate && 1 <= q <= BILLION) by (nonlinear_arith)
        requires
            q == BILLION as int / rate as int,
            0 < rate <= BILLION,
            BILLION == 1_000_000_000,
    ;
}

impl Ups {
    /// Why this rate is turned down, if it is.
    pub open spec fn refusal(self) -> Option<ConfigurationError> {
        if self.0 == 0 {
            Some(ConfigurationError::ZeroUpdatesPerSecond)
        } else if self.0 > BILLION {
            Some(ConfigurationError::UpdatesPerSecondTooHigh)
        } else {
            None
        }
    }

    /// The nanoseconds between two updates, or the reason why the rate is
    /// turned down: it is zero, or above one billion.
    pub fn interval(&self) -> (r: Result<u64, ConfigurationError>)
        ensures
            valid_rate(self.0) ==> r == Ok::<u64, ConfigurationError>(interval_ns(self.0)),
            self.0 == 0 ==> r == Err::<u64, ConfigurationError>(
                ConfigurationError::ZeroUpdatesPerSecond,
            ),
            self.0 > BILLION ==> r == Err::<u64, ConfigurationError>(
                ConfigurationError::UpdatesPerSecondTooHigh,
            ),
            r matches Ok(ns) ==> 0 < ns <= BILLION,
    {
        if self.0 == 0 {
            Err(ConfigurationError::ZeroUpdatesPerSecond)
        } else if self.0 > BILLION {
            Err(ConfigurationError::UpdatesPerSecondTooHigh)
        } else {
            proof {
                law_interval_bounds(self.0);
            }
            Ok(BILLION / self.0)
        }
    }
}

impl MaxFps {
    /// Why this rate is turned down, if it is.
    pub open spec fn refusal(self) -> Option<ConfigurationError> {
        if self.0 == 0 {
            Some(ConfigurationError::ZeroMaxFramesPerSecond)
        } else if self.0 > BILLION {
            Some(ConfigurationError::MaxFramesPerSecondTooHigh)
        } else {
            None
        }
    }

    /// The nanoseconds between two frame starts, or the reason why the rate
    /// is turned down: it is zero, or above one billion.
    pub fn interval(&self) -> (r: Result<u64, ConfigurationError>)
        ensures
            valid_rate(self.0) ==> r == Ok::<u64, ConfigurationError>(interval_ns(self.0)),
            self.0 == 0 ==> r == Err::<u64, ConfigurationError>(
                ConfigurationError::ZeroMaxFramesPerSecond,
            ),
            self.0 > BILLION ==> r == Err::<u64, ConfigurationError>(
                ConfigurationError::MaxFramesPerSecondTooHigh,
            ),
            r matches Ok(ns) ==> 0 < ns <= BILLION,
    {
        if self.0 == 0 {
            Err(ConfigurationError::ZeroMaxFramesPerSecond)
        } else if self.0 > BILLION {
            Err(ConfigurationError::MaxFramesPerSecondTooHigh)
        } else {
            proof {
                law_interval_bounds(self.0);
            }
            Ok(BILLION / self.0)
        }
    }
}

} // verus!
