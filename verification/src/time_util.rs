//! Monotonic timestamps, measured in whole microseconds.
//!
//! The surrounding process reads the OS monotonic clock and converts to and
//! from its native time representations; the core only ever sees these
//! integer timestamps, so all timing arithmetic here is exact.

use vstd::prelude::*;
use vstd::arithmetic::div_mod::{lemma_fundamental_div_mod, lemma_mod_division_less_than_divisor};

verus! {

/// Largest timestamp the core accepts, in microseconds (a little over
/// three years of uptime). Keeping clock readings under this bound keeps
/// every product of a velocity and an elapsed span inside `i64`.
pub const TIME_MAX: i64 = 100_000_000_000_000;

/// An instant (or span) in microseconds. Usually holds
/// microseconds-since-boot of the monotonic clock, but differences of
/// instants are carried in the same type.
#[derive(Copy, Clone, Debug, PartialEq, Eq, Structural)]
pub struct Time {
    pub micros: i64,
}

impl View for Time {
    type V = int;

    open spec fn view(&self) -> int {
        self.micros as int
    }
}

impl Time {
    /// Wrap a raw microsecond count.
    pub fn from_micros(micros: i64) -> (t: Time)
        ensures
            t@ == micros as int,
    {
        Time { micros }
    }

    /// The elapsed span from `earlier` to `self`.
    pub fn since(&self, earlier: Time) -> (d: i64)
        requires
            i64::MIN <= self@ - earlier@ <= i64::MAX,
        ensures
            d as int == self@ - earlier@,
    {
        self.micros - earlier.micros
    }

    /// The instant `micros` earlier than `self`.
    pub fn back_by(&self, micros: i64) -> (t: Time)
        requires
            i64::MIN <= self@ - micros <= i64::MAX,
        ensures
            t@ == self@ - micros,
    {
        Time { micros: self.micros - micros }
    }

    /// The OS clock's (seconds, nanoseconds) reading as a timestamp,
    /// clamped into the accepted range.
    pub fn from_parts(sec: i64, nanos: i64) -> (t: Time)
        requires
            0 <= nanos < 1_000_000_000,
        ensures
            t@ == clamp_to_range(sec * 1_000_000 + nanos / 1000),
    {
        proof {
            lemma_fundamental_div_mod(nanos as int, 1000);
            lemma_mod_division_less_than_divisor(nanos as int, 1000);
        }
        let sub_micros: i64 = ((nanos as u64) / 1000) as i64;
        if sec < 0 {
            proof {
                assert(sec * 1_000_000 <= -1_000_000) by (nonlinear_arith)
                    requires sec <= -1;
            }
            Time { micros: 0 }
        } else if sec > TIME_MAX / 1_000_000 {
            proof {
                assert(sec * 1_000_000 >= (TIME_MAX / 1_000_000 + 1) * 1_000_000)
                    by (nonlinear_arith)
                    requires sec >= TIME_MAX / 1_000_000 + 1;
            }
            Time { micros: TIME_MAX }
        } else {
            let micros = sec * 1_000_000 + sub_micros;
            proof {
                assert(sec * 1_000_000 <= (TIME_MAX / 1_000_000) * 1_000_000)
                    by (nonlinear_arith)
                    requires 0 <= sec <= TIME_MAX / 1_000_000;
            }
            if micros > TIME_MAX {
                Time { micros: TIME_MAX }
            } else {
                Time { micros }
            }
        }
    }

    /// This timestamp as the device protocol's (seconds, microseconds)
    /// pair: the unique split with a microsecond part in `[0, 1000000)`.
    pub fn to_parts(&self) -> (r: (i64, i64))
        requires
            i64::MIN < self@,
        ensures
            r.0 * 1_000_000 + r.1 == self@,
            0 <= r.1 < 1_000_000,
    {
        if self.micros >= 0 {
            let m = self.micros as u64;
            let sec = m / 1_000_000;
            let micros = m % 1_000_000;
            proof {
                lemma_fundamental_div_mod(m as int, 1_000_000);
                lemma_mod_division_less_than_divisor(m as int, 1_000_000);
                vstd::arithmetic::div_mod::lemma_div_nonincreasing(m as int, 1_000_000);
            }
            (sec as i64, micros as i64)
        } else {
            let m = (-self.micros) as u64;
            // Split the magnitude, then round the seconds away from zero
            // so the microsecond part stays nonnegative.
            let sec = m / 1_000_000;
            let micros = m % 1_000_000;
            proof {
                lemma_fundamental_div_mod(m as int, 1_000_000);
                lemma_mod_division_less_than_divisor(m as int, 1_000_000);
                vstd::arithmetic::div_mod::lemma_div_nonincreasing(m as int, 1_000_000);
            }
            if micros == 0 {
                (-(sec as i64), 0)
            } else {
                (-(sec as i64) - 1, 1_000_000 - (micros as i64))
            }
        }
    }
}

/// A raw microsecond count clamped into the accepted timestamp range.
pub open spec fn clamp_to_range(v: int) -> int {
    if v < 0 {
        0
    } else if v > TIME_MAX as int {
        TIME_MAX as int
    } else {
        v
    }
}

} // verus!
