//! Relative time for delivered frames.
//!
//! Frame callbacks carry an absolute host-clock tick count. The first
//! event's tick count becomes the session's baseline, every later event is
//! reported relative to it, and tick counts convert to nanoseconds through
//! the host timebase ratio `numer / denom`.

use vstd::prelude::*;

verus! {

/// The host timebase: one clock tick lasts `numer / denom` nanoseconds.
#[derive(Copy, Clone, Debug, PartialEq, Eq, Structural)]
pub struct MachTimebase {
    pub numer: u32,
    pub denom: u32,
}

impl MachTimebase {
    /// Converts a tick count to whole nanoseconds, rounding down.
    pub fn ticks_to_nanos(&self, ticks: u64) -> (r: u64)
        requires
            self.denom > 0,
            ticks * self.numer / (self.denom as int) <= u64::MAX,
        ensures
            r == ticks * self.numer / (self.denom as int),
    {
        proof {
            assert(ticks * self.numer <= u64::MAX * u32::MAX) by (nonlinear_arith)
                requires
                    0 <= ticks <= u64::MAX,
                    0 <= self.numer <= u32::MAX,
            ;
        }
        let wide: u128 = ticks as u128 * self.numer as u128;
        (wide / self.denom as u128) as u64
    }
}

/// The baseline for relative timestamps: the tick count of the first event
/// seen. Later events report their distance from it; a tick count that
/// runs behind the baseline reports zero rather than wrapping.
#[derive(Clone, Debug)]
pub struct RelativeTimer {
    pub first: Option<u64>,
}

impl RelativeTimer {
    pub fn new() -> (r: RelativeTimer)
        ensures
            r.first is None,
    {
        RelativeTimer { first: None }
    }

    /// Notes one event's absolute tick count and returns its distance from
    /// the baseline; the first event establishes the baseline and is at
    /// distance zero.
    pub fn note(&mut self, ticks: u64) -> (rel: u64)
        ensures
            match old(self).first {
                None => rel == 0 && final(self).first == Some(ticks),
                Some(f) => {
                    &&& *final(self) == *old(self)
                    &&& rel == if ticks >= f {
                        ticks - f
                    } else {
                        0
                    }
                },
            },
    {
        match self.first {
            None => {
                self.first = Some(ticks);
                0
            },
            Some(f) => {
                if ticks >= f {
                    ticks - f
                } else {
                    0
                }
            },
        }
    }
}

} // verus!
