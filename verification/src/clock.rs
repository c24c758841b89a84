//! Stream clock: maps a stream-relative presentation timestamp to a pacing
//! delay measured from the instant decoding started.
//!
//! The stream's time base is an exact rational number of seconds per tick,
//! kept as an integer numerator and denominator; delays are computed in whole
//! microseconds, so no floating point is involved and every result is exact.

use vstd::prelude::*;
use vstd::arithmetic::div_mod::lemma_div_is_ordered;
use vstd::arithmetic::mul::lemma_mul_inequality;

verus! {

/// Microseconds in one second: the resolution at which delays are computed.
pub const MICROS_PER_SECOND: u64 = 1_000_000;

/// Converts presentation timestamps (ticks of the stream's time base) into
/// wall-clock delays from the start of decoding. Immutable once constructed.
#[derive(Clone, Copy, Debug)]
pub struct StreamClock {
    time_base_num: u32,
    time_base_den: u32,
}

impl StreamClock {
    /// Numerator of the time base (seconds per tick).
    pub closed spec fn num(self) -> int {
        self.time_base_num as int
    }

    /// Denominator of the time base (seconds per tick).
    pub closed spec fn den(self) -> int {
        self.time_base_den as int
    }

    /// A time base is a rational: its denominator is positive.
    pub open spec fn wf(self) -> bool {
        self.den() > 0
    }

    /// The instant, in microseconds from decode start, at which a frame with
    /// presentation timestamp `pts` is due: `pts * num / den` seconds.
    pub open spec fn target_micros(self, pts: int) -> int
        recommends
            self.wf(),
    {
        pts * self.num() * (MICROS_PER_SECOND as int) / self.den()
    }

    /// How long to wait before presenting a frame with timestamp `pts` when
    /// `elapsed_micros` microseconds have already passed since decode start:
    /// `max(0, target - elapsed)`, saturated at `u64::MAX`. A late frame
    /// yields a zero delay, never a negative one.
    pub open spec fn delay_micros(self, pts: int, elapsed_micros: int) -> int
        recommends
            self.wf(),
            elapsed_micros >= 0,
    {
        let due = self.target_micros(pts);
        if due <= elapsed_micros {
            0
        } else if due - elapsed_micros > u64::MAX {
            u64::MAX as int
        } else {
            due - elapsed_micros
        }
    }

    /// Builds the clock for a stream whose time base is
    /// `time_base_num / time_base_den` seconds per tick.
    pub fn new(time_base_num: u32, time_base_den: u32) -> (clock: Self)
        requires
            time_base_den > 0,
        ensures
            clock.wf(),
            clock.num() == time_base_num,
            clock.den() == time_base_den,
    {
        StreamClock { time_base_num, time_base_den }
    }

    /// Turns an optional presentation timestamp into an optional pacing
    /// delay, in microseconds. A frame without a timestamp has no timing
    /// information, so no delay is returned for it; otherwise the delay is
    /// exactly `delay_micros` of the timestamp and of the time already
    /// elapsed since decode start.
    pub fn convert_pts_to_instant(&self, pts: Option<i64>, elapsed_micros: u64) -> (delay: Option<
        u64,
    >)
        requires
            self.wf(),
        ensures
            delay is None <==> pts is None,
            (pts matches Some(p) ==> delay == Some(
                self.delay_micros(p as int, elapsed_micros as int) as u64,
            )),
    {
        match pts {
            None => None,
            Some(p) => {
                if p <= 0 {
                    proof {
                        self.lemma_nonpositive_pts_is_due(p as int);
                    }
                    Some(0)
                } else {
                    let ticks = p as u128;
                    let num = self.time_base_num as u128;
                    let den = self.time_base_den as u128;
                    proof {
                        assert((p as u128) * (self.time_base_num as u128) * (
                        MICROS_PER_SECOND as u128) <= u128::MAX && (p as u128) * (
                        self.time_base_num as u128) * (MICROS_PER_SECOND as u128) == p as int
                            * self.num() * (MICROS_PER_SECOND as int)) by (nonlinear_arith)
                            requires
                                0 < p as int <= i64::MAX as int,
                                0 <= self.num() <= u32::MAX as int,
                                p as u128 == p as int,
                                self.time_base_num as u128 == self.num(),
                        ;
                    }
                    let due: u128 = ticks * num * (MICROS_PER_SECOND as u128) / den;
                    if due <= elapsed_micros as u128 {
                        Some(0)
                    } else {
                        let diff: u128 = due - elapsed_micros as u128;
                        if diff > u64::MAX as u128 {
                            Some(u64::MAX)
                        } else {
                            Some(diff as u64)
                        }
                    }
                }
            },
        }
    }

    /// A frame whose timestamp is at or before the stream origin is already
    /// due: its target instant is not after decode start.
    proof fn lemma_nonpositive_pts_is_due(self, pts: int)
        requires
            self.wf(),
            pts <= 0,
        ensures
            self.target_micros(pts) <= 0,
    {
        assert(pts * self.num() * (MICROS_PER_SECOND as int) <= 0) by (nonlinear_arith)
            requires
                pts <= 0,
                self.num() >= 0,
        ;
        lemma_div_is_ordered(pts * self.num() * (MICROS_PER_SECOND as int), 0, self.den());
    }

    /// Pacing keeps stream order: at any one instant, a frame with a later
    /// (or equal) presentation timestamp never gets a shorter delay than an
    /// earlier one, so delays over a non-decreasing timestamp sequence are
    /// non-decreasing.
    pub proof fn lemma_delay_nondecreasing(self, pts1: int, pts2: int, elapsed_micros: int)
        requires
            self.wf(),
            pts1 <= pts2,
        ensures
            self.delay_micros(pts1, elapsed_micros) <= self.delay_micros(pts2, elapsed_micros),
    {
        lemma_mul_inequality(pts1, pts2, self.num());
        lemma_mul_inequality(pts1 * self.num(), pts2 * self.num(), MICROS_PER_SECOND as int);
        lemma_div_is_ordered(
            pts1 * self.num() * (MICROS_PER_SECOND as int),
            pts2 * self.num() * (MICROS_PER_SECOND as int),
            self.den(),
        );
    }
}

} // verus!
