//! The time base: a reference timestamp paired with a reference
//! seconds-of-day, and the extrapolation of the current clock from it.

use vstd::prelude::*;
use vstd::arithmetic::div_mod::lemma_mod_mod;

verus! {

/// Seconds in a day.
pub const SECONDS_PER_DAY: u32 = 86400;

/// The latency bias, in milliseconds, added to the elapsed time before
/// extrapolation; it compensates for the delay between the frame's stamped
/// edge and the glyphs reaching the display.
pub const RENDER_BIAS_MS: u64 = 25;

/// The mapping `clock = clock0 + (now - system_time0) / 1000`, established
/// by a successfully decoded frame. `clock` counts seconds of the day,
/// interpreted modulo 86 400.
#[derive(Copy, Clone, Debug, Eq, PartialEq, Structural)]
pub struct TimeBase {
    /// Millisecond timestamp of the reference moment.
    pub system_time: u64,
    /// Seconds-of-day at the reference moment.
    pub clock: u32,
}

/// The seconds-of-day a time base extrapolates to at time `now`:
/// `(clock + (now - system_time + 25) / 1000) mod 86400`.
pub open spec fn extrapolated_clock(tb: TimeBase, now: u64) -> int {
    ((tb.clock as int) + ((now as int) - (tb.system_time as int) + 25) / 1000) % 86400
}

impl TimeBase {
    /// The current seconds-of-day extrapolated from this time base.
    pub fn extrapolate(&self, now: u64) -> (r: u32)
        requires
            self.system_time <= now,
            now <= u64::MAX - 25,
        ensures
            r == extrapolated_clock(*self, now),
            r < 86400,
    {
        let diff: u64 = (now - self.system_time + RENDER_BIAS_MS) / 1000;
        assert(diff <= u64::MAX / 1000);
        let total: u64 = (self.clock as u64) + diff;
        (total % (SECONDS_PER_DAY as u64)) as u32
    }
}

/// Split a seconds-of-day count into hours, minutes and seconds.
pub fn split_clock(t: u32) -> (r: (u32, u32, u32))
    requires
        t < 86400,
    ensures
        r.0 == t / 3600,
        r.1 == (t / 60) % 60,
        r.2 == t % 60,
        r.0 < 24,
        r.1 < 60,
        r.2 < 60,
{
    let hour = t / 3600;
    let rem = t % 3600;
    let minute = rem / 60;
    let sec = rem % 60;
    proof {
        lemma_mod_mod(t as int, 60, 60);
        assert((t as int) % 3600 == (t as int) % (60int * 60int));
        assert(rem == 60 * ((t as int / 60) % 60) + (t as int) % 60) by {
            vstd::arithmetic::div_mod::lemma_breakdown(t as int, 60, 60);
        }
    }
    (hour, minute, sec)
}

} // verus!
