//! The tick clock: turns the time that has passed, measured in
//! microseconds, into the whole milliseconds that a tick of the match takes.

use vstd::prelude::*;
use crate::units::MAX_TICK_MS;

verus! {

/// Microseconds in one millisecond.
pub const MICROS_PER_MILLI: u16 = 1_000;

/// The part of a millisecond that has passed but has not yet been handed to
/// a tick.
#[derive(Clone, Copy, Debug, PartialEq, Eq, Structural)]
pub struct TickClock {
    pub carry_micros: u16,
}

impl Default for TickClock {
    fn default() -> (clock: Self)
        ensures
            clock == (TickClock { carry_micros: 0 }),
            clock.wf(),
    {
        TickClock { carry_micros: 0 }
    }
}

impl TickClock {
    /// The clock carries less than a millisecond.
    pub open spec fn wf(&self) -> bool {
        self.carry_micros < MICROS_PER_MILLI
    }

    /// The time on the clock once `delta_micros` more have passed.
    pub open spec fn pending(&self, delta_micros: u64) -> int {
        self.carry_micros + delta_micros
    }

    /// The milliseconds that the next tick takes: the whole milliseconds on
    /// the clock, or the longest tick if more have passed than one tick
    /// can take. What is cut off is not made up for later.
    pub open spec fn elapsed_ms(&self, delta_micros: u64) -> int {
        vstd::math::min(self.pending(delta_micros) / (MICROS_PER_MILLI as int), MAX_TICK_MS as int)
    }

    /// Adds `delta_micros` to the clock and takes the whole milliseconds
    /// off it for the next tick. The rest of less than a millisecond stays
    /// on the clock.
    pub fn advance(&mut self, delta_micros: u64) -> (elapsed_ms: u16)
        requires
            old(self).wf(),
        ensures
            elapsed_ms == old(self).elapsed_ms(delta_micros),
            final(self).carry_micros == old(self).pending(delta_micros) % (MICROS_PER_MILLI as int),
            final(self).wf(),
            old(self).pending(delta_micros) < 65_536_000 ==> old(self).pending(delta_micros)
                == elapsed_ms * 1_000 + final(self).carry_micros,
    {
        let pending: u128 = self.carry_micros as u128 + delta_micros as u128;
        let whole: u128 = pending / 1_000;
        self.carry_micros = (pending % 1_000) as u16;
        if whole > MAX_TICK_MS as u128 {
            MAX_TICK_MS
        } else {
            whole as u16
        }
    }
}

} // verus!
