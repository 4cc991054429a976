//! The countdown of a match.

use vstd::prelude::*;

verus! {

/// Seconds on the clock when a match begins.
pub const COUNTDOWN_TIMER_START: u16 = 30;

/// The clock of a match: the seconds left, and whether the end of the
/// countdown has been announced.
#[derive(Clone, Copy, Debug, PartialEq, Eq, Structural)]
pub struct CountdownTimer {
    pub remaining: u16,
    pub done: bool,
}

/// What a step of the countdown asks of its surroundings.
#[derive(Clone, Copy, Debug, PartialEq, Eq, Structural)]
pub enum CountdownUpdate {
    /// Nothing has changed.
    Unchanged,
    /// The clock now shows this many seconds.
    Remaining(u16),
    /// The countdown is complete: the match is over.
    Complete,
}

impl Default for CountdownTimer {
    fn default() -> (timer: Self)
        ensures
            timer == (CountdownTimer { remaining: COUNTDOWN_TIMER_START, done: false }),
    {
        CountdownTimer { remaining: COUNTDOWN_TIMER_START, done: false }
    }
}

impl CountdownTimer {
    /// The clock after a step. It moves only when the second timer has
    /// fired: it then counts down by one, and on the firing after it has
    /// reached zero it is done.
    pub open spec fn after_tick(&self, timer_fired: bool) -> CountdownTimer {
        if !timer_fired || self.done {
            *self
        } else if self.remaining > 0 {
            CountdownTimer { remaining: (self.remaining - 1) as u16, done: false }
        } else {
            CountdownTimer { remaining: 0, done: true }
        }
    }

    /// What a step reports: the new reading when the clock has counted
    /// down, the end of the countdown when it has just become done, and
    /// nothing otherwise.
    pub open spec fn update(&self, timer_fired: bool) -> CountdownUpdate {
        if !timer_fired || self.done {
            CountdownUpdate::Unchanged
        } else if self.remaining > 0 {
            CountdownUpdate::Remaining((self.remaining - 1) as u16)
        } else {
            CountdownUpdate::Complete
        }
    }

    /// Steps the clock. `timer_fired` tells whether the second timer has
    /// fired in this tick.
    pub fn tick(&mut self, timer_fired: bool) -> (update: CountdownUpdate)
        ensures
            *final(self) == old(self).after_tick(timer_fired),
            update == old(self).update(timer_fired),
            final(self).remaining <= old(self).remaining,
            old(self).done ==> final(self).done,
            update == CountdownUpdate::Complete <==> !old(self).done && final(self).done,
    {
        if timer_fired && !self.done {
            if self.remaining > 0 {
                self.remaining = self.remaining - 1;
                CountdownUpdate::Remaining(self.remaining)
            } else {
                self.done = true;
                CountdownUpdate::Complete
            }
        } else {
            CountdownUpdate::Unchanged
        }
    }
}

} // verus!
