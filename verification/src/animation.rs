//! The animation step of a fighter, driven by the fighter's frame timer.

use vstd::prelude::*;
use crate::fighter::Fighter;
use crate::frames::{
    attack_audio_frame, attack_audio_frame_spec, frame_range_spec, lemma_frame_ranges_disjoint,
    next_frame, next_frame_spec,
};
use crate::state::State;

verus! {

/// What one firing of the frame timer did to the animation of a fighter.
#[derive(Clone, Copy, Debug, PartialEq, Eq, Structural)]
pub struct FrameUpdate {
    /// The frame now shown.
    pub frame: usize,
    /// Whether the animation wrapped round to its first frame.
    pub looped: bool,
    /// Whether the frame is the one at which the attack is heard.
    pub attack_sound: bool,
}

impl Fighter {
    /// The fighter after an animation step. Without a firing of the timer
    /// nothing changes; with one the frame moves on within the animation of
    /// the fighter's state.
    pub open spec fn after_animation(&self, timer_fired: bool) -> Fighter {
        if timer_fired {
            Fighter {
                current_frame: next_frame_spec(
                    self.player,
                    self.current_state,
                    self.current_frame,
                ).0,
                ..*self
            }
        } else {
            *self
        }
    }

    /// The fighter after `count` animation steps, each with a firing of the
    /// timer.
    pub open spec fn after_firings(&self, count: nat) -> Fighter
        decreases count,
    {
        if count == 0 {
            *self
        } else {
            self.after_animation(true).after_firings((count - 1) as nat)
        }
    }

    /// What an animation step reports: nothing without a firing of the
    /// timer, and the new frame with one.
    pub open spec fn frame_update(&self, timer_fired: bool) -> Option<FrameUpdate> {
        if timer_fired {
            let (frame, looped) = next_frame_spec(
                self.player,
                self.current_state,
                self.current_frame,
            );
            Some(
                FrameUpdate {
                    frame,
                    looped,
                    attack_sound: frame == attack_audio_frame_spec(self.player),
                },
            )
        } else {
            None
        }
    }

    /// Advances the animation of the fighter if its frame timer has fired
    /// in this tick, and reports the new frame.
    pub fn animate(&mut self, timer_fired: bool) -> (update: Option<FrameUpdate>)
        requires
            old(self).wf(),
        ensures
            *final(self) == old(self).after_animation(timer_fired),
            update == old(self).frame_update(timer_fired),
            final(self).wf(),
            !timer_fired ==> *final(self) == *old(self),
            timer_fired ==> frame_range_spec(final(self).player, final(self).current_state).holds(
                final(self).current_frame,
            ),
            update matches Some(u) && u.attack_sound ==> final(self).current_state
                == State::Attacking,
    {
        if !timer_fired {
            return None;
        }
        let (frame, looped) = next_frame(self.player, self.current_state, self.current_frame);
        self.current_frame = frame;
        let attack_sound = frame == attack_audio_frame(self.player);
        proof {
            lemma_frame_ranges_disjoint(self.player, self.current_state, State::Attacking, frame);
        }
        Some(FrameUpdate { frame, looped, attack_sound })
    }
}

} // verus!
