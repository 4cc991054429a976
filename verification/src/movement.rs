//! The movement stepper: one tick of physics for one fighter, and the state
//! that the physics selects.
//!
//! The vertical motion is integrated with the velocity the fighter had when
//! the tick began; gravity then changes the velocity of a fighter that is
//! still in the air, and a fighter that has come down is put on its ground
//! at rest. The horizontal move of a tick is made as a whole or not at all:
//! a fighter never leaves the arena.

use vstd::prelude::*;
use crate::fighter::{
    lemma_envelope_bounds, lemma_rest_in_envelope, within_jump_envelope, Fighter,
};
use crate::frames::{frame_range, frame_range_spec};
use crate::state::State;
use crate::units::{
    GRAVITY, HORIZ_VELOCITY, JUMP_VELOCITY, MAX_FALL_VELOCITY, MAX_TICK_MS, SCENE_MAX_X,
    SCENE_MIN_X,
};

verus! {

/// The state that physics selects for a fighter that is free to move: in the
/// air it jumps while it rises and falls otherwise, on the ground it runs
/// while it moves sideways and idles otherwise.
pub open spec fn derived_state(airborne: bool, velocity_x: int, velocity_y: int) -> State {
    if airborne {
        if velocity_y > 0 {
            State::Jumping
        } else {
            State::Falling
        }
    } else if velocity_x != 0 {
        State::Running
    } else {
        State::Idling
    }
}

/// Selects the state of a fighter that is free to move from where it is and
/// how it moves.
pub fn derive_state(airborne: bool, velocity_x: i64, velocity_y: i64) -> (state: State)
    ensures
        state == derived_state(airborne, velocity_x as int, velocity_y as int),
        state.free(),
{
    if airborne {
        if velocity_y > 0 {
            State::Jumping
        } else {
            State::Falling
        }
    } else if velocity_x != 0 {
        State::Running
    } else {
        State::Idling
    }
}

/// The horizontal position after a tick: the fighter moves by its velocity
/// times the elapsed time if that keeps it inside the arena, and stays where
/// it is otherwise. Its velocity is kept either way.
pub open spec fn x_after(x: int, velocity_x: int, elapsed_ms: int) -> int {
    let target = x + velocity_x * elapsed_ms;
    if SCENE_MIN_X <= target <= SCENE_MAX_X {
        target
    } else {
        x
    }
}

impl Fighter {
    /// Whether the fighter is above its ground once it has moved for
    /// `elapsed_ms` with its present velocity.
    pub open spec fn airborne_after(&self, elapsed_ms: u16) -> bool {
        self.y + self.velocity_y * elapsed_ms > self.ground_y
    }

    /// The last frame of the animation of the fighter's present state.
    pub open spec fn terminal_frame(&self) -> usize {
        frame_range_spec(self.player, self.current_state).end
    }

    /// The state after a tick, given the state `derived` that physics
    /// selects. A fighter without health dies, whatever else holds, and a
    /// dying fighter stays so. An attack ends on the last frame of its
    /// animation and gives way to the derived state. A hit ends on the last
    /// frame of its animation and gives way to the state it interrupted, or,
    /// where it interrupted an attack, to the derived state. A fighter in
    /// any other state takes the derived state.
    pub open spec fn state_after(&self, derived: State) -> State {
        if self.health == 0 {
            State::Dying
        } else {
            match self.current_state {
                State::Dying => State::Dying,
                State::Attacking => if self.current_frame == self.terminal_frame() {
                    derived
                } else {
                    State::Attacking
                },
                State::TakingHit => if self.current_frame == self.terminal_frame() {
                    if self.previous_state == State::Attacking {
                        derived
                    } else {
                        self.previous_state
                    }
                } else {
                    State::TakingHit
                },
                _ => derived,
            }
        }
    }

    /// The fighter after a tick of `elapsed_ms` milliseconds. Once the match
    /// is over a fighter that stands on its ground is brought to rest.
    pub open spec fn after_step(&self, elapsed_ms: u16, game_over: bool) -> Fighter {
        let airborne = self.airborne_after(elapsed_ms);
        let velocity_x = if game_over && !airborne {
            0
        } else {
            self.velocity_x
        };
        let velocity_y = if airborne {
            (self.velocity_y + GRAVITY * elapsed_ms) as i64
        } else {
            0
        };
        Fighter {
            x: x_after(self.x as int, self.velocity_x as int, elapsed_ms as int) as i32,
            y: if airborne {
                (self.y + self.velocity_y * elapsed_ms) as i64
            } else {
                self.ground_y as i64
            },
            velocity_x,
            velocity_y,
            current_state: self.state_after(
                derived_state(airborne, velocity_x as int, velocity_y as int),
            ),
            ..*self
        }
    }

    /// Advances the fighter by one tick of `elapsed_ms` milliseconds:
    /// moves it, applies gravity or lands it, and settles its state.
    /// `game_over` tells whether the match has ended.
    pub fn step(&mut self, elapsed_ms: u16, game_over: bool)
        requires
            old(self).wf(),
        ensures
            *final(self) == old(self).after_step(elapsed_ms, game_over),
            final(self).wf(),
            final(self).x == x_after(
                old(self).x as int,
                old(self).velocity_x as int,
                elapsed_ms as int,
            ),
            old(self).airborne_after(elapsed_ms) ==> {
                &&& final(self).y == old(self).y + old(self).velocity_y * elapsed_ms
                &&& final(self).velocity_y == old(self).velocity_y + GRAVITY * elapsed_ms
            },
            !old(self).airborne_after(elapsed_ms) ==> {
                &&& final(self).y == old(self).ground_y
                &&& final(self).velocity_y == 0
            },
            final(self).grounded() ==> final(self).velocity_y == 0,
            SCENE_MIN_X <= old(self).x <= SCENE_MAX_X ==> SCENE_MIN_X <= final(self).x
                <= SCENE_MAX_X,
    {
        let elapsed: i64 = elapsed_ms as i64;
        let ground: i64 = self.ground_y as i64;
        proof {
            lemma_envelope_bounds(self.y - self.ground_y, self.velocity_y as int);
            lemma_step_stays_in_range(self.velocity_x as int, self.velocity_y as int, elapsed as int);
        }

        let target_x: i64 = self.x as i64 + self.velocity_x * elapsed;
        if SCENE_MIN_X as i64 <= target_x && target_x <= SCENE_MAX_X as i64 {
            self.x = target_x as i32;
        }

        let target_y: i64 = self.y + self.velocity_y * elapsed;
        let airborne = target_y > ground;
        if airborne {
            proof {
                lemma_envelope_step(
                    old(self).y - old(self).ground_y,
                    old(self).velocity_y as int,
                    elapsed as int,
                );
            }
            self.y = target_y;
            self.velocity_y = self.velocity_y + GRAVITY * elapsed;
        } else {
            proof {
                lemma_rest_in_envelope();
            }
            self.y = ground;
            self.velocity_y = 0;
        }

        if game_over && !airborne {
            self.velocity_x = 0;
        }

        let derived = derive_state(airborne, self.velocity_x, self.velocity_y);
        if self.health == 0 {
            self.current_state = State::Dying;
        } else {
            match self.current_state {
                State::Dying => {},
                State::Attacking => {
                    if self.current_frame == frame_range(self.player, State::Attacking).end {
                        self.current_state = derived;
                    }
                },
                State::TakingHit => {
                    if self.current_frame == frame_range(self.player, State::TakingHit).end {
                        match self.previous_state {
                            State::Attacking => {
                                self.current_state = derived;
                            },
                            _ => {
                                self.current_state = self.previous_state;
                            },
                        }
                    }
                },
                _ => {
                    self.current_state = derived;
                },
            }
        }
    }
}

/// The products of one integrator step are bounded by the bounds of their
/// factors.
pub proof fn lemma_step_stays_in_range(velocity_x: int, velocity_y: int, elapsed_ms: int)
    requires
        velocity_x == 0 || velocity_x == HORIZ_VELOCITY || velocity_x == -HORIZ_VELOCITY,
        -MAX_FALL_VELOCITY <= velocity_y <= JUMP_VELOCITY,
        0 <= elapsed_ms <= MAX_TICK_MS,
    ensures
        -3_276_750_000 <= velocity_x * elapsed_ms <= 3_276_750_000,
        -1_060_099_075_125 <= velocity_y * elapsed_ms <= 7_864_200_000,
        -16_056_075 <= GRAVITY * elapsed_ms <= 0,
{
    assert(-3_276_750_000 <= velocity_x * elapsed_ms <= 3_276_750_000) by (nonlinear_arith)
        requires
            -50_000 <= velocity_x <= 50_000,
            0 <= elapsed_ms <= 65_535,
    ;
    assert(-1_060_099_075_125 <= velocity_y * elapsed_ms <= 7_864_200_000) by (nonlinear_arith)
        requires
            -16_176_075 <= velocity_y <= 120_000,
            0 <= elapsed_ms <= 65_535,
    ;
}

/// One step of the integrator keeps an airborne fighter inside the flight
/// envelope: the height gained is paid for by the velocity lost, and what a
/// tick shorter than the longest one leaves over only widens the margin.
pub proof fn lemma_envelope_step(height: int, velocity_y: int, elapsed_ms: int)
    requires
        within_jump_envelope(height, velocity_y),
        0 <= elapsed_ms <= MAX_TICK_MS,
        height + velocity_y * elapsed_ms > 0,
    ensures
        within_jump_envelope(height + velocity_y * elapsed_ms, velocity_y + GRAVITY * elapsed_ms),
{
    let t = elapsed_ms;
    let rise = JUMP_VELOCITY - velocity_y;
    let fall = MAX_FALL_VELOCITY + velocity_y;
    let climb = velocity_y * t;
    assert(GRAVITY * t == -245 * t);
    assert(fall - rise == 16_056_075 + 2 * velocity_y);
    assert((rise + 245 * t) * (fall - 245 * t) == rise * fall + 245 * (t * (fall - rise)) - 60_025
        * (t * t)) by (nonlinear_arith);
    assert(t * (fall - rise) == 16_056_075 * t + 2 * climb) by (nonlinear_arith)
        requires
            fall - rise == 16_056_075 + 2 * velocity_y,
            climb == velocity_y * t,
    ;
    assert(t * t <= 65_535 * t) by (nonlinear_arith)
        requires
            0 <= t <= 65_535,
    ;
    assert(2 * (-GRAVITY) * height == 490 * height);
    assert(2 * (-GRAVITY) * (height + climb) == 490 * height + 490 * climb);
}

} // verus!
