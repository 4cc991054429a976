//! The fighter: the record of one player in a match, and its invariant.

use vstd::prelude::*;
use crate::frames::{
    frame_range_spec, is_registered_frame, registered_frame, IDLE_FRAME_START,
};
use crate::geometry::{Aabb, BoxShape};
use crate::player::Player;
use crate::state::State;
use crate::units::{
    GRAVITY, GROUND_Y, HORIZ_VELOCITY, JUMP_VELOCITY, MAX_FALL_VELOCITY, MAX_HEALTH, MAX_HEIGHT,
};

verus! {

/// One player's fighter. Positions are in position units, velocities in
/// velocity units (see the module `units`).
#[derive(Clone, Copy, Debug, PartialEq, Eq, Structural)]
pub struct Fighter {
    /// Which player the fighter belongs to.
    pub player: Player,
    /// Horizontal position.
    pub x: i32,
    /// Vertical position, never below `ground_y`.
    pub y: i64,
    /// Horizontal velocity: zero or the running speed to either side.
    pub velocity_x: i64,
    /// Vertical velocity, positive upwards.
    pub velocity_y: i64,
    /// The height at which the fighter stands on the floor.
    pub ground_y: i32,
    /// The combat state.
    pub current_state: State,
    /// The state that the last attack or hit interrupted.
    pub previous_state: State,
    /// The animation frame shown.
    pub current_frame: usize,
    /// Health, from 0 to 100.
    pub health: u8,
    /// Where the fighter can be hit.
    pub hurtbox: BoxShape,
    /// How far the attack of the fighter reaches.
    pub attackbox: BoxShape,
}

/// The flight envelope of a jump. A fighter at `height` above its ground
/// with vertical velocity `velocity_y` lies within it when it is not below
/// the ground, rises no faster than a jump does, and is no higher than the
/// energy left from a jump allows. The last bound grants every tick its
/// longest duration, so one step of the integrator cannot leave the envelope.
pub open spec fn within_jump_envelope(height: int, velocity_y: int) -> bool {
    &&& 0 <= height
    &&& velocity_y <= JUMP_VELOCITY
    &&& 2 * (-GRAVITY) * height <= (JUMP_VELOCITY - velocity_y) * (MAX_FALL_VELOCITY + velocity_y)
}

/// Where player one enters the arena: 300 px to the left of the centre.
pub const PLAYER_ONE_X: i32 = -30_000_000;

/// Where player two enters the arena: 300 px to the right of the centre.
pub const PLAYER_TWO_X: i32 = 30_000_000;

/// Ground height of player one: the arena floor raised by the 60.5 px of
/// padding below the feet on the player's sprite sheet.
pub const PLAYER_ONE_GROUND_Y: i32 = -15_070_000;

/// Ground height of player two: the arena floor raised by 77 px of padding.
pub const PLAYER_TWO_GROUND_Y: i32 = -13_420_000;

/// Offset of the attackbox of player two, which reaches to the left.
pub const PLAYER_TWO_REACH: i32 = -13_000_000;

/// Horizontal position at which `player` enters the arena.
pub open spec fn spawn_x_spec(player: Player) -> i32 {
    match player {
        Player::One => PLAYER_ONE_X,
        Player::Two => PLAYER_TWO_X,
    }
}

/// Height at which `player` stands on the floor.
pub open spec fn spawn_ground_y_spec(player: Player) -> i32 {
    match player {
        Player::One => PLAYER_ONE_GROUND_Y,
        Player::Two => PLAYER_TWO_GROUND_Y,
    }
}

/// The hurtbox of `player`.
pub open spec fn hurtbox_shape_spec(player: Player) -> BoxShape {
    match player {
        Player::One => BoxShape {
            offset_x: 0,
            offset_y: 1_500_000,
            width: 8_250_000,
            height: 15_125_000,
        },
        Player::Two => BoxShape { offset_x: 0, offset_y: 0, width: 6_875_000, height: 15_950_000 },
    }
}

/// The attackbox of `player`. Each reaches towards the side the player
/// faces.
pub open spec fn attackbox_shape_spec(player: Player) -> BoxShape {
    match player {
        Player::One => BoxShape {
            offset_x: 14_500_000,
            offset_y: 5_600_000,
            width: 20_625_000,
            height: 6_875_000,
        },
        Player::Two => BoxShape {
            offset_x: PLAYER_TWO_REACH,
            offset_y: 3_200_000,
            width: 19_250_000,
            height: 9_625_000,
        },
    }
}

/// Horizontal spawn position of `player`.
#[verifier::when_used_as_spec(spawn_x_spec)]
pub fn spawn_x(player: Player) -> (x: i32)
    ensures
        x == spawn_x_spec(player),
{
    match player {
        Player::One => PLAYER_ONE_X,
        Player::Two => PLAYER_TWO_X,
    }
}

/// Ground height of `player`.
#[verifier::when_used_as_spec(spawn_ground_y_spec)]
pub fn spawn_ground_y(player: Player) -> (y: i32)
    ensures
        y == spawn_ground_y_spec(player),
        y > GROUND_Y,
{
    match player {
        Player::One => PLAYER_ONE_GROUND_Y,
        Player::Two => PLAYER_TWO_GROUND_Y,
    }
}

/// The hurtbox of `player`.
#[verifier::when_used_as_spec(hurtbox_shape_spec)]
pub fn hurtbox_shape(player: Player) -> (shape: BoxShape)
    ensures
        shape == hurtbox_shape_spec(player),
{
    match player {
        Player::One => BoxShape {
            offset_x: 0,
            offset_y: 1_500_000,
            width: 8_250_000,
            height: 15_125_000,
        },
        Player::Two => BoxShape { offset_x: 0, offset_y: 0, width: 6_875_000, height: 15_950_000 },
    }
}

/// The attackbox of `player`.
#[verifier::when_used_as_spec(attackbox_shape_spec)]
pub fn attackbox_shape(player: Player) -> (shape: BoxShape)
    ensures
        shape == attackbox_shape_spec(player),
{
    match player {
        Player::One => BoxShape {
            offset_x: 14_500_000,
            offset_y: 5_600_000,
            width: 20_625_000,
            height: 6_875_000,
        },
        Player::Two => BoxShape {
            offset_x: PLAYER_TWO_REACH,
            offset_y: 3_200_000,
            width: 19_250_000,
            height: 9_625_000,
        },
    }
}

impl Fighter {
    /// The invariant of a fighter. Every function of the crate that builds
    /// or changes a fighter establishes it.
    pub open spec fn wf(&self) -> bool {
        &&& self.health <= MAX_HEALTH
        &&& within_jump_envelope(self.y - self.ground_y, self.velocity_y as int)
        &&& self.y == self.ground_y ==> self.velocity_y == 0 || self.velocity_y == JUMP_VELOCITY
        &&& self.velocity_x == 0 || self.velocity_x == HORIZ_VELOCITY || self.velocity_x
            == -HORIZ_VELOCITY
        &&& self.previous_state != State::TakingHit
        &&& self.previous_state != State::Dying
        &&& registered_frame(self.player, self.current_frame)
    }

    /// The fighter stands on its ground.
    pub open spec fn grounded(&self) -> bool {
        self.y == self.ground_y
    }

    /// The fighter stands on its ground with the velocity of a jump that has
    /// not yet lifted it.
    pub open spec fn jump_pending(&self) -> bool {
        self.y == self.ground_y && self.velocity_y == JUMP_VELOCITY
    }

    /// The fighter as it enters a match.
    pub open spec fn spawned(
        player: Player,
        x: i32,
        ground_y: i32,
        hurtbox: BoxShape,
        attackbox: BoxShape,
    ) -> Fighter {
        Fighter {
            player,
            x,
            y: ground_y as i64,
            velocity_x: 0,
            velocity_y: 0,
            ground_y,
            current_state: State::Idling,
            previous_state: State::Idling,
            current_frame: IDLE_FRAME_START,
            health: MAX_HEALTH,
            hurtbox,
            attackbox,
        }
    }

    /// Creates a fighter at rest on its ground at `x`, idle, at full health
    /// and on the first frame of the idle animation.
    pub fn spawn(player: Player, x: i32, ground_y: i32, hurtbox: BoxShape, attackbox: BoxShape) -> (f:
        Fighter)
        ensures
            f == Fighter::spawned(player, x, ground_y, hurtbox, attackbox),
            f.wf(),
            frame_range_spec(player, f.current_state).holds(f.current_frame),
    {
        proof {
            lemma_rest_in_envelope();
            assert(frame_range_spec(player, State::Idling).holds(IDLE_FRAME_START));
        }
        Fighter {
            player,
            x,
            y: ground_y as i64,
            velocity_x: 0,
            velocity_y: 0,
            ground_y,
            current_state: State::Idling,
            previous_state: State::Idling,
            current_frame: IDLE_FRAME_START,
            health: MAX_HEALTH,
            hurtbox,
            attackbox,
        }
    }

    /// Creates the fighter of `player` at the player's spawn point, with the
    /// player's boxes.
    pub fn new(player: Player) -> (f: Fighter)
        ensures
            f == Fighter::spawned(
                player,
                spawn_x_spec(player),
                spawn_ground_y_spec(player),
                hurtbox_shape_spec(player),
                attackbox_shape_spec(player),
            ),
            f.wf(),
            frame_range_spec(player, f.current_state).holds(f.current_frame),
    {
        Fighter::spawn(
            player,
            spawn_x(player),
            spawn_ground_y(player),
            hurtbox_shape(player),
            attackbox_shape(player),
        )
    }

    /// The hurtbox in arena coordinates.
    pub open spec fn hurtbox_placed(&self) -> Aabb {
        self.hurtbox.placed(self.x as int, self.y as int)
    }

    /// The attackbox in arena coordinates.
    pub open spec fn attackbox_placed(&self) -> Aabb {
        self.attackbox.placed(self.x as int, self.y as int)
    }

    /// The hurtbox at the fighter's position: it follows every movement of
    /// the fighter.
    pub fn hurtbox_in_arena(&self) -> (placed: Aabb)
        requires
            self.wf(),
        ensures
            placed == self.hurtbox_placed(),
            placed.center_x == self.x + self.hurtbox.offset_x,
            placed.center_y == self.y + self.hurtbox.offset_y,
            placed.width == self.hurtbox.width,
            placed.height == self.hurtbox.height,
    {
        proof {
            lemma_envelope_bounds(self.y - self.ground_y, self.velocity_y as int);
        }
        self.hurtbox.place(self.x, self.y)
    }

    /// The attackbox at the fighter's position.
    pub fn attackbox_in_arena(&self) -> (placed: Aabb)
        requires
            self.wf(),
        ensures
            placed == self.attackbox_placed(),
            placed.center_x == self.x + self.attackbox.offset_x,
            placed.center_y == self.y + self.attackbox.offset_y,
            placed.width == self.attackbox.width,
            placed.height == self.attackbox.height,
    {
        proof {
            lemma_envelope_bounds(self.y - self.ground_y, self.velocity_y as int);
        }
        self.attackbox.place(self.x, self.y)
    }

    /// Checks the invariant at run time.
    pub fn is_well_formed(&self) -> (ok: bool)
        ensures
            ok == self.wf(),
    {
        let ground: i64 = self.ground_y as i64;
        if self.health > MAX_HEALTH {
            return false;
        }
        if self.velocity_y > JUMP_VELOCITY || self.velocity_y < -MAX_FALL_VELOCITY {
            proof {
                if within_jump_envelope(self.y - self.ground_y, self.velocity_y as int) {
                    lemma_envelope_bounds(self.y - self.ground_y, self.velocity_y as int);
                }
            }
            return false;
        }
        if self.y < ground || self.y > ground + MAX_HEIGHT {
            proof {
                if within_jump_envelope(self.y - self.ground_y, self.velocity_y as int) {
                    lemma_envelope_bounds(self.y - self.ground_y, self.velocity_y as int);
                }
            }
            return false;
        }
        let height: i64 = self.y - ground;
        let rise: i64 = JUMP_VELOCITY - self.velocity_y;
        let fall: i64 = MAX_FALL_VELOCITY + self.velocity_y;
        assert(0 <= rise * fall <= 16_296_075 * 16_296_075) by (nonlinear_arith)
            requires
                0 <= rise <= 16_296_075,
                0 <= fall <= 16_296_075,
        ;
        let weight: i64 = 490 * height;
        assert(weight == 2 * (-GRAVITY) * height);
        if weight > rise * fall {
            return false;
        }
        if self.y == ground && self.velocity_y != 0 && self.velocity_y != JUMP_VELOCITY {
            return false;
        }
        if self.velocity_x != 0 && self.velocity_x != HORIZ_VELOCITY && self.velocity_x
            != -HORIZ_VELOCITY {
            return false;
        }
        match self.previous_state {
            State::TakingHit | State::Dying => {
                return false;
            },
            _ => {},
        }
        is_registered_frame(self.player, self.current_frame)
    }
}

/// Inside the flight envelope the fall velocity and the height are bounded:
/// the arithmetic of one integrator step stays far inside the range of the
/// machine integers.
pub proof fn lemma_envelope_bounds(height: int, velocity_y: int)
    requires
        within_jump_envelope(height, velocity_y),
    ensures
        -MAX_FALL_VELOCITY <= velocity_y <= JUMP_VELOCITY,
        0 <= height <= MAX_HEIGHT,
{
    let rise = JUMP_VELOCITY - velocity_y;
    let fall = MAX_FALL_VELOCITY + velocity_y;
    let span = rise + fall;
    assert(span == 16_296_075);
    assert(2 * (-GRAVITY) * height == 490 * height);
    assert(fall >= 0) by (nonlinear_arith)
        requires
            rise >= 0,
            rise * fall >= 0,
            rise + fall > 0,
    ;
    assert(4 * (rise * fall) <= span * span) by (nonlinear_arith)
        requires
            span == rise + fall,
    ;
    assert(span * span == 265_562_060_405_625) by (nonlinear_arith)
        requires
            span == 16_296_075,
    ;
}

/// A fighter at rest on its ground lies inside the flight envelope.
pub proof fn lemma_rest_in_envelope()
    ensures
        within_jump_envelope(0, 0),
{
    assert((JUMP_VELOCITY - 0) * (MAX_FALL_VELOCITY + 0) >= 0) by (nonlinear_arith);
}

} // verus!
