//! Player input: the four actions of a fighter and what they do to it.

use vstd::prelude::*;
use crate::fighter::{within_jump_envelope, Fighter};
use crate::player::Player;
use crate::state::State;
use crate::units::{HORIZ_VELOCITY, JUMP_VELOCITY, MAX_FALL_VELOCITY};

verus! {

/// The keys of the keyboard that the players use.
#[derive(Clone, Copy, Debug, PartialEq, Eq, Structural, Hash)]
pub enum Key {
    A,
    D,
    S,
    W,
    Down,
    Left,
    Right,
    Up,
}

/// The keys that one player's four actions are bound to. They stay the same
/// for the whole match.
#[derive(Clone, Copy, Debug, PartialEq, Eq, Structural)]
pub struct Keys {
    pub left: Key,
    pub right: Key,
    pub jump: Key,
    pub attack: Key,
}

impl Keys {
    /// The keys of `player`: the letters A, D, W and S for player one, the
    /// arrows for player two.
    pub open spec fn bound_to(player: Player) -> Keys {
        match player {
            Player::One => Keys { left: Key::A, right: Key::D, jump: Key::W, attack: Key::S },
            Player::Two => Keys {
                left: Key::Left,
                right: Key::Right,
                jump: Key::Up,
                attack: Key::Down,
            },
        }
    }

    /// The keys of `player`.
    pub fn of(player: Player) -> (keys: Keys)
        ensures
            keys == Keys::bound_to(player),
    {
        match player {
            Player::One => Keys { left: Key::A, right: Key::D, jump: Key::W, attack: Key::S },
            Player::Two => Keys {
                left: Key::Left,
                right: Key::Right,
                jump: Key::Up,
                attack: Key::Down,
            },
        }
    }

    /// The four keys, in the order left, right, jump, attack.
    pub open spec fn all(&self) -> Seq<Key> {
        seq![self.left, self.right, self.jump, self.attack]
    }
}

/// The input of one player in one tick: which actions are held, and which
/// of the two movement keys were released since the last tick.
#[derive(Clone, Copy, Debug, PartialEq, Eq, Structural)]
pub struct Controls {
    /// The move-left key is held.
    pub left: bool,
    /// The move-left key has just been released.
    pub left_released: bool,
    /// The move-right key is held.
    pub right: bool,
    /// The move-right key has just been released.
    pub right_released: bool,
    /// The jump key is held.
    pub jump: bool,
    /// The attack key is held.
    pub attack: bool,
}

/// The horizontal velocity that the movement keys select. A held key drives
/// the fighter to its side, the right key winning over the left. With no key
/// held, the release of the key that drove the fighter stops it; the release
/// of the other key changes nothing.
pub open spec fn steered(velocity_x: int, controls: Controls) -> int {
    if controls.right {
        HORIZ_VELOCITY as int
    } else if controls.left {
        -HORIZ_VELOCITY
    } else if (controls.right_released && velocity_x > 0) || (controls.left_released && velocity_x
        < 0) {
        0
    } else {
        velocity_x
    }
}

impl Controls {
    /// No key held and none released.
    pub open spec fn idle() -> Controls {
        Controls {
            left: false,
            left_released: false,
            right: false,
            right_released: false,
            jump: false,
            attack: false,
        }
    }

    /// The input of a player who touches nothing.
    pub fn none() -> (controls: Controls)
        ensures
            controls == Controls::idle(),
    {
        Controls {
            left: false,
            left_released: false,
            right: false,
            right_released: false,
            jump: false,
            attack: false,
        }
    }
}

impl Fighter {
    /// Whether the attack key starts an attack: only a fighter that is
    /// neither attacking, taking a hit nor dying can begin one.
    pub open spec fn can_attack(&self) -> bool {
        self.current_state.free()
    }

    /// The fighter after its player's input. A dying fighter takes no
    /// input. Otherwise the movement keys set the horizontal velocity, the
    /// jump key launches a fighter that stands exactly on its ground, and
    /// the attack key starts an attack where one can start, after saving the
    /// state it interrupts.
    pub open spec fn after_controls(&self, controls: Controls) -> Fighter {
        if self.current_state == State::Dying {
            *self
        } else {
            let attacks = controls.attack && self.can_attack();
            Fighter {
                velocity_x: steered(self.velocity_x as int, controls) as i64,
                velocity_y: if controls.jump && self.grounded() {
                    JUMP_VELOCITY
                } else {
                    self.velocity_y
                },
                previous_state: if attacks {
                    self.current_state
                } else {
                    self.previous_state
                },
                current_state: if attacks {
                    State::Attacking
                } else {
                    self.current_state
                },
                ..*self
            }
        }
    }

    /// Applies the input of the fighter's player for one tick.
    pub fn apply_controls(&mut self, controls: Controls)
        requires
            old(self).wf(),
        ensures
            *final(self) == old(self).after_controls(controls),
            final(self).wf(),
            old(self).current_state != State::Dying ==> final(self).velocity_x == steered(
                old(self).velocity_x as int,
                controls,
            ),
            old(self).current_state.locked() ==> final(self).current_state == old(
                self,
            ).current_state,
    {
        match self.current_state {
            State::Dying => {
                return ;
            },
            _ => {},
        }

        if controls.right {
            self.velocity_x = HORIZ_VELOCITY;
        } else if controls.left {
            self.velocity_x = -HORIZ_VELOCITY;
        } else if (controls.right_released && self.velocity_x > 0) || (controls.left_released
            && self.velocity_x < 0) {
            self.velocity_x = 0;
        }

        if controls.jump && self.y == self.ground_y as i64 {
            self.velocity_y = JUMP_VELOCITY;
            proof {
                lemma_launch_in_envelope();
            }
        }

        if controls.attack && self.current_state.is_free() {
            self.previous_state = self.current_state;
            self.current_state = State::Attacking;
        }
    }
}

/// No key is bound twice: the four keys of a player differ from each other
/// and from every key of the other player.
pub proof fn theorem_keys_distinct(i: int, j: int)
    requires
        0 <= i < 4,
        0 <= j < 4,
    ensures
        Keys::bound_to(Player::One).all()[i] != Keys::bound_to(Player::Two).all()[j],
        i != j ==> Keys::bound_to(Player::One).all()[i] != Keys::bound_to(Player::One).all()[j],
        i != j ==> Keys::bound_to(Player::Two).all()[i] != Keys::bound_to(Player::Two).all()[j],
{
}

/// A fighter on its ground with the velocity of a jump lies on the edge of
/// the flight envelope.
pub proof fn lemma_launch_in_envelope()
    ensures
        within_jump_envelope(0, JUMP_VELOCITY as int),
{
    let fall = MAX_FALL_VELOCITY + JUMP_VELOCITY;
    assert((JUMP_VELOCITY - JUMP_VELOCITY) * fall == 0) by (nonlinear_arith);
}

} // verus!
