//! The collision resolver: decides whether an attack connects, and applies
//! the damage of one that does.
//!
//! An attack connects on a single frame of its animation, the connect frame
//! of the attacker, and only while the attackbox of the attacker overlaps
//! the hurtbox of the victim. A fighter that is taking a hit or dying cannot
//! be hit, so an attack that stays on its connect frame for several ticks
//! still lands once.

use vstd::prelude::*;
use crate::fighter::Fighter;
use crate::frames::{attack_damage, attack_damage_spec, attack_frame, attack_frame_spec};
use crate::player::Player;
use crate::state::State;

verus! {

/// Tells that the health of a fighter has changed.
#[derive(Clone, Copy, Debug, PartialEq, Eq, Structural)]
pub struct HealthUpdateEvent {
    /// The player whose fighter was hit.
    pub player: Player,
    /// The health left to the fighter.
    pub health: u8,
}

impl HealthUpdateEvent {
    /// Creates the event that `player` is left with `health`.
    pub fn new(player: Player, health: u8) -> (event: Self)
        ensures
            event == (HealthUpdateEvent { player, health }),
    {
        HealthUpdateEvent { player, health }
    }
}

/// Health after a hit: the damage is taken off, and health that would fall
/// below zero is zero.
pub open spec fn damaged(health: u8, damage: u8) -> u8 {
    if health >= damage {
        (health - damage) as u8
    } else {
        0
    }
}

/// Takes `damage` off `health`, stopping at zero.
pub fn apply_damage(health: u8, damage: u8) -> (left: u8)
    ensures
        left == damaged(health, damage),
        left <= health,
        left as int == vstd::math::max(0, health - damage),
{
    match health.checked_sub(damage) {
        Some(left) => left,
        None => 0,
    }
}

impl Fighter {
    /// Whether the attack of `attacker` connects with this fighter: the
    /// fighter is neither taking a hit nor dying, the attacker is attacking
    /// and shows exactly its connect frame, and its attackbox overlaps the
    /// hurtbox of the fighter.
    pub open spec fn struck_by(&self, attacker: &Fighter) -> bool {
        &&& self.current_state != State::TakingHit
        &&& self.current_state != State::Dying
        &&& attacker.current_state == State::Attacking
        &&& attacker.current_frame == attack_frame_spec(attacker.player)
        &&& attacker.attackbox_placed().overlaps(&self.hurtbox_placed())
    }

    /// The fighter after `attacker` has had its chance to hit it. A fighter
    /// that is struck remembers the state it was in, takes the hit and loses
    /// the damage of the attacker's attack; any other fighter is unchanged.
    pub open spec fn after_hit(&self, attacker: &Fighter) -> Fighter {
        if self.struck_by(attacker) {
            Fighter {
                previous_state: self.current_state,
                current_state: State::TakingHit,
                health: damaged(self.health, attack_damage_spec(attacker.player)),
                ..*self
            }
        } else {
            *self
        }
    }

    /// The event that a hit by `attacker` gives rise to, if it connects.
    pub open spec fn hit_event(&self, attacker: &Fighter) -> Option<HealthUpdateEvent> {
        if self.struck_by(attacker) {
            Some(
                HealthUpdateEvent {
                    player: self.player,
                    health: damaged(self.health, attack_damage_spec(attacker.player)),
                },
            )
        } else {
            None
        }
    }

    /// Tests whether the attack of `attacker` connects with this fighter.
    pub fn is_struck_by(&self, attacker: &Fighter) -> (struck: bool)
        requires
            self.wf(),
            attacker.wf(),
        ensures
            struck == self.struck_by(attacker),
    {
        match self.current_state {
            State::TakingHit | State::Dying => {
                return false;
            },
            _ => {},
        }
        match attacker.current_state {
            State::Attacking => {
                if attacker.current_frame == attack_frame(attacker.player) {
                    attacker.attackbox_in_arena().collides(&self.hurtbox_in_arena())
                } else {
                    false
                }
            },
            _ => false,
        }
    }

    /// Lets `attacker` hit this fighter. Where the attack connects the
    /// fighter takes the hit and the event with its new health is returned;
    /// otherwise nothing changes and nothing is returned.
    pub fn take_hit(&mut self, attacker: &Fighter) -> (event: Option<HealthUpdateEvent>)
        requires
            old(self).wf(),
            attacker.wf(),
        ensures
            *final(self) == old(self).after_hit(attacker),
            event == old(self).hit_event(attacker),
            final(self).wf(),
            final(self).health <= old(self).health,
    {
        if self.is_struck_by(attacker) {
            self.previous_state = self.current_state;
            self.current_state = State::TakingHit;
            self.health = apply_damage(self.health, attack_damage(attacker.player));
            Some(HealthUpdateEvent::new(self.player, self.health))
        } else {
            None
        }
    }
}

/// The events of one round of collisions, in the order of the players.
pub open spec fn hit_events(one: &Fighter, two: &Fighter) -> Seq<HealthUpdateEvent> {
    let first = match one.hit_event(two) {
        Some(event) => seq![event],
        None => Seq::empty(),
    };
    let second = match two.hit_event(one) {
        Some(event) => seq![event],
        None => Seq::empty(),
    };
    first + second
}

/// Resolves the attacks of both fighters on each other. Both attacks are
/// judged on the fighters as they were when the round began, so two attacks
/// that connect in the same tick both land.
pub fn collision_system(one: &mut Fighter, two: &mut Fighter) -> (events: Vec<HealthUpdateEvent>)
    requires
        old(one).wf(),
        old(two).wf(),
    ensures
        *final(one) == old(one).after_hit(old(two)),
        *final(two) == old(two).after_hit(old(one)),
        events@ == hit_events(old(one), old(two)),
        final(one).wf(),
        final(two).wf(),
{
    let one_before = *one;
    let two_before = *two;
    let mut events: Vec<HealthUpdateEvent> = Vec::new();
    if let Some(event) = one.take_hit(&two_before) {
        events.push(event);
    }
    if let Some(event) = two.take_hit(&one_before) {
        events.push(event);
    }
    assert(events@ =~= hit_events(&one_before, &two_before));
    events
}

} // verus!
