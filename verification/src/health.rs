//! Bookkeeping for the health display.

use vstd::prelude::*;
use crate::collision::HealthUpdateEvent;
use crate::player::Player;
use crate::units::MAX_HEALTH;

verus! {

/// The health that the display of one player shows.
#[derive(Clone, Copy, Debug, PartialEq, Eq, Structural)]
pub struct HealthBar(pub u8);

impl Default for HealthBar {
    fn default() -> (bar: Self)
        ensures
            bar == HealthBar(MAX_HEALTH),
    {
        HealthBar(MAX_HEALTH)
    }
}

/// The health that the last event of `player` in `events` carries, if there
/// is one.
pub open spec fn latest_health_spec(events: Seq<HealthUpdateEvent>, player: Player) -> Option<u8>
    decreases events.len(),
{
    if events.len() == 0 {
        None
    } else if events.last().player == player {
        Some(events.last().health)
    } else {
        latest_health_spec(events.drop_last(), player)
    }
}

/// Finds the health that `player` is left with after `events`: that of the
/// player's last event, or nothing if no event is about the player.
pub fn latest_health(events: &Vec<HealthUpdateEvent>, player: Player) -> (health: Option<u8>)
    ensures
        health == latest_health_spec(events@, player),
{
    let mut health: Option<u8> = None;
    let mut i: usize = 0;
    while i < events.len()
        invariant
            i <= events.len(),
            health == latest_health_spec(events@.take(i as int), player),
        decreases events.len() - i,
    {
        proof {
            assert(events@.take(i + 1).drop_last() =~= events@.take(i as int));
        }
        if events[i].player == player {
            health = Some(events[i].health);
        }
        i = i + 1;
    }
    proof {
        assert(events@.take(i as int) =~= events@);
    }
    health
}

impl HealthBar {
    /// Sets the bar to `health` and returns how much health it lost. A bar
    /// only ever shrinks.
    pub fn update(&mut self, health: u8) -> (lost: u8)
        requires
            health <= old(self).0,
        ensures
            final(self).0 == health,
            lost == old(self).0 - health,
    {
        let lost = self.0 - health;
        self.0 = health;
        lost
    }
}

/// An event of `player` at the end of the queue decides; any other event at
/// the end is passed over.
pub proof fn theorem_latest_health_push(
    events: Seq<HealthUpdateEvent>,
    event: HealthUpdateEvent,
    player: Player,
)
    ensures
        latest_health_spec(events.push(event), player) == if event.player == player {
            Some(event.health)
        } else {
            latest_health_spec(events, player)
        },
{
    assert(events.push(event).drop_last() =~= events);
}

} // verus!
