//! Animation frame tables and the frame sequencer.
//!
//! Each state of each player owns a closed range of frames on the player's
//! sprite sheet. The sequencer walks the range of the active state one frame
//! per animation step and wraps at its end.

use vstd::prelude::*;
use crate::player::Player;
use crate::state::State;

verus! {

/// First frame of the idle animation of both players: the frame a fighter
/// is spawned with.
pub const IDLE_FRAME_START: usize = 32;

/// A closed range of animation frames, `start..=end`.
#[derive(Clone, Copy, Debug, PartialEq, Eq, Structural)]
pub struct FrameRange {
    pub start: usize,
    pub end: usize,
}

impl FrameRange {
    /// Whether `frame` lies in the range.
    pub open spec fn holds(&self, frame: usize) -> bool {
        self.start <= frame <= self.end
    }

    /// Whether `frame` lies in the range.
    #[verifier::when_used_as_spec(holds)]
    pub fn contains(&self, frame: usize) -> (b: bool)
        ensures
            b == self.holds(frame),
    {
        self.start <= frame && frame <= self.end
    }
}

/// The frames that `player` shows in `state`.
pub open spec fn frame_range_spec(player: Player, state: State) -> FrameRange {
    match player {
        Player::One => match state {
            State::Attacking => FrameRange { start: 0, end: 5 },
            State::Dying => FrameRange { start: 16, end: 21 },
            State::Falling => FrameRange { start: 24, end: 25 },
            State::Idling => FrameRange { start: 32, end: 39 },
            State::Jumping => FrameRange { start: 40, end: 41 },
            State::Running => FrameRange { start: 48, end: 55 },
            State::TakingHit => FrameRange { start: 64, end: 67 },
        },
        Player::Two => match state {
            State::Attacking => FrameRange { start: 0, end: 3 },
            State::Dying => FrameRange { start: 16, end: 22 },
            State::Falling => FrameRange { start: 24, end: 25 },
            State::Idling => FrameRange { start: 32, end: 35 },
            State::Jumping => FrameRange { start: 40, end: 41 },
            State::Running => FrameRange { start: 48, end: 55 },
            State::TakingHit => FrameRange { start: 56, end: 58 },
        },
    }
}

/// The frame of the attack animation at which the attack of `player` can
/// connect.
pub open spec fn attack_frame_spec(player: Player) -> usize {
    match player {
        Player::One => 4,
        Player::Two => 2,
    }
}

/// The frame of the attack animation at which the attack of `player` is
/// heard.
pub open spec fn attack_audio_frame_spec(player: Player) -> usize {
    match player {
        Player::One => 3,
        Player::Two => 3,
    }
}

/// Health that one connecting attack of `player` takes from the opponent.
pub open spec fn attack_damage_spec(player: Player) -> u8 {
    match player {
        Player::One => 10,
        Player::Two => 8,
    }
}

/// The frames that `player` shows in `state`.
#[verifier::when_used_as_spec(frame_range_spec)]
pub fn frame_range(player: Player, state: State) -> (range: FrameRange)
    ensures
        range == frame_range_spec(player, state),
        range.start <= range.end,
{
    match player {
        Player::One => match state {
            State::Attacking => FrameRange { start: 0, end: 5 },
            State::Dying => FrameRange { start: 16, end: 21 },
            State::Falling => FrameRange { start: 24, end: 25 },
            State::Idling => FrameRange { start: 32, end: 39 },
            State::Jumping => FrameRange { start: 40, end: 41 },
            State::Running => FrameRange { start: 48, end: 55 },
            State::TakingHit => FrameRange { start: 64, end: 67 },
        },
        Player::Two => match state {
            State::Attacking => FrameRange { start: 0, end: 3 },
            State::Dying => FrameRange { start: 16, end: 22 },
            State::Falling => FrameRange { start: 24, end: 25 },
            State::Idling => FrameRange { start: 32, end: 35 },
            State::Jumping => FrameRange { start: 40, end: 41 },
            State::Running => FrameRange { start: 48, end: 55 },
            State::TakingHit => FrameRange { start: 56, end: 58 },
        },
    }
}

/// The connect frame of the attack of `player`: 4 for player one, 2 for
/// player two.
#[verifier::when_used_as_spec(attack_frame_spec)]
pub fn attack_frame(player: Player) -> (frame: usize)
    ensures
        frame == attack_frame_spec(player),
{
    match player {
        Player::One => 4,
        Player::Two => 2,
    }
}

/// The frame at which the attack of `player` is heard: 3 for both players.
#[verifier::when_used_as_spec(attack_audio_frame_spec)]
pub fn attack_audio_frame(player: Player) -> (frame: usize)
    ensures
        frame == attack_audio_frame_spec(player),
{
    match player {
        Player::One => 3,
        Player::Two => 3,
    }
}

/// Damage of one attack of `player`: 10 for the slow attack of player one,
/// 8 for the quick attack of player two.
#[verifier::when_used_as_spec(attack_damage_spec)]
pub fn attack_damage(player: Player) -> (damage: u8)
    ensures
        damage == attack_damage_spec(player),
{
    match player {
        Player::One => 10,
        Player::Two => 8,
    }
}

/// The step of the sequencer on one range: a frame outside the range is
/// reset to the start, the last frame wraps to the start and reports a loop,
/// any other frame moves on by one.
pub open spec fn next_in_range(current: usize, start: usize, end: usize) -> (usize, bool) {
    if current < start || current > end {
        (start, false)
    } else if current == end {
        (start, true)
    } else {
        ((current + 1) as usize, false)
    }
}

/// The step of the sequencer for `player` in `state`. The death animation
/// does not loop: it stays on its last frame.
pub open spec fn next_frame_spec(player: Player, state: State, current: usize) -> (usize, bool) {
    let range = frame_range_spec(player, state);
    let (frame, looped) = next_in_range(current, range.start, range.end);
    if state == State::Dying && looped {
        (range.end, false)
    } else {
        (frame, looped)
    }
}

/// Returns the frame that follows `current` in the range `start..=end`, and
/// whether the animation wrapped round to `start`.
pub fn next_player_sprite_frame(current: usize, start: usize, end: usize) -> (next: (usize, bool))
    ensures
        next == next_in_range(current, start, end),
        start <= end ==> start <= next.0 <= end,
{
    if current < start || current > end {
        (start, false)
    } else if current == end {
        (start, true)
    } else {
        (current + 1, false)
    }
}

/// Returns the frame that follows `current` for `player` in `state`, and
/// whether the animation wrapped round.
pub fn next_frame(player: Player, state: State, current: usize) -> (next: (usize, bool))
    ensures
        next == next_frame_spec(player, state, current),
        frame_range_spec(player, state).holds(next.0),
        state == State::Dying ==> !next.1,
{
    let range = frame_range(player, state);
    let (frame, looped) = next_player_sprite_frame(current, range.start, range.end);
    match state {
        State::Dying => {
            if looped {
                (range.end, false)
            } else {
                (frame, looped)
            }
        },
        _ => (frame, looped),
    }
}

/// Whether `frame` belongs to the animation of some state of `player`.
pub open spec fn registered_frame(player: Player, frame: usize) -> bool {
    exists|state: State| #[trigger] frame_range_spec(player, state).holds(frame)
}

/// Tests whether `frame` belongs to the animation of some state of `player`.
pub fn is_registered_frame(player: Player, frame: usize) -> (ok: bool)
    ensures
        ok == registered_frame(player, frame),
{
    let ok = match player {
        Player::One => frame <= 5 || (16 <= frame && frame <= 21) || (24 <= frame && frame <= 25)
            || (32 <= frame && frame <= 41) || (48 <= frame && frame <= 55) || (64 <= frame
            && frame <= 67),
        Player::Two => frame <= 3 || (16 <= frame && frame <= 22) || (24 <= frame && frame <= 25)
            || (32 <= frame && frame <= 35) || (40 <= frame && frame <= 41) || (48 <= frame
            && frame <= 58),
    };
    proof {
        if ok {
            let state = if frame <= 5 {
                State::Attacking
            } else if frame <= 22 {
                State::Dying
            } else if frame <= 25 {
                State::Falling
            } else if frame <= 39 {
                State::Idling
            } else if frame <= 41 {
                State::Jumping
            } else if frame <= 55 {
                State::Running
            } else {
                State::TakingHit
            };
            assert(frame_range_spec(player, state).holds(frame));
        } else {
            assert forall|state: State| !#[trigger] frame_range_spec(player, state).holds(
                frame,
            ) by {}
        }
    }
    ok
}

/// No range of the tables is empty, and the ranges of two states of one
/// player share no frame: a frame tells which animation it belongs to.
pub proof fn lemma_frame_ranges_disjoint(player: Player, a: State, b: State, frame: usize)
    ensures
        frame_range_spec(player, a).start <= frame_range_spec(player, a).end,
        frame_range_spec(player, a).holds(frame) && frame_range_spec(player, b).holds(frame)
            ==> a == b,
{
}

/// The connect frame and the audio frame of an attack lie inside the attack
/// animation, and the connect frame comes before its last frame.
pub proof fn theorem_attack_frames_in_range(player: Player)
    ensures
        frame_range_spec(player, State::Attacking).holds(attack_frame_spec(player)),
        frame_range_spec(player, State::Attacking).holds(attack_audio_frame_spec(player)),
        attack_frame_spec(player) < frame_range_spec(player, State::Attacking).end,
        0 < attack_damage_spec(player) <= 100,
{
}

/// The sequencer never leaves the range of the state it runs for, and within
/// that range it visits the frames in order.
pub proof fn theorem_next_frame_in_range(player: Player, state: State, current: usize)
    ensures
        frame_range_spec(player, state).holds(next_frame_spec(player, state, current).0),
        frame_range_spec(player, state).holds(current) && current < frame_range_spec(
            player,
            state,
        ).end ==> next_frame_spec(player, state, current) == ((current + 1) as usize, false),
        !frame_range_spec(player, state).holds(current) ==> next_frame_spec(
            player,
            state,
            current,
        ) == (frame_range_spec(player, state).start, false),
{
}

} // verus!
