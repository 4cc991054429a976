//! The match controller: the two fighters of a match, the order of the
//! stages of a tick, and the end of the match.
//!
//! A tick of a running match passes through its stages in a fixed order:
//! input, movement, collisions, animation, and the check for the end of the
//! match. Once the match is over the fighters take no more input and deal no
//! more damage, but they still move and animate, so that a fighter in the
//! air lands and the last animations play out.

use vstd::prelude::*;
use crate::animation::FrameUpdate;
use crate::collision::{collision_system, hit_events, HealthUpdateEvent};
use crate::fighter::Fighter;
use crate::flow::GameState;
use crate::input::Controls;
use crate::player::Player;

verus! {

/// How a match ended.
#[derive(Clone, Copy, Debug, PartialEq, Eq, Structural)]
pub enum Outcome {
    /// The player with more health left has won.
    Winner(Player),
    /// Both players have the same health left.
    Draw,
}

/// The result of a match that ends with the two healths given: the fighter
/// with more health wins, and equal healths are a draw.
pub open spec fn decided(health_one: u8, health_two: u8) -> Outcome {
    if health_one > health_two {
        Outcome::Winner(Player::One)
    } else if health_two > health_one {
        Outcome::Winner(Player::Two)
    } else {
        Outcome::Draw
    }
}

/// Decides a match from the health left to player one and to player two.
pub fn outcome(health_one: u8, health_two: u8) -> (result: Outcome)
    ensures
        result == decided(health_one, health_two),
{
    if health_one > health_two {
        Outcome::Winner(Player::One)
    } else if health_two > health_one {
        Outcome::Winner(Player::Two)
    } else {
        Outcome::Draw
    }
}

impl Outcome {
    /// The text that announces the outcome.
    pub open spec fn message_spec(&self) -> Seq<char> {
        match *self {
            Outcome::Winner(Player::One) => "PLAYER 1 WINS"@,
            Outcome::Winner(Player::Two) => "PLAYER 2 WINS"@,
            Outcome::Draw => "DRAW"@,
        }
    }

    /// The text that announces the outcome.
    pub fn message(&self) -> (text: &'static str)
        ensures
            text@ == self.message_spec(),
    {
        match *self {
            Outcome::Winner(Player::One) => "PLAYER 1 WINS",
            Outcome::Winner(Player::Two) => "PLAYER 2 WINS",
            Outcome::Draw => "DRAW",
        }
    }
}

/// A match is over when its countdown is complete or when one of the events
/// of the tick tells of a fighter without health.
pub open spec fn match_over(countdown_complete: bool, events: Seq<HealthUpdateEvent>) -> bool {
    countdown_complete || exists|i: int| 0 <= i < events.len() && (#[trigger] events[i]).health == 0
}

/// Checks whether the match is over, from whether the countdown has
/// completed in this tick and from the health events of the tick.
pub fn game_over_system(countdown_complete: bool, events: &Vec<HealthUpdateEvent>) -> (over: bool)
    ensures
        over == match_over(countdown_complete, events@),
{
    if countdown_complete {
        return true;
    }
    let mut i: usize = 0;
    while i < events.len()
        invariant
            i <= events.len(),
            forall|j: int| 0 <= j < i ==> (#[trigger] events@[j]).health != 0,
        decreases events.len() - i,
    {
        if events[i].health == 0 {
            return true;
        }
        i = i + 1;
    }
    false
}

/// What the surroundings of a match hand to one tick of it.
#[derive(Clone, Copy, Debug, PartialEq, Eq, Structural)]
pub struct TickInput {
    /// Time since the last tick, in milliseconds.
    pub elapsed_ms: u16,
    /// The input of player one.
    pub controls_one: Controls,
    /// The input of player two.
    pub controls_two: Controls,
    /// Whether the frame timer of player one has fired.
    pub frame_timer_one: bool,
    /// Whether the frame timer of player two has fired.
    pub frame_timer_two: bool,
    /// Whether the countdown of the match has completed.
    pub countdown_complete: bool,
}

/// What one tick of a match hands back to its surroundings.
#[derive(Debug)]
pub struct TickReport {
    /// The health events of the tick, in the order of the players.
    pub events: Vec<HealthUpdateEvent>,
    /// The new animation frame of player one, if it has changed.
    pub frame_one: Option<FrameUpdate>,
    /// The new animation frame of player two, if it has changed.
    pub frame_two: Option<FrameUpdate>,
    /// The phase after the tick.
    pub state: GameState,
}

/// A match: the phase and the two fighters.
#[derive(Clone, Copy, Debug, PartialEq, Eq, Structural)]
pub struct Game {
    pub state: GameState,
    pub one: Fighter,
    pub two: Fighter,
}

impl Game {
    /// The invariant of a match: each fighter is well formed and stands in
    /// its own slot.
    pub open spec fn wf(&self) -> bool {
        &&& self.one.wf()
        &&& self.two.wf()
        &&& self.one.player == Player::One
        &&& self.two.player == Player::Two
    }

    /// A match at its beginning.
    pub open spec fn opening() -> Game {
        Game {
            state: GameState::InGame,
            one: Fighter::spawned(
                Player::One,
                crate::fighter::spawn_x_spec(Player::One),
                crate::fighter::spawn_ground_y_spec(Player::One),
                crate::fighter::hurtbox_shape_spec(Player::One),
                crate::fighter::attackbox_shape_spec(Player::One),
            ),
            two: Fighter::spawned(
                Player::Two,
                crate::fighter::spawn_x_spec(Player::Two),
                crate::fighter::spawn_ground_y_spec(Player::Two),
                crate::fighter::hurtbox_shape_spec(Player::Two),
                crate::fighter::attackbox_shape_spec(Player::Two),
            ),
        }
    }

    /// Starts a match: both fighters at their spawn points, idle and at
    /// full health.
    pub fn start() -> (game: Game)
        ensures
            game == Game::opening(),
            game.wf(),
    {
        Game {
            state: GameState::InGame,
            one: Fighter::new(Player::One),
            two: Fighter::new(Player::Two),
        }
    }

    /// Checks the invariant of the match at run time.
    pub fn is_well_formed(&self) -> (ok: bool)
        ensures
            ok == self.wf(),
    {
        self.one.is_well_formed() && self.two.is_well_formed() && self.one.player == Player::One
            && self.two.player == Player::Two
    }

    /// The fighter of `player`.
    pub open spec fn fighter_spec(&self, player: Player) -> Fighter {
        match player {
            Player::One => self.one,
            Player::Two => self.two,
        }
    }

    /// The fighter of `player`.
    pub fn fighter(&self, player: Player) -> (f: &Fighter)
        ensures
            *f == self.fighter_spec(player),
    {
        match player {
            Player::One => &self.one,
            Player::Two => &self.two,
        }
    }

    /// Player one after the input and movement stages of a tick of a running
    /// match.
    pub open spec fn one_moved(&self, input: TickInput) -> Fighter {
        self.one.after_controls(input.controls_one).after_step(input.elapsed_ms, false)
    }

    /// Player two after the input and movement stages of a tick of a running
    /// match.
    pub open spec fn two_moved(&self, input: TickInput) -> Fighter {
        self.two.after_controls(input.controls_two).after_step(input.elapsed_ms, false)
    }

    /// The health events of a tick of a running match.
    pub open spec fn tick_events(&self, input: TickInput) -> Seq<HealthUpdateEvent> {
        hit_events(&self.one_moved(input), &self.two_moved(input))
    }

    /// A running match after one tick: input, movement, collisions and
    /// animation in this order, and the match over if the countdown has
    /// completed or a fighter was left without health.
    pub open spec fn after_fight(&self, input: TickInput) -> Game {
        let one = self.one_moved(input);
        let two = self.two_moved(input);
        let over = match_over(input.countdown_complete, hit_events(&one, &two));
        Game {
            state: if over {
                GameState::GameOver
            } else {
                GameState::InGame
            },
            one: one.after_hit(&two).after_animation(input.frame_timer_one),
            two: two.after_hit(&one).after_animation(input.frame_timer_two),
        }
    }

    /// A match that is over after one tick: the fighters move and animate,
    /// and nothing else happens.
    pub open spec fn after_aftermath(&self, input: TickInput) -> Game {
        Game {
            one: self.one.after_step(input.elapsed_ms, true).after_animation(input.frame_timer_one),
            two: self.two.after_step(input.elapsed_ms, true).after_animation(input.frame_timer_two),
            ..*self
        }
    }

    /// The match after one tick. Outside a match nothing moves.
    pub open spec fn after_tick(&self, input: TickInput) -> Game {
        match self.state {
            GameState::InGame => self.after_fight(input),
            GameState::GameOver => self.after_aftermath(input),
            _ => *self,
        }
    }

    /// The health events that a tick gives rise to.
    pub open spec fn events_of_tick(&self, input: TickInput) -> Seq<HealthUpdateEvent> {
        if self.state == GameState::InGame {
            self.tick_events(input)
        } else {
            Seq::empty()
        }
    }

    /// The frame that a tick reports for a fighter which the earlier stages
    /// of the tick have turned into `staged`.
    pub open spec fn frame_of_tick(&self, staged: Fighter, timer_fired: bool) -> Option<
        FrameUpdate,
    > {
        if self.state.simulates() {
            staged.frame_update(timer_fired)
        } else {
            None
        }
    }

    /// Player one as the animation stage of a tick finds it.
    pub open spec fn one_staged(&self, input: TickInput) -> Fighter {
        if self.state == GameState::InGame {
            self.one_moved(input).after_hit(&self.two_moved(input))
        } else {
            self.one.after_step(input.elapsed_ms, true)
        }
    }

    /// Player two as the animation stage of a tick finds it.
    pub open spec fn two_staged(&self, input: TickInput) -> Fighter {
        if self.state == GameState::InGame {
            self.two_moved(input).after_hit(&self.one_moved(input))
        } else {
            self.two.after_step(input.elapsed_ms, true)
        }
    }

    /// Runs one tick of the match and reports what its surroundings have to
    /// show: the health events, the new frames and the phase.
    pub fn tick(&mut self, input: &TickInput) -> (report: TickReport)
        requires
            old(self).wf(),
        ensures
            *final(self) == old(self).after_tick(*input),
            final(self).wf(),
            report.state == final(self).state,
            report.events@ == old(self).events_of_tick(*input),
            report.frame_one == old(self).frame_of_tick(
                old(self).one_staged(*input),
                input.frame_timer_one,
            ),
            report.frame_two == old(self).frame_of_tick(
                old(self).two_staged(*input),
                input.frame_timer_two,
            ),
    {
        match self.state {
            GameState::InGame => {
                self.one.apply_controls(input.controls_one);
                self.two.apply_controls(input.controls_two);
                self.one.step(input.elapsed_ms, false);
                self.two.step(input.elapsed_ms, false);
                let events = collision_system(&mut self.one, &mut self.two);
                let frame_one = self.one.animate(input.frame_timer_one);
                let frame_two = self.two.animate(input.frame_timer_two);
                if game_over_system(input.countdown_complete, &events) {
                    self.state = GameState::GameOver;
                }
                TickReport { events, frame_one, frame_two, state: self.state }
            },
            GameState::GameOver => {
                self.one.step(input.elapsed_ms, true);
                self.two.step(input.elapsed_ms, true);
                let frame_one = self.one.animate(input.frame_timer_one);
                let frame_two = self.two.animate(input.frame_timer_two);
                TickReport { events: Vec::new(), frame_one, frame_two, state: self.state }
            },
            _ => TickReport {
                events: Vec::new(),
                frame_one: None,
                frame_two: None,
                state: self.state,
            },
        }
    }

    /// The result of the match as the healths of the fighters stand.
    pub fn outcome(&self) -> (result: Outcome)
        ensures
            result == decided(self.one.health, self.two.health),
    {
        outcome(self.one.health, self.two.health)
    }
}

} // verus!
