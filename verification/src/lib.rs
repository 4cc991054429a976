//! Rules of a two-player arena fighting game.
//!
//! The crate holds the deterministic core of the game: the combat state
//! machine of each fighter, the movement stepper, the attack collision
//! resolver, the animation frame sequencer and the match controller. It
//! draws nothing and reads no device: its surroundings hand it, tick by
//! tick, the input of the players, the time that has passed and the timers
//! that have fired, and show what it reports.
//!
//! All quantities are integers in fixed-point units (module [`units`]), so
//! that a match replays exactly. Every function is verified against a
//! mathematical model of the rules, and the module [`theorems`] states what
//! holds of every match.
//!
//! A tick of a match ([`Game::tick`]) runs, for both fighters and in this
//! order, the stages [`Fighter::apply_controls`], [`Fighter::step`],
//! [`collision::collision_system`] and [`Fighter::animate`], and then asks
//! [`game::game_over_system`] whether the match has ended.

pub mod animation;
pub mod clock;
pub mod collision;
pub mod countdown;
pub mod fighter;
pub mod flow;
pub mod frames;
pub mod game;
pub mod geometry;
pub mod health;
pub mod input;
pub mod movement;
pub mod player;
pub mod state;
pub mod theorems;
pub mod units;

pub use crate::animation::FrameUpdate;
pub use crate::clock::TickClock;
pub use crate::collision::HealthUpdateEvent;
pub use crate::countdown::{CountdownTimer, CountdownUpdate};
pub use crate::fighter::Fighter;
pub use crate::flow::{FlowEvent, GameState, MenuAction};
pub use crate::frames::FrameRange;
pub use crate::game::{Game, Outcome, TickInput, TickReport};
pub use crate::geometry::{Aabb, BoxShape};
pub use crate::health::HealthBar;
pub use crate::input::{Controls, Key, Keys};
pub use crate::player::Player;
pub use crate::state::State;
