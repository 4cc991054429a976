//! The phases of the program and the menu actions that move between them.

use vstd::prelude::*;

verus! {

/// The phase the program is in.
#[derive(Clone, Copy, Debug, PartialEq, Eq, Structural, Hash)]
pub enum GameState {
    /// The assets are being loaded.
    AssetLoading,
    /// The main menu is shown.
    MainMenu,
    /// A match is being fought.
    InGame,
    /// The match is over and its result is shown.
    GameOver,
}

/// What moves the program from one phase to the next.
#[derive(Clone, Copy, Debug, PartialEq, Eq, Structural)]
pub enum FlowEvent {
    /// All assets are loaded.
    AssetsLoaded,
    /// A new game was asked for in the main menu.
    Play,
    /// The match controller has declared the match over.
    MatchOver,
    /// The result screen was dismissed.
    Continue,
}

/// What a menu asks for.
#[derive(Clone, Copy, Debug, PartialEq, Eq, Structural)]
pub enum MenuAction {
    /// Start a match.
    Play,
    /// Leave the program.
    Quit,
    /// Go back to the main menu.
    Continue,
}

impl GameState {
    /// The phase after `event`. An event that does not belong to the phase
    /// changes nothing.
    pub open spec fn after(&self, event: FlowEvent) -> GameState {
        match (*self, event) {
            (GameState::AssetLoading, FlowEvent::AssetsLoaded) => GameState::MainMenu,
            (GameState::MainMenu, FlowEvent::Play) => GameState::InGame,
            (GameState::InGame, FlowEvent::MatchOver) => GameState::GameOver,
            (GameState::GameOver, FlowEvent::Continue) => GameState::MainMenu,
            _ => *self,
        }
    }

    /// Moves to the phase that follows on `event`.
    pub fn on_event(&self, event: FlowEvent) -> (next: GameState)
        ensures
            next == self.after(event),
    {
        match (*self, event) {
            (GameState::AssetLoading, FlowEvent::AssetsLoaded) => GameState::MainMenu,
            (GameState::MainMenu, FlowEvent::Play) => GameState::InGame,
            (GameState::InGame, FlowEvent::MatchOver) => GameState::GameOver,
            (GameState::GameOver, FlowEvent::Continue) => GameState::MainMenu,
            _ => *self,
        }
    }

    /// Whether fighters take input in this phase.
    pub open spec fn accepts_input(&self) -> bool {
        *self == GameState::InGame
    }

    /// Whether fighters move and animate in this phase.
    pub open spec fn simulates(&self) -> bool {
        *self == GameState::InGame || *self == GameState::GameOver
    }
}

/// The action that the keyboard asks of the main menu: the return key
/// starts a match; the escape key quits, where quitting is offered, unless
/// the return key is pressed too.
pub fn main_menu_key(return_pressed: bool, escape_pressed: bool, quit_offered: bool) -> (action:
    Option<MenuAction>)
    ensures
        action == if return_pressed {
            Some(MenuAction::Play)
        } else if quit_offered && escape_pressed {
            Some(MenuAction::Quit)
        } else {
            None
        },
{
    if return_pressed {
        Some(MenuAction::Play)
    } else if quit_offered && escape_pressed {
        Some(MenuAction::Quit)
    } else {
        None
    }
}

/// The action that the keyboard asks of the result screen: the return key
/// goes back to the main menu.
pub fn game_over_key(return_pressed: bool) -> (action: Option<MenuAction>)
    ensures
        action == if return_pressed {
            Some(MenuAction::Continue)
        } else {
            None
        },
{
    if return_pressed {
        Some(MenuAction::Continue)
    } else {
        None
    }
}

} // verus!
