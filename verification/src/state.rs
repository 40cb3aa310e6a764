//! The coarse life cycle of the game: menu, playing, death.

use vstd::prelude::*;

verus! {

/// Where the game is in its life cycle.
#[derive(Clone, Copy, Debug, PartialEq, Eq, Hash, Structural)]
pub enum GameState {
    Menu,
    Playing,
    Death,
}

/// What can move the game from one state to another.
#[derive(Clone, Copy, Debug, PartialEq, Eq, Structural)]
pub enum Trigger {
    /// The player asked to play, from the menu.
    Play,
    /// No atom of the player is left.
    PlayerGone,
    /// The player asked to play again, after a death.
    Respawn,
    /// The player asked for the menu, after a death.
    ReturnToMenu,
}

/// The state that follows. A trigger that does not belong to the state leaves
/// it as it is.
pub open spec fn next_state(state: GameState, trigger: Trigger) -> GameState {
    match (state, trigger) {
        (GameState::Menu, Trigger::Play) => GameState::Playing,
        (GameState::Playing, Trigger::PlayerGone) => GameState::Death,
        (GameState::Death, Trigger::Respawn) => GameState::Playing,
        (GameState::Death, Trigger::ReturnToMenu) => GameState::Menu,
        _ => state,
    }
}

impl GameState {
    /// The state in which the game starts.
    pub fn initial() -> (state: GameState)
        ensures
            state == GameState::Menu,
    {
        GameState::Menu
    }

    /// The state that follows this one on a trigger.
    pub fn on(&self, trigger: Trigger) -> (next: GameState)
        ensures
            next == next_state(*self, trigger),
    {
        match (*self, trigger) {
            (GameState::Menu, Trigger::Play) => GameState::Playing,
            (GameState::Playing, Trigger::PlayerGone) => GameState::Death,
            (GameState::Death, Trigger::Respawn) => GameState::Playing,
            (GameState::Death, Trigger::ReturnToMenu) => GameState::Menu,
            _ => *self,
        }
    }
}

impl Default for GameState {
    fn default() -> (state: GameState)
        ensures
            state == GameState::Menu,
    {
        GameState::Menu
    }
}

/// Tells the state machine that the player is gone, once no molecule of the
/// player is left.
pub fn game_end_system(players: usize) -> (trigger: Option<Trigger>)
    ensures
        trigger == if players == 0 {
            Some(Trigger::PlayerGone)
        } else {
            None
        },
{
    if players == 0 {
        Some(Trigger::PlayerGone)
    } else {
        None
    }
}

/// Tells the state machine what a pressed button asks for: the button of the
/// menu asks to play.
pub fn play_system(pressed: bool) -> (trigger: Option<Trigger>)
    ensures
        trigger == if pressed {
            Some(Trigger::Play)
        } else {
            None
        },
{
    if pressed {
        Some(Trigger::Play)
    } else {
        None
    }
}

/// The button to play again, shown after a death.
pub fn respawn_button_system(pressed: bool) -> (trigger: Option<Trigger>)
    ensures
        trigger == if pressed {
            Some(Trigger::Respawn)
        } else {
            None
        },
{
    if pressed {
        Some(Trigger::Respawn)
    } else {
        None
    }
}

/// The button that leads back to the menu, shown after a death.
pub fn menu_button_system(pressed: bool) -> (trigger: Option<Trigger>)
    ensures
        trigger == if pressed {
            Some(Trigger::ReturnToMenu)
        } else {
            None
        },
{
    if pressed {
        Some(Trigger::ReturnToMenu)
    } else {
        None
    }
}

} // verus!
