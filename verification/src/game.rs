//! The game loop's decisions: which state the game is in, what a command of
//! the user interface does to it, and what a clock tick sets off.
use vstd::prelude::*;

verus! {

/// Where the game stands.
#[derive(Clone, Copy, Debug, PartialEq, Eq, Structural)]
pub enum GameState {
    WaitingStart,
    Running,
    Paused,
}

impl GameState {
    /// Whether a start command resumes the game: only a paused game does.
    pub fn can_start(&self) -> (b: bool)
        ensures
            b == (*self == GameState::Paused),
    {
        match self {
            GameState::Paused => true,
            _ => false,
        }
    }

    /// Whether a stop command pauses the game: only a running game does.
    pub fn can_pause(&self) -> (b: bool)
        ensures
            b == (*self == GameState::Running),
    {
        match self {
            GameState::Running => true,
            _ => false,
        }
    }

    /// Whether the game runs, so that ticks and messages are processed.
    pub fn is_running(&self) -> (b: bool)
        ensures
            b == (*self == GameState::Running),
    {
        match self {
            GameState::Running => true,
            _ => false,
        }
    }
}

/// A command of the user interface.
#[derive(Clone, Copy, Debug, PartialEq, Eq, Structural)]
pub enum UiCommand {
    StartGame,
    StopGame,
    ResetGame,
    EndGame,
}

/// What the game loop does after a command.
#[derive(Clone, Copy, Debug, PartialEq, Eq, Structural)]
pub enum GameCommandEffect {
    /// Kill every planet that is not dead, then end the loop with an error.
    EndGame,
    /// Restart the clock and start every planet and explorer.
    FirstStart,
    /// Restart the clock.
    Resume,
    /// Nothing happens (a command that does not apply in this state).
    Nothing,
}

/// What a clock tick sets off.
#[derive(Clone, Copy, Debug, PartialEq, Eq, Structural)]
pub enum TickEffect {
    /// Send a sunray to every planet that is not dead.
    SunrayToAll,
    /// Send an asteroid to every planet that is not dead.
    AsteroidToAll,
    /// The scripted sequence is over: the game pauses.
    SequenceEnd,
    /// No script: print what was read, then send a sunray to every planet
    /// that is not dead.
    Unscripted { read: Option<char> },
}

/// The game's state after a command and what the loop does: the end command
/// ends the game from any state; a start command starts a game that waits
/// for its first start and resumes a paused one; a stop command pauses a
/// running game; anything else changes nothing.
pub open spec fn command_outcome(state: GameState, cmd: UiCommand) -> (GameState, GameCommandEffect) {
    match (state, cmd) {
        (_, UiCommand::EndGame) => (state, GameCommandEffect::EndGame),
        (GameState::WaitingStart, UiCommand::StartGame) => (GameState::Running, GameCommandEffect::FirstStart),
        (GameState::Paused, UiCommand::StartGame) => (GameState::Running, GameCommandEffect::Resume),
        (GameState::Running, UiCommand::StopGame) => (GameState::Paused, GameCommandEffect::Nothing),
        _ => (state, GameCommandEffect::Nothing),
    }
}

/// Applies a command of the user interface; see `command_outcome`.
pub fn handle_ui_command(state: GameState, cmd: UiCommand) -> (r: (GameState, GameCommandEffect))
    ensures
        r == command_outcome(state, cmd),
{
    match (state, cmd) {
        (_, UiCommand::EndGame) => (state, GameCommandEffect::EndGame),
        (GameState::WaitingStart, UiCommand::StartGame) => (GameState::Running, GameCommandEffect::FirstStart),
        (GameState::Paused, UiCommand::StartGame) => (GameState::Running, GameCommandEffect::Resume),
        (GameState::Running, UiCommand::StopGame) => (GameState::Paused, GameCommandEffect::Nothing),
        _ => (state, GameCommandEffect::Nothing),
    }
}

/// The game's state after a tick and what it sets off, from the next letter
/// of the scripted sequence: `S` a sunray everywhere, `A` an asteroid
/// everywhere, `$` the end of the script, which pauses the game; anything
/// else, or no letter, a sunray everywhere.
pub open spec fn tick_outcome(state: GameState, next: Option<char>) -> (GameState, TickEffect) {
    match next {
        Some('S') => (state, TickEffect::SunrayToAll),
        Some('A') => (state, TickEffect::AsteroidToAll),
        Some('$') => (GameState::Paused, TickEffect::SequenceEnd),
        _ => (state, TickEffect::Unscripted { read: next }),
    }
}

/// Decides what a clock tick does; see `tick_outcome`.
pub fn process_game_events(state: GameState, next: Option<char>) -> (r: (GameState, TickEffect))
    ensures
        r == tick_outcome(state, next),
{
    match next {
        Some('S') => (state, TickEffect::SunrayToAll),
        Some('A') => (state, TickEffect::AsteroidToAll),
        Some('$') => (GameState::Paused, TickEffect::SequenceEnd),
        _ => (state, TickEffect::Unscripted { read: next }),
    }
}

/// The next letter of the scripted sunray and asteroid sequence; no script
/// is loaded, so there is none.
pub fn pop_sunray_asteroid_sequence() -> (c: Option<char>)
    ensures
        c is None,
{
    None
}

} // verus!
