use vstd::prelude::*;

verus! {

/// How the automated opponent picks its moves.
#[derive(Clone, Copy, Debug, PartialEq, Eq, Structural)]
pub enum DifficultLevel {
    Hard,
    Easy,
}

impl Default for DifficultLevel {
    fn default() -> (r: DifficultLevel)
        ensures
            r == DifficultLevel::Easy,
    {
        DifficultLevel::Easy
    }
}

/// One of the two sides of a game.
#[derive(Clone, Copy, Debug, PartialEq, Eq, Structural)]
pub enum Player {
    Program,
    User,
}

impl Default for Player {
    fn default() -> (r: Player)
        ensures
            r == Player::User,
    {
        Player::User
    }
}

/// The parameters of a new game.
#[derive(Clone, Copy, Debug, PartialEq, Eq, Structural)]
pub struct PebblesInit {
    pub difficult_level: DifficultLevel,
    /// The pebbles in the pool at the start.
    pub pebbles_count: u32,
    /// The most pebbles that one turn may take.
    pub max_pebbles_per_turn: u32,
}

/// A command sent by the user.
#[derive(Clone, Copy, Debug, PartialEq, Eq, Structural)]
pub enum PebblesAction {
    /// Take this many pebbles.
    Turn(u32),
    /// Pass the turn to the opponent without taking any pebble.
    GiveUp,
    /// Throw the current game away and start a new one.
    Restart { difficult_level: DifficultLevel, pebbles_count: u32, max_pebbles_per_turn: u32 },
}

/// What the engine reports after a command.
#[derive(Clone, Copy, Debug, PartialEq, Eq, Structural)]
pub enum PebblesEvent {
    /// The opponent took this many pebbles; `CounterTurn(0)` opens a game that the user begins.
    CounterTurn(u32),
    /// This player took the last pebble.
    Won(Player),
}

/// A read-only summary of a game.
#[derive(Clone, Copy, Debug, PartialEq, Eq, Structural)]
pub struct GameStatus {
    pub pebbles_count: u32,
    pub max_pebbles_per_turn: u32,
    pub pebbles_remaining: u32,
    pub difficult_level: DifficultLevel,
    /// The player who moved first.
    pub first_player: Player,
    pub winner: Option<Player>,
}

/// A configuration that cannot start a game.
#[derive(Clone, Copy, Debug, PartialEq, Eq, Structural)]
pub enum ConfigurationError {
    /// More pebbles may be taken in one turn than the pool holds.
    MaxExceedsTotal,
    /// No pebble may be taken in a turn.
    ZeroMaxPerTurn,
}

/// A user move that breaks the rules.
#[derive(Clone, Copy, Debug, PartialEq, Eq, Structural)]
pub enum InvalidMove {
    /// The count is below one or above the per-turn maximum.
    OutOfRange,
    /// The count is above the pebbles that remain.
    InsufficientPebbles,
}

/// Why a command was rejected. A rejected command changes nothing.
#[derive(Clone, Copy, Debug, PartialEq, Eq, Structural)]
pub enum GameError {
    Configuration(ConfigurationError),
    InvalidMove(InvalidMove),
    /// No game has been started yet.
    NotInitialized,
    /// The game has a winner; only a restart is accepted.
    GameFinished,
    /// The random source ran dry.
    RandomnessUnavailable,
}

} // verus!
