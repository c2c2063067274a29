use vstd::prelude::*;

use crate::random::RandomSource;
use crate::strategy::{draw_needed, needs_draw, program_turn_gen, turn_of, validate_turn};
use crate::types::{
    ConfigurationError, DifficultLevel, GameError, GameStatus, InvalidMove, PebblesAction,
    PebblesEvent, PebblesInit, Player,
};

verus! {

/// The whole record of one game.
///
/// Between commands it is always the user's turn: every accepted user
/// command is answered by the opponent within the same call, unless it ended
/// the game.
#[derive(Clone, Copy, Debug, PartialEq, Eq, Structural)]
pub struct PebbleGame {
    pub pebbles_count: u32,
    pub max_pebbles_per_turn: u32,
    pub pebbles_remaining: u32,
    /// The pebbles taken by the opponent's most recent move.
    pub program_lastmove: u32,
    pub difficulty: DifficultLevel,
    /// The player who moved first.
    pub first_player: Player,
    pub winner: Option<Player>,
}

/// What a command does when it is accepted: the game after it, the event it
/// reports and the number of random draws it consumes; or why it is rejected.
pub type Outcome = Result<(PebbleGame, PebblesEvent, nat), GameError>;

impl PebbleGame {
    /// The limits hold, the pool never grew, and there is a winner exactly
    /// when the pool is empty.
    pub open spec fn wf(&self) -> bool {
        &&& 1 <= self.max_pebbles_per_turn <= self.pebbles_count
        &&& self.pebbles_remaining <= self.pebbles_count
        &&& (self.winner is Some <==> self.pebbles_remaining == 0)
    }

    pub open spec fn is_finished(&self) -> bool {
        self.winner is Some
    }
}

/// A game with a full pool and no move made yet.
pub open spec fn fresh_game(config: PebblesInit) -> PebbleGame {
    PebbleGame {
        pebbles_count: config.pebbles_count,
        max_pebbles_per_turn: config.max_pebbles_per_turn,
        pebbles_remaining: config.pebbles_count,
        program_lastmove: 0,
        difficulty: config.difficult_level,
        first_player: Player::User,
        winner: None,
    }
}

/// The opponent moves on `g`. A draw is taken from the front of `draws`
/// where the strategy needs one.
pub open spec fn program_move_outcome(g: PebbleGame, draws: Seq<u32>) -> Outcome {
    let need = needs_draw(g.difficulty, g.max_pebbles_per_turn, g.pebbles_remaining);
    if need && draws.len() == 0 {
        Err(GameError::RandomnessUnavailable)
    } else {
        let draw: u32 = if need {
            draws[0]
        } else {
            0
        };
        let c = turn_of(g.difficulty, g.max_pebbles_per_turn, g.pebbles_remaining, draw);
        let left = (g.pebbles_remaining - c) as u32;
        let after = PebbleGame {
            pebbles_remaining: left,
            program_lastmove: c as u32,
            winner: if left == 0 {
                Some(Player::Program)
            } else {
                None
            },
            ..g
        };
        let event = if left == 0 {
            PebblesEvent::Won(Player::Program)
        } else {
            PebblesEvent::CounterTurn(c as u32)
        };
        Ok((after, event, if need { 1nat } else { 0nat }))
    }
}

/// The user takes `count` pebbles; unless that empties the pool, the
/// opponent answers.
pub open spec fn user_move_outcome(g: PebbleGame, count: u32, draws: Seq<u32>) -> Outcome {
    if g.is_finished() {
        Err(GameError::GameFinished)
    } else if count < 1 || count > g.max_pebbles_per_turn {
        Err(GameError::InvalidMove(InvalidMove::OutOfRange))
    } else if count > g.pebbles_remaining {
        Err(GameError::InvalidMove(InvalidMove::InsufficientPebbles))
    } else if count == g.pebbles_remaining {
        Ok(
            (
                PebbleGame { pebbles_remaining: 0, winner: Some(Player::User), ..g },
                PebblesEvent::Won(Player::User),
                0nat,
            ),
        )
    } else {
        program_move_outcome(
            PebbleGame { pebbles_remaining: (g.pebbles_remaining - count) as u32, ..g },
            draws,
        )
    }
}

/// The user passes the turn without taking a pebble; the opponent answers.
pub open spec fn give_up_outcome(g: PebbleGame, draws: Seq<u32>) -> Outcome {
    if g.is_finished() {
        Err(GameError::GameFinished)
    } else {
        program_move_outcome(g, draws)
    }
}

/// A coin flip on the front draw picks who begins: an even draw the user,
/// an odd one the opponent, who then moves at once.
pub open spec fn first_play_outcome(g: PebbleGame, draws: Seq<u32>) -> Outcome {
    if draws.len() == 0 {
        Err(GameError::RandomnessUnavailable)
    } else if draws[0] % 2 == 0 {
        Ok((PebbleGame { first_player: Player::User, ..g }, PebblesEvent::CounterTurn(0), 1nat))
    } else {
        match program_move_outcome(
            PebbleGame { first_player: Player::Program, ..g },
            draws.drop_first(),
        ) {
            Ok((after, event, used)) => Ok((after, event, used + 1)),
            Err(e) => Err(e),
        }
    }
}

/// A new game from `config`, which must allow between one pebble and the
/// whole pool in a turn.
pub open spec fn init_outcome(config: PebblesInit, draws: Seq<u32>) -> Outcome {
    if config.max_pebbles_per_turn > config.pebbles_count {
        Err(GameError::Configuration(ConfigurationError::MaxExceedsTotal))
    } else if config.max_pebbles_per_turn == 0 {
        Err(GameError::Configuration(ConfigurationError::ZeroMaxPerTurn))
    } else {
        first_play_outcome(fresh_game(config), draws)
    }
}

/// A restart ignores the game it replaces.
pub open spec fn restart_outcome(
    g: PebbleGame,
    difficulty: DifficultLevel,
    pebbles_count: u32,
    max_pebbles_per_turn: u32,
    draws: Seq<u32>,
) -> Outcome {
    init_outcome(
        PebblesInit { difficult_level: difficulty, pebbles_count, max_pebbles_per_turn },
        draws,
    )
}

/// Any command applied to a started game.
pub open spec fn action_outcome(g: PebbleGame, action: PebblesAction, draws: Seq<u32>) -> Outcome {
    match action {
        PebblesAction::Turn(count) => user_move_outcome(g, count, draws),
        PebblesAction::GiveUp => give_up_outcome(g, draws),
        PebblesAction::Restart { difficult_level, pebbles_count, max_pebbles_per_turn } =>
            restart_outcome(g, difficult_level, pebbles_count, max_pebbles_per_turn, draws),
    }
}

/// A command sent to the slot that holds the game, empty before the first
/// game starts.
pub open spec fn handle_outcome(
    game: Option<PebbleGame>,
    action: PebblesAction,
    draws: Seq<u32>,
) -> Outcome {
    match game {
        Some(g) => action_outcome(g, action, draws),
        None => Err(GameError::NotInitialized),
    }
}

/// A call that returned `r`, took the game from `before` to `after` and the
/// draws from `draws_before` to `draws_after`, did what `outcome` says:
/// on success the new game, its event and the consumed draws; on a rejection
/// the error, with the game and the draws untouched.
pub open spec fn performs(
    outcome: Outcome,
    r: Result<PebblesEvent, GameError>,
    before: PebbleGame,
    after: PebbleGame,
    draws_before: Seq<u32>,
    draws_after: Seq<u32>,
) -> bool {
    match outcome {
        Ok((g, event, used)) => r == Ok::<PebblesEvent, GameError>(event) && after == g
            && draws_after == draws_before.skip(used as int),
        Err(e) => r == Err::<PebblesEvent, GameError>(e) && after == before && draws_after
            == draws_before,
    }
}

impl PebbleGame {
    /// The opponent's move: it takes pebbles as its strategy says and wins if
    /// it empties the pool.
    pub fn program_move(&mut self, rng: &mut RandomSource) -> (r: Result<PebblesEvent, GameError>)
        requires
            old(self).wf(),
            !old(self).is_finished(),
            old(rng).wf(),
        ensures
            final(self).wf(),
            final(rng).wf(),
            performs(
                program_move_outcome(*old(self), old(rng)@),
                r,
                *old(self),
                *final(self),
                old(rng)@,
                final(rng)@,
            ),
    {
        let need = draw_needed(self.difficulty, self.max_pebbles_per_turn, self.pebbles_remaining);
        let mut draw: u32 = 0;
        if need {
            match rng.peek(0) {
                Some(v) => {
                    draw = v;
                },
                None => {
                    return Err(GameError::RandomnessUnavailable);
                },
            }
        }
        let count = program_turn_gen(
            self.difficulty,
            self.max_pebbles_per_turn,
            self.pebbles_remaining,
            draw,
        );
        if need {
            rng.skip(1);
        } else {
            assert(rng@ =~= old(rng)@.skip(0));
        }
        self.pebbles_remaining = self.pebbles_remaining - count;
        self.program_lastmove = count;
        if self.pebbles_remaining == 0 {
            self.winner = Some(Player::Program);
            Ok(PebblesEvent::Won(Player::Program))
        } else {
            Ok(PebblesEvent::CounterTurn(count))
        }
    }

    /// The user takes `count` pebbles. Unless that empties the pool, and so
    /// wins, the opponent answers at once.
    pub fn user_move(&mut self, count: u32, rng: &mut RandomSource) -> (r: Result<
        PebblesEvent,
        GameError,
    >)
        requires
            old(self).wf(),
            old(rng).wf(),
        ensures
            final(self).wf(),
            final(rng).wf(),
            performs(
                user_move_outcome(*old(self), count, old(rng)@),
                r,
                *old(self),
                *final(self),
                old(rng)@,
                final(rng)@,
            ),
    {
        if self.winner.is_some() {
            return Err(GameError::GameFinished);
        }
        match validate_turn(self.pebbles_remaining, self.max_pebbles_per_turn, count) {
            Err(e) => {
                return Err(GameError::InvalidMove(e));
            },
            Ok(()) => {},
        }
        let left = self.pebbles_remaining - count;
        if left == 0 {
            self.pebbles_remaining = 0;
            self.winner = Some(Player::User);
            assert(rng@ =~= old(rng)@.skip(0));
            return Ok(PebblesEvent::Won(Player::User));
        }
        if draw_needed(self.difficulty, self.max_pebbles_per_turn, left) && rng.remaining() == 0 {
            return Err(GameError::RandomnessUnavailable);
        }
        self.pebbles_remaining = left;
        self.program_move(rng)
    }

    /// The user passes the turn without taking a pebble, and the opponent
    /// answers. Giving up never ends the game by itself.
    pub fn give_up(&mut self, rng: &mut RandomSource) -> (r: Result<PebblesEvent, GameError>)
        requires
            old(self).wf(),
            old(rng).wf(),
        ensures
            final(self).wf(),
            final(rng).wf(),
            performs(
                give_up_outcome(*old(self), old(rng)@),
                r,
                *old(self),
                *final(self),
                old(rng)@,
                final(rng)@,
            ),
    {
        if self.winner.is_some() {
            return Err(GameError::GameFinished);
        }
        self.program_move(rng)
    }

    /// Picks who begins by a coin flip; where the opponent begins, it moves
    /// at once.
    pub fn first_play(&mut self, rng: &mut RandomSource) -> (r: Result<PebblesEvent, GameError>)
        requires
            old(self).wf(),
            !old(self).is_finished(),
            old(rng).wf(),
        ensures
            final(self).wf(),
            final(rng).wf(),
            performs(
                first_play_outcome(*old(self), old(rng)@),
                r,
                *old(self),
                *final(self),
                old(rng)@,
                final(rng)@,
            ),
    {
        let coin = match rng.peek(0) {
            Some(v) => v,
            None => {
                return Err(GameError::RandomnessUnavailable);
            },
        };
        if coin % 2 == 0 {
            rng.skip(1);
            self.first_player = Player::User;
            return Ok(PebblesEvent::CounterTurn(0));
        }
        if draw_needed(self.difficulty, self.max_pebbles_per_turn, self.pebbles_remaining)
            && rng.remaining() < 2 {
            return Err(GameError::RandomnessUnavailable);
        }
        let ghost draws = rng@;
        rng.skip(1);
        assert(rng@ =~= draws.drop_first());
        self.first_player = Player::Program;
        let r = self.program_move(rng);
        proof {
            let opened = PebbleGame { first_player: Player::Program, ..*old(self) };
            if let Ok((_, _, used)) = program_move_outcome(opened, draws.drop_first()) {
                assert(draws.drop_first().skip(used as int) =~= draws.skip((used + 1) as int));
            }
        }
        r
    }

    /// Throws this game away and starts a new one, exactly as `init` would.
    pub fn restart(
        &mut self,
        difficulty: DifficultLevel,
        pebbles_count: u32,
        max_pebbles_per_turn: u32,
        rng: &mut RandomSource,
    ) -> (r: Result<PebblesEvent, GameError>)
        requires
            old(rng).wf(),
        ensures
            final(rng).wf(),
            r is Ok ==> final(self).wf(),
            performs(
                restart_outcome(
                    *old(self),
                    difficulty,
                    pebbles_count,
                    max_pebbles_per_turn,
                    old(rng)@,
                ),
                r,
                *old(self),
                *final(self),
                old(rng)@,
                final(rng)@,
            ),
    {
        let config = PebblesInit { difficult_level: difficulty, pebbles_count, max_pebbles_per_turn };
        match init(config, rng) {
            Ok((game, event)) => {
                *self = game;
                Ok(event)
            },
            Err(e) => Err(e),
        }
    }

    /// The summary of this game.
    pub fn status(&self) -> (r: GameStatus)
        ensures
            r.pebbles_count == self.pebbles_count,
            r.max_pebbles_per_turn == self.max_pebbles_per_turn,
            r.pebbles_remaining == self.pebbles_remaining,
            r.difficult_level == self.difficulty,
            r.first_player == self.first_player,
            r.winner == self.winner,
    {
        GameStatus {
            pebbles_count: self.pebbles_count,
            max_pebbles_per_turn: self.max_pebbles_per_turn,
            pebbles_remaining: self.pebbles_remaining,
            difficult_level: self.difficulty,
            first_player: self.first_player,
            winner: self.winner,
        }
    }
}

/// Starts a game from `config`: checks the limits, then flips the coin for
/// the first move.
pub fn init(config: PebblesInit, rng: &mut RandomSource) -> (r: Result<
    (PebbleGame, PebblesEvent),
    GameError,
>)
    requires
        old(rng).wf(),
    ensures
        final(rng).wf(),
        match init_outcome(config, old(rng)@) {
            Ok((g, event, used)) => r == Ok::<(PebbleGame, PebblesEvent), GameError>((g, event))
                && g.wf() && final(rng)@ == old(rng)@.skip(used as int),
            Err(e) => r == Err::<(PebbleGame, PebblesEvent), GameError>(e) && final(rng)@ == old(
                rng,
            )@,
        },
{
    if config.max_pebbles_per_turn > config.pebbles_count {
        return Err(GameError::Configuration(ConfigurationError::MaxExceedsTotal));
    }
    if config.max_pebbles_per_turn == 0 {
        return Err(GameError::Configuration(ConfigurationError::ZeroMaxPerTurn));
    }
    let mut game = PebbleGame {
        pebbles_count: config.pebbles_count,
        max_pebbles_per_turn: config.max_pebbles_per_turn,
        pebbles_remaining: config.pebbles_count,
        program_lastmove: 0,
        difficulty: config.difficult_level,
        first_player: Player::User,
        winner: None,
    };
    match game.first_play(rng) {
        Ok(event) => Ok((game, event)),
        Err(e) => Err(e),
    }
}

/// Applies one user command to the game held in `game`.
pub fn handle(game: &mut Option<PebbleGame>, action: PebblesAction, rng: &mut RandomSource) -> (r:
    Result<PebblesEvent, GameError>)
    requires
        *old(game) matches Some(g) ==> g.wf(),
        old(rng).wf(),
    ensures
        *final(game) matches Some(g) ==> g.wf(),
        final(rng).wf(),
        match handle_outcome(*old(game), action, old(rng)@) {
            Ok((g, event, used)) => r == Ok::<PebblesEvent, GameError>(event) && *final(game)
                == Some(g) && final(rng)@ == old(rng)@.skip(used as int),
            Err(e) => r == Err::<PebblesEvent, GameError>(e) && *final(game) == *old(game)
                && final(rng)@ == old(rng)@,
        },
{
    let mut g = match *game {
        Some(g) => g,
        None => {
            return Err(GameError::NotInitialized);
        },
    };
    let r = match action {
        PebblesAction::Turn(count) => g.user_move(count, rng),
        PebblesAction::GiveUp => g.give_up(rng),
        PebblesAction::Restart { difficult_level, pebbles_count, max_pebbles_per_turn } => {
            g.restart(difficult_level, pebbles_count, max_pebbles_per_turn, rng)
        },
    };
    *game = Some(g);
    r
}

/// A copy of the game held in `game`.
pub fn state(game: &Option<PebbleGame>) -> (r: Result<PebbleGame, GameError>)
    ensures
        match *game {
            Some(g) => r == Ok::<PebbleGame, GameError>(g),
            None => r == Err::<PebbleGame, GameError>(GameError::NotInitialized),
        },
{
    match game {
        Some(g) => Ok(*g),
        None => Err(GameError::NotInitialized),
    }
}

} // verus!
