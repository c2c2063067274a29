use vstd::prelude::*;

use vstd::arithmetic::div_mod::{lemma_mod_decreases, lemma_mod_pos_bound};

use crate::game::{
    action_outcome, give_up_outcome, init_outcome, program_move_outcome, restart_outcome,
    user_move_outcome, PebbleGame,
};
use crate::strategy::{needs_draw, turn_of, winning_take};
use crate::types::{DifficultLevel, GameError, PebblesAction, PebblesEvent, PebblesInit, Player};

verus! {

/// The game after each of `actions` in turn, with rejected commands leaving
/// it as it was. Draws are consumed from the front of `draws`.
pub open spec fn run(g: PebbleGame, actions: Seq<PebblesAction>, draws: Seq<u32>) -> PebbleGame
    decreases actions.len(),
{
    if actions.len() == 0 {
        g
    } else {
        match action_outcome(g, actions[0], draws) {
            Ok((after, _, used)) => run(after, actions.drop_first(), draws.skip(used as int)),
            Err(_) => run(g, actions.drop_first(), draws),
        }
    }
}

/// Every opponent take lies between one and the per-turn maximum, and never
/// exceeds the pool.
pub proof fn lemma_turn_in_range(
    difficulty: DifficultLevel,
    max_per_turn: u32,
    remaining: u32,
    draw: u32,
)
    requires
        max_per_turn >= 1,
        remaining >= 1,
    ensures
        1 <= turn_of(difficulty, max_per_turn, remaining, draw) <= max_per_turn,
        turn_of(difficulty, max_per_turn, remaining, draw) <= remaining,
{
    lemma_mod_decreases(remaining as nat, max_per_turn as nat + 1);
    lemma_mod_pos_bound(remaining as int, max_per_turn as int + 1);
    lemma_mod_pos_bound(draw as int, max_per_turn as int);
    assert(winning_take(max_per_turn, remaining) <= remaining);
}

/// The opponent's move on an unfinished game takes between one and the
/// per-turn maximum, reports it or its win, keeps the game well formed and
/// consumes at most one draw. It fails only for want of a draw.
pub proof fn lemma_program_move(g: PebbleGame, draws: Seq<u32>)
    requires
        g.wf(),
        !g.is_finished(),
    ensures
        match program_move_outcome(g, draws) {
            Ok((after, event, used)) => {
                &&& after.wf()
                &&& 1 <= after.program_lastmove <= g.max_pebbles_per_turn
                &&& after.pebbles_remaining == g.pebbles_remaining - after.program_lastmove
                &&& after.pebbles_count == g.pebbles_count
                &&& after.max_pebbles_per_turn == g.max_pebbles_per_turn
                &&& after.difficulty == g.difficulty
                &&& used <= 1
                &&& if after.pebbles_remaining == 0 {
                    event == PebblesEvent::Won(Player::Program)
                } else {
                    event == PebblesEvent::CounterTurn(after.program_lastmove)
                }
            },
            Err(e) => e == GameError::RandomnessUnavailable && draws.len() == 0,
        },
{
    let need = needs_draw(g.difficulty, g.max_pebbles_per_turn, g.pebbles_remaining);
    if !(need && draws.len() == 0) {
        let draw: u32 = if need {
            draws[0]
        } else {
            0
        };
        lemma_turn_in_range(g.difficulty, g.max_pebbles_per_turn, g.pebbles_remaining, draw);
    }
}

/// Any accepted command keeps the game well formed: the limits hold, and
/// there is a winner exactly when the pool is empty.
pub proof fn lemma_command_keeps_wf(g: PebbleGame, action: PebblesAction, draws: Seq<u32>)
    requires
        g.wf(),
    ensures
        action_outcome(g, action, draws) matches Ok((after, _, _)) ==> after.wf(),
{
    match action {
        PebblesAction::Turn(count) => {
            if !g.is_finished() && 1 <= count <= g.max_pebbles_per_turn && count
                < g.pebbles_remaining {
                lemma_program_move(
                    PebbleGame { pebbles_remaining: (g.pebbles_remaining - count) as u32, ..g },
                    draws,
                );
            }
        },
        PebblesAction::GiveUp => {
            if !g.is_finished() {
                lemma_program_move(g, draws);
            }
        },
        PebblesAction::Restart { difficult_level, pebbles_count, max_pebbles_per_turn } => {
            lemma_init_wf(
                PebblesInit { difficult_level, pebbles_count, max_pebbles_per_turn },
                draws,
            );
        },
    }
}

/// A game that starts is well formed, with a full pool unless the opponent
/// began.
pub proof fn lemma_init_wf(config: PebblesInit, draws: Seq<u32>)
    ensures
        init_outcome(config, draws) matches Ok((g, _, _)) ==> {
            &&& g.wf()
            &&& g.winner is None ==> g.pebbles_remaining == config.pebbles_count
                - g.program_lastmove
            &&& g.first_player == Player::User ==> g.pebbles_remaining == config.pebbles_count
        },
{
    if 1 <= config.max_pebbles_per_turn <= config.pebbles_count && draws.len() > 0 && draws[0] % 2
        != 0 {
        let g = PebbleGame {
            pebbles_count: config.pebbles_count,
            max_pebbles_per_turn: config.max_pebbles_per_turn,
            pebbles_remaining: config.pebbles_count,
            program_lastmove: 0,
            difficulty: config.difficult_level,
            first_player: Player::Program,
            winner: None,
        };
        lemma_program_move(g, draws.drop_first());
    }
}

/// Pebbles only ever leave the pool: over any sequence of turns and
/// give-ups the pool never grows, and the game stays well formed.
pub proof fn lemma_pebbles_never_return(
    g: PebbleGame,
    actions: Seq<PebblesAction>,
    draws: Seq<u32>,
)
    requires
        g.wf(),
        forall|i: int| 0 <= i < actions.len() ==> !(#[trigger] actions[i] is Restart),
    ensures
        run(g, actions, draws).wf(),
        run(g, actions, draws).pebbles_remaining <= g.pebbles_remaining,
    decreases actions.len(),
{
    if actions.len() > 0 {
        let rest = actions.drop_first();
        assert(!(actions[0] is Restart));
        assert forall|i: int| 0 <= i < rest.len() implies !(#[trigger] rest[i] is Restart) by {
            assert(rest[i] == actions[i + 1]);
        }
        match action_outcome(g, actions[0], draws) {
            Ok((after, _, used)) => {
                lemma_command_keeps_wf(g, actions[0], draws);
                match actions[0] {
                    PebblesAction::Turn(count) => {
                        if count < g.pebbles_remaining {
                            lemma_program_move(
                                PebbleGame {
                                    pebbles_remaining: (g.pebbles_remaining - count) as u32,
                                    ..g
                                },
                                draws,
                            );
                        }
                    },
                    _ => {
                        lemma_program_move(g, draws);
                    },
                }
                lemma_pebbles_never_return(after, rest, draws.skip(used as int));
            },
            Err(_) => {
                lemma_pebbles_never_return(g, rest, draws);
            },
        }
    }
}

/// Once a game has a winner, turns and give-ups are rejected as finished.
pub proof fn lemma_finished_game_rejects_moves(g: PebbleGame, count: u32, draws: Seq<u32>)
    requires
        g.is_finished(),
    ensures
        user_move_outcome(g, count, draws) == Err::<(PebbleGame, PebblesEvent, nat), GameError>(
            GameError::GameFinished,
        ),
        give_up_outcome(g, draws) == Err::<(PebbleGame, PebblesEvent, nat), GameError>(
            GameError::GameFinished,
        ),
{
}

/// A take below one, above the per-turn maximum or above the pool is
/// rejected; a rejected command leaves the game as it was.
pub proof fn lemma_illegal_move_rejected(g: PebbleGame, count: u32, draws: Seq<u32>)
    requires
        count < 1 || count > g.max_pebbles_per_turn || count > g.pebbles_remaining,
    ensures
        user_move_outcome(g, count, draws) is Err,
{
}

/// A turn that does not empty the pool is answered by exactly one opponent
/// move: the pool shrinks by the user's take plus one take of the opponent,
/// which the event reports.
pub proof fn lemma_turn_answered_once(g: PebbleGame, count: u32, draws: Seq<u32>)
    requires
        g.wf(),
        !g.is_finished(),
        1 <= count <= g.max_pebbles_per_turn,
        count < g.pebbles_remaining,
    ensures
        match user_move_outcome(g, count, draws) {
            Ok((after, event, _)) => {
                &&& 1 <= after.program_lastmove <= g.max_pebbles_per_turn
                &&& after.pebbles_remaining == g.pebbles_remaining - count
                    - after.program_lastmove
                &&& if after.pebbles_remaining == 0 {
                    event == PebblesEvent::Won(Player::Program)
                } else {
                    event == PebblesEvent::CounterTurn(after.program_lastmove)
                }
            },
            Err(e) => e == GameError::RandomnessUnavailable,
        },
{
    lemma_program_move(
        PebbleGame { pebbles_remaining: (g.pebbles_remaining - count) as u32, ..g },
        draws,
    );
}

/// A give-up on an unfinished game is answered by exactly one opponent
/// move, which the event reports.
pub proof fn lemma_give_up_answered_once(g: PebbleGame, draws: Seq<u32>)
    requires
        g.wf(),
        !g.is_finished(),
    ensures
        match give_up_outcome(g, draws) {
            Ok((after, event, _)) => {
                &&& 1 <= after.program_lastmove <= g.max_pebbles_per_turn
                &&& after.pebbles_remaining == g.pebbles_remaining - after.program_lastmove
                &&& if after.pebbles_remaining == 0 {
                    event == PebblesEvent::Won(Player::Program)
                } else {
                    event == PebblesEvent::CounterTurn(after.program_lastmove)
                }
            },
            Err(e) => e == GameError::RandomnessUnavailable,
        },
{
    lemma_program_move(g, draws);
}

/// A restart owes nothing to the game it replaces: from any two games it
/// gives the same result, and that of starting afresh with the same
/// configuration and draws.
pub proof fn lemma_restart_discards_game(
    g1: PebbleGame,
    g2: PebbleGame,
    difficulty: DifficultLevel,
    pebbles_count: u32,
    max_pebbles_per_turn: u32,
    draws: Seq<u32>,
)
    ensures
        restart_outcome(g1, difficulty, pebbles_count, max_pebbles_per_turn, draws)
            == restart_outcome(g2, difficulty, pebbles_count, max_pebbles_per_turn, draws),
        restart_outcome(g1, difficulty, pebbles_count, max_pebbles_per_turn, draws) == init_outcome(
            PebblesInit { difficult_level: difficulty, pebbles_count, max_pebbles_per_turn },
            draws,
        ),
{
}

/// A command depends on the draws only through those it consumes: draws
/// added behind them change nothing.
pub proof fn lemma_command_uses_only_its_draws(
    g: PebbleGame,
    action: PebblesAction,
    draws: Seq<u32>,
    extra: Seq<u32>,
)
    requires
        action_outcome(g, action, draws) is Ok,
    ensures
        action_outcome(g, action, draws + extra) matches Ok((after, event, used)) && action_outcome(
            g,
            action,
            draws,
        ) == Ok::<(PebbleGame, PebblesEvent, nat), GameError>((after, event, used)),
{
    lemma_first_draws_agree(draws, extra);
}

proof fn lemma_first_draws_agree(draws: Seq<u32>, extra: Seq<u32>)
    ensures
        draws.len() > 0 ==> (draws + extra)[0] == draws[0],
        draws.len() > 0 ==> (draws + extra).drop_first() =~= draws.drop_first() + extra,
        draws.len() > 1 ==> (draws + extra).drop_first()[0] == draws.drop_first()[0],
{
}

} // verus!
