use vstd::prelude::*;

use vstd::arithmetic::div_mod::lemma_mod_decreases;

use crate::types::{DifficultLevel, InvalidMove};

verus! {

/// The take that leaves a multiple of `max + 1` pebbles, zero when the
/// pool already is such a multiple. In the subtraction game such a pool is
/// lost for the player to move.
pub open spec fn winning_take(max_per_turn: u32, remaining: u32) -> int {
    remaining as int % (max_per_turn as int + 1)
}

/// A take chosen by a draw, uniform over `1..=max` and cut down to the pool.
pub open spec fn random_take(max_per_turn: u32, remaining: u32, draw: u32) -> int {
    let c = draw as int % max_per_turn as int + 1;
    if c > remaining {
        remaining as int
    } else {
        c
    }
}

/// Whether the opponent's next take consumes a random draw.
pub open spec fn needs_draw(difficulty: DifficultLevel, max_per_turn: u32, remaining: u32) -> bool {
    max_per_turn != 1 && (difficulty == DifficultLevel::Easy || winning_take(max_per_turn, remaining)
        == 0)
}

/// The opponent's take. With one pebble per turn there is no choice; the hard
/// opponent plays the winning take where there is one, and a random take
/// otherwise; the easy opponent always plays a random take. `draw` matters
/// only where `needs_draw` holds.
pub open spec fn turn_of(
    difficulty: DifficultLevel,
    max_per_turn: u32,
    remaining: u32,
    draw: u32,
) -> int {
    if max_per_turn == 1 {
        1
    } else if difficulty == DifficultLevel::Hard && winning_take(max_per_turn, remaining) != 0 {
        winning_take(max_per_turn, remaining)
    } else {
        random_take(max_per_turn, remaining, draw)
    }
}

/// Whether the opponent's next take consumes a random draw.
pub fn draw_needed(difficulty: DifficultLevel, max_per_turn: u32, remaining: u32) -> (r: bool)
    ensures
        r == needs_draw(difficulty, max_per_turn, remaining),
{
    if max_per_turn == 1 {
        false
    } else {
        match difficulty {
            DifficultLevel::Easy => true,
            DifficultLevel::Hard => (remaining as u64) % (max_per_turn as u64 + 1) == 0,
        }
    }
}

/// The number of pebbles the opponent takes from a pool of `remain_num`.
pub fn program_turn_gen(
    difficulty: DifficultLevel,
    max_per_turn: u32,
    remain_num: u32,
    draw: u32,
) -> (r: u32)
    requires
        max_per_turn >= 1,
        remain_num >= 1,
    ensures
        r == turn_of(difficulty, max_per_turn, remain_num, draw),
        1 <= r <= max_per_turn,
        r <= remain_num,
{
    if max_per_turn == 1 {
        return 1;
    }
    if difficulty == DifficultLevel::Hard {
        let ideal = (remain_num as u64) % (max_per_turn as u64 + 1);
        if ideal != 0 {
            proof {
                lemma_mod_decreases(remain_num as nat, max_per_turn as nat + 1);
            }
            return ideal as u32;
        }
    }
    let count = draw % max_per_turn + 1;
    if count > remain_num {
        remain_num
    } else {
        count
    }
}

/// Checks a user's take of `proposed_count` pebbles against the rules.
pub fn validate_turn(remaining: u32, max_per_turn: u32, proposed_count: u32) -> (r: Result<
    (),
    InvalidMove,
>)
    ensures
        (proposed_count < 1 || proposed_count > max_per_turn) ==> r == Err::<(), InvalidMove>(
            InvalidMove::OutOfRange,
        ),
        (1 <= proposed_count <= max_per_turn && proposed_count > remaining) ==> r == Err::<
            (),
            InvalidMove,
        >(InvalidMove::InsufficientPebbles),
        r is Ok <==> 1 <= proposed_count <= max_per_turn && proposed_count <= remaining,
{
    if proposed_count < 1 || proposed_count > max_per_turn {
        Err(InvalidMove::OutOfRange)
    } else if proposed_count > remaining {
        Err(InvalidMove::InsufficientPebbles)
    } else {
        Ok(())
    }
}

} // verus!
