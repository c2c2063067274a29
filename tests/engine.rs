use pebbles_game::game::{init, PebbleGame};
use pebbles_game::strategy::{draw_needed, program_turn_gen, validate_turn};
use pebbles_game::{
    ConfigurationError, DifficultLevel, GameError, InvalidMove, PebblesEvent, PebblesInit, Player,
    RandomSource,
};

fn config(level: DifficultLevel, count: u32, max: u32) -> PebblesInit {
    PebblesInit { difficult_level: level, pebbles_count: count, max_pebbles_per_turn: max }
}

fn game(count: u32, max: u32, remaining: u32, level: DifficultLevel) -> PebbleGame {
    PebbleGame {
        pebbles_count: count,
        max_pebbles_per_turn: max,
        pebbles_remaining: remaining,
        program_lastmove: 0,
        difficulty: level,
        first_player: Player::User,
        winner: None,
    }
}

#[test]
fn user_begins_on_even_coin() {
    let mut rng = RandomSource::new(vec![4]);
    let (g, ev) = init(config(DifficultLevel::Easy, 10, 9), &mut rng).unwrap();
    assert_eq!(ev, PebblesEvent::CounterTurn(0));
    assert_eq!(g.first_player, Player::User);
    assert_eq!(g.pebbles_remaining, 10);
    assert_eq!(g.winner, None);
    assert_eq!(rng.remaining(), 0);
}

#[test]
fn program_begins_on_odd_coin() {
    // coin 3 is odd; draw 7 gives 7 % 9 + 1 = 8 pebbles.
    let mut rng = RandomSource::new(vec![3, 7, 100]);
    let (g, ev) = init(config(DifficultLevel::Easy, 10, 9), &mut rng).unwrap();
    assert_eq!(ev, PebblesEvent::CounterTurn(8));
    assert_eq!(g.first_player, Player::Program);
    assert_eq!(g.pebbles_remaining, 2);
    assert_eq!(g.program_lastmove, 8);
    assert_eq!(rng.remaining(), 1);
}

#[test]
fn max_above_total_is_rejected() {
    let mut rng = RandomSource::new(vec![1, 2]);
    let res = init(config(DifficultLevel::Easy, 10, 11), &mut rng);
    assert_eq!(res, Err(GameError::Configuration(ConfigurationError::MaxExceedsTotal)));
    assert_eq!(rng.remaining(), 2);
}

#[test]
fn zero_max_is_rejected() {
    let mut rng = RandomSource::new(vec![1]);
    let res = init(config(DifficultLevel::Hard, 0, 0), &mut rng);
    assert_eq!(res, Err(GameError::Configuration(ConfigurationError::ZeroMaxPerTurn)));
}

#[test]
fn empty_source_is_reported() {
    let mut rng = RandomSource::new(vec![]);
    let res = init(config(DifficultLevel::Easy, 10, 3), &mut rng);
    assert_eq!(res, Err(GameError::RandomnessUnavailable));
    // the opponent would begin but has no draw for its move
    let mut rng = RandomSource::new(vec![1]);
    let res = init(config(DifficultLevel::Easy, 10, 3), &mut rng);
    assert_eq!(res, Err(GameError::RandomnessUnavailable));
    assert_eq!(rng.remaining(), 1);
}

#[test]
fn last_pebble_wins_for_user() {
    let mut g = game(10, 3, 1, DifficultLevel::Easy);
    let mut rng = RandomSource::new(vec![5]);
    assert_eq!(g.user_move(1, &mut rng), Ok(PebblesEvent::Won(Player::User)));
    assert_eq!(g.pebbles_remaining, 0);
    assert_eq!(g.winner, Some(Player::User));
    assert_eq!(rng.remaining(), 1);
    let before = g;
    assert_eq!(g.user_move(1, &mut rng), Err(GameError::GameFinished));
    assert_eq!(g.give_up(&mut rng), Err(GameError::GameFinished));
    assert_eq!(g, before);
}

#[test]
fn zero_take_is_out_of_range() {
    let mut g = game(10, 3, 7, DifficultLevel::Easy);
    let before = g;
    let mut rng = RandomSource::new(vec![5]);
    assert_eq!(g.user_move(0, &mut rng), Err(GameError::InvalidMove(InvalidMove::OutOfRange)));
    assert_eq!(g, before);
    assert_eq!(rng.remaining(), 1);
}

#[test]
fn illegal_takes_change_nothing() {
    let mut g = game(10, 3, 2, DifficultLevel::Easy);
    let before = g;
    let mut rng = RandomSource::new(vec![5]);
    assert_eq!(g.user_move(4, &mut rng), Err(GameError::InvalidMove(InvalidMove::OutOfRange)));
    assert_eq!(
        g.user_move(3, &mut rng),
        Err(GameError::InvalidMove(InvalidMove::InsufficientPebbles))
    );
    assert_eq!(g, before);
    assert_eq!(rng.remaining(), 1);
}

#[test]
fn restart_after_a_finished_game() {
    let mut g = game(10, 3, 0, DifficultLevel::Hard);
    g.winner = Some(Player::Program);
    let mut rng = RandomSource::new(vec![2]);
    assert_eq!(g.restart(DifficultLevel::Easy, 50, 3, &mut rng), Ok(PebblesEvent::CounterTurn(0)));
    assert_eq!(g.winner, None);
    assert_eq!(g.pebbles_remaining, 50);
    assert_eq!(g.max_pebbles_per_turn, 3);
    assert_eq!(g.difficulty, DifficultLevel::Easy);
}

#[test]
fn rejected_restart_keeps_the_game() {
    let mut g = game(10, 3, 4, DifficultLevel::Hard);
    let before = g;
    let mut rng = RandomSource::new(vec![2]);
    assert_eq!(
        g.restart(DifficultLevel::Easy, 5, 6, &mut rng),
        Err(GameError::Configuration(ConfigurationError::MaxExceedsTotal))
    );
    assert_eq!(g, before);
}

#[test]
fn restart_equals_fresh_init() {
    let draws = vec![9, 6, 1, 2];
    let mut played = game(20, 4, 3, DifficultLevel::Hard);
    played.winner = None;
    let mut rng1 = RandomSource::new(draws.clone());
    let ev1 = played.restart(DifficultLevel::Easy, 30, 5, &mut rng1).unwrap();
    let mut rng2 = RandomSource::new(draws);
    let (fresh, ev2) = init(config(DifficultLevel::Easy, 30, 5), &mut rng2).unwrap();
    assert_eq!(played, fresh);
    assert_eq!(ev1, ev2);
    assert_eq!(rng1.remaining(), rng2.remaining());
    // coin 9 is odd; 6 % 5 + 1 = 2
    assert_eq!(ev1, PebblesEvent::CounterTurn(2));
    assert_eq!(fresh.pebbles_remaining, 28);
}

#[test]
fn each_turn_gets_one_answer() {
    let mut g = game(20, 3, 20, DifficultLevel::Easy);
    let mut rng = RandomSource::new(vec![4, 0]);
    // the user takes 1, the opponent 4 % 3 + 1 = 2
    assert_eq!(g.user_move(1, &mut rng), Ok(PebblesEvent::CounterTurn(2)));
    assert_eq!(g.pebbles_remaining, 17);
    assert_eq!(g.program_lastmove, 2);
    // a give-up: the opponent takes 0 % 3 + 1 = 1
    assert_eq!(g.give_up(&mut rng), Ok(PebblesEvent::CounterTurn(1)));
    assert_eq!(g.pebbles_remaining, 16);
    assert_eq!(g.winner, None);
    // no draw left: the turn is rejected and nothing moves
    let before = g;
    assert_eq!(g.user_move(1, &mut rng), Err(GameError::RandomnessUnavailable));
    assert_eq!(g, before);
}

#[test]
fn pool_never_grows() {
    let mut g = game(40, 5, 40, DifficultLevel::Easy);
    let mut rng = RandomSource::new((0..64).map(|i| i * 7 + 3).collect());
    let mut last = g.pebbles_remaining;
    let mut step: u32 = 0;
    while g.winner.is_none() && step < 1000 {
        let res = if step % 3 == 0 { g.give_up(&mut rng) } else { g.user_move(step % 6, &mut rng) };
        let _ = res;
        assert!(g.pebbles_remaining <= last);
        assert_eq!(g.winner.is_some(), g.pebbles_remaining == 0);
        last = g.pebbles_remaining;
        step += 1;
    }
    assert_eq!(g.pebbles_remaining, 0);
}

#[test]
fn same_draws_same_trace() {
    let run = || {
        let mut rng = RandomSource::new(vec![1, 8, 3, 5, 2, 9, 4, 4]);
        let (mut g, first) = init(config(DifficultLevel::Easy, 25, 4), &mut rng).unwrap();
        let mut trace = vec![first];
        for c in [1u32, 2, 3] {
            trace.push(g.user_move(c, &mut rng).unwrap());
        }
        (g, trace)
    };
    let (g1, t1) = run();
    let (g2, t2) = run();
    assert_eq!(g1, g2);
    assert_eq!(t1, t2);
    // coin 1 is odd; 8 % 4 + 1 = 1; then 3 % 4 + 1 = 4, 5 % 4 + 1 = 2, 2 % 4 + 1 = 3
    assert_eq!(
        t1,
        vec![
            PebblesEvent::CounterTurn(1),
            PebblesEvent::CounterTurn(4),
            PebblesEvent::CounterTurn(2),
            PebblesEvent::CounterTurn(3)
        ]
    );
    assert_eq!(g1.pebbles_remaining, 9);
}

#[test]
fn hard_opponent_leaves_a_multiple() {
    // 10 % (3 + 1) = 2: the hard opponent takes 2 and leaves 8, using no draw.
    let mut rng = RandomSource::new(vec![1, 99]);
    let (g, ev) = init(config(DifficultLevel::Hard, 10, 3), &mut rng).unwrap();
    assert_eq!(ev, PebblesEvent::CounterTurn(2));
    assert_eq!(g.pebbles_remaining, 8);
    assert_eq!(rng.remaining(), 1);
}

#[test]
fn hard_opponent_takes_the_last_pebbles() {
    let mut g = game(10, 3, 5, DifficultLevel::Hard);
    let mut rng = RandomSource::new(vec![]);
    // the user takes 2 and leaves 3, which the opponent takes whole
    assert_eq!(g.user_move(2, &mut rng), Ok(PebblesEvent::Won(Player::Program)));
    assert_eq!(g.pebbles_remaining, 0);
    assert_eq!(g.winner, Some(Player::Program));
    assert_eq!(g.program_lastmove, 3);
}

#[test]
fn strategy_values() {
    assert_eq!(program_turn_gen(DifficultLevel::Hard, 3, 10, 0), 2);
    assert_eq!(program_turn_gen(DifficultLevel::Hard, 3, 8, 5), 3);
    assert_eq!(program_turn_gen(DifficultLevel::Hard, 3, 8, 6), 1);
    assert_eq!(program_turn_gen(DifficultLevel::Easy, 5, 2, 4), 2);
    assert_eq!(program_turn_gen(DifficultLevel::Easy, 5, 9, 4), 5);
    assert_eq!(program_turn_gen(DifficultLevel::Easy, 1, 9, 4), 1);
    assert_eq!(program_turn_gen(DifficultLevel::Easy, u32::MAX, u32::MAX, u32::MAX), 1);
    assert_eq!(program_turn_gen(DifficultLevel::Hard, u32::MAX, u32::MAX, 0), u32::MAX);
    assert!(draw_needed(DifficultLevel::Easy, 3, 10));
    assert!(!draw_needed(DifficultLevel::Hard, 3, 10));
    assert!(draw_needed(DifficultLevel::Hard, 3, 8));
    assert!(!draw_needed(DifficultLevel::Easy, 1, 8));
}

#[test]
fn validator_values() {
    assert_eq!(validate_turn(5, 3, 0), Err(InvalidMove::OutOfRange));
    assert_eq!(validate_turn(5, 3, 4), Err(InvalidMove::OutOfRange));
    assert_eq!(validate_turn(2, 3, 3), Err(InvalidMove::InsufficientPebbles));
    assert_eq!(validate_turn(2, 3, 2), Ok(()));
}

#[test]
fn random_source_order() {
    let mut rng = RandomSource::new(vec![10, 20, 30]);
    assert_eq!(rng.peek(1), Some(20));
    assert_eq!(rng.next_u32(), Some(10));
    assert_eq!(rng.remaining(), 2);
    rng.skip(1);
    assert_eq!(rng.peek(0), Some(30));
    assert_eq!(rng.peek(1), None);
    assert_eq!(rng.next_u32(), Some(30));
    assert_eq!(rng.next_u32(), None);
}

#[test]
fn status_copies_the_game() {
    let g = game(12, 4, 9, DifficultLevel::Hard);
    let s = g.status();
    assert_eq!(s.pebbles_count, 12);
    assert_eq!(s.max_pebbles_per_turn, 4);
    assert_eq!(s.pebbles_remaining, 9);
    assert_eq!(s.difficult_level, DifficultLevel::Hard);
    assert_eq!(s.first_player, Player::User);
    assert_eq!(s.winner, None);
}
