use ipd_tournament::game::{
    from_functional, play_strategies, play_strategies_with, Functional, GameMove, GameResult,
    Strategy, NUM_ROUNDS,
};
use ipd_tournament::strategies::{classic, continuous, tsvrn9};

fn cooperator() -> Strategy {
    from_functional(Functional::Classic(classic::Rule::UnconditionalCooperator))
}

fn defector() -> Strategy {
    from_functional(Functional::Classic(classic::Rule::UnconditionalDefector))
}

fn tit_for_tat() -> Strategy {
    from_functional(Functional::Continuous(continuous::Rule::TitForTat))
}

/// Draws for `rounds` moves, long enough for any strategy, all equal to `d`.
fn table(rounds: usize, d: i64) -> Vec<Vec<i64>> {
    (0..rounds).map(|k| vec![d; k.max(3)]).collect()
}

fn play(mut a: Strategy, mut b: Strategy, rounds: usize) -> (GameResult, Vec<GameMove>) {
    play_strategies_with(&mut a, &mut b, rounds, &table(rounds, 0), &table(rounds, 0))
}

#[test]
fn cooperators_score_two_each_per_round() {
    let (r, h) = play(cooperator(), cooperator(), 10);
    assert_eq!(r, GameResult(20000, 20000));
    assert_eq!(h.len(), 10);
    assert!(h.iter().all(|m| *m == GameMove(0, 0)));
}

#[test]
fn cooperator_against_defector() {
    let (r, h) = play(cooperator(), defector(), 7);
    assert_eq!(r, GameResult(0, 21000));
    assert_eq!(h[6], GameMove(0, 1000));
}

#[test]
fn defectors_score_one_each_per_round() {
    let (r, _) = play(defector(), defector(), 12);
    assert_eq!(r, GameResult(12000, 12000));
}

#[test]
fn tit_for_tat_against_defector() {
    for n in 1..6 {
        let (r, h) = play(tit_for_tat(), defector(), n);
        assert_eq!(r, GameResult(((n - 1) * 1000) as i64, (3000 + (n - 1) * 1000) as i64));
        assert_eq!(h[0], GameMove(0, 1000));
    }
}

#[test]
fn classic_tit_for_tat_against_defector() {
    let tft = from_functional(Functional::Classic(classic::Rule::TitForTat));
    let (r, h) = play(tft, defector(), 4);
    assert_eq!(r, GameResult(3000, 6000));
    assert_eq!(h, vec![GameMove(0, 1000), GameMove(1000, 1000), GameMove(1000, 1000), GameMove(1000, 1000)]);
}

#[test]
fn zero_rounds_give_nothing() {
    let (r, h) = play(cooperator(), defector(), 0);
    assert_eq!(r, GameResult(0, 0));
    assert!(h.is_empty());
}

#[test]
fn full_match_has_fixed_length_and_exact_scores() {
    let mut a = cooperator();
    let mut b = defector();
    let (r, h) = play_strategies(&mut a, &mut b);
    assert_eq!(h.len(), NUM_ROUNDS);
    assert_eq!(r, GameResult(0, 3000 * NUM_ROUNDS as i64));
    let mut a = tit_for_tat();
    let mut b = defector();
    let (r, _) = play_strategies(&mut a, &mut b);
    assert_eq!(r, GameResult(999_000, 1_002_000));
}

#[test]
fn random_strategies_stay_in_range() {
    let mut a = from_functional(Functional::Continuous(continuous::Rule::Random));
    let mut b = from_functional(Functional::Classic(classic::Rule::Grim));
    let (r, h) = play_strategies(&mut a, &mut b);
    assert_eq!(h.len(), NUM_ROUNDS);
    assert!(h.iter().all(|m| (0..1000).contains(&m.0) && (m.1 == 0 || m.1 == 1000)));
    assert!(r.0 >= 0 && r.1 >= 0 && r.0 <= 3_000_000 && r.1 <= 3_000_000);
}

#[test]
fn stateful_strategy_changes_only_its_copy() {
    let blueprint = Strategy::Detente(tsvrn9::Detente::init(1000, 100));
    let mut copy = blueprint;
    let mut other = cooperator();
    play_strategies_with(&mut copy, &mut other, 5, &table(5, 0), &table(5, 0));
    assert_ne!(copy, blueprint);
    assert_eq!(blueprint, Strategy::Detente(tsvrn9::Detente { comfort: 1000, trust: 100 }));
}

#[test]
fn detente_against_cooperator() {
    let mut a = Strategy::Detente(tsvrn9::Detente::init(1000, 100));
    let mut b = cooperator();
    let (_, h) = play_strategies_with(&mut a, &mut b, 3, &table(3, 0), &table(3, 0));
    // starts at one less its comfort, then answers the opponent less its comfort
    assert_eq!(h, vec![GameMove(0, 0), GameMove(-1000, 0), GameMove(-1100, 0)]);
    assert_eq!(a, Strategy::Detente(tsvrn9::Detente { comfort: 1200, trust: 100 }));
}
