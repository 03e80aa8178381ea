use ipd_tournament::draws::{draw_table, random_draws};
use ipd_tournament::game::{
    check_catalog, entry, from_functional, play_matchup, run_competition, run_tournament,
    CatalogError, Functional, GameMove, GameResult, Strategy, NUM_ROUNDS,
};
use ipd_tournament::strategies::{classic, continuous, tsvrn9};

fn catalog() -> Vec<(String, Strategy)> {
    vec![
        entry("Cooperator", from_functional(Functional::Classic(classic::Rule::UnconditionalCooperator))),
        entry("Defector", from_functional(Functional::Classic(classic::Rule::UnconditionalDefector))),
        entry("Tit for Tat", from_functional(Functional::Continuous(continuous::Rule::TitForTat))),
    ]
}

#[test]
fn every_ordered_pair_in_row_major_order() {
    let c = catalog();
    let results = run_competition(&c);
    assert_eq!(results.len(), 9);
    for i in 0..3 {
        for j in 0..3 {
            let r = &results[i * 3 + j];
            assert_eq!(r.first_name, c[i].0);
            assert_eq!(r.second_name, c[j].0);
            assert_eq!(r.history.len(), NUM_ROUNDS);
        }
    }
    let n = NUM_ROUNDS as i64;
    assert_eq!(results[0].overall_result, GameResult(2000 * n, 2000 * n));
    assert_eq!(results[1].overall_result, GameResult(0, 3000 * n));
    assert_eq!(results[4].overall_result, GameResult(1000 * n, 1000 * n));
    assert_eq!(results[5].overall_result, GameResult(3000 + 1000 * (n - 1), 1000 * (n - 1)));
    assert_eq!(results[7].overall_result, GameResult(1000 * (n - 1), 3000 + 1000 * (n - 1)));
}

#[test]
fn empty_and_single_catalogs() {
    assert!(run_competition(&vec![]).is_empty());
    let one = vec![entry("Grim", from_functional(Functional::Continuous(continuous::Rule::Grim)))];
    let r = run_competition(&one);
    assert_eq!(r.len(), 1);
    assert_eq!(r[0].first_name, "Grim");
}

#[test]
fn copies_of_a_stateful_strategy_do_not_interfere() {
    let c = vec![
        entry("Detente", Strategy::Detente(tsvrn9::Detente::init(1000, 100))),
        entry("Cooperator", from_functional(Functional::Classic(classic::Rule::UnconditionalCooperator))),
        entry("Defector", from_functional(Functional::Classic(classic::Rule::UnconditionalDefector))),
    ];
    let before = c.clone();
    let alone = play_matchup(&c, 0, 1, &draw_table(&c[0].1, NUM_ROUNDS), &draw_table(&c[1].1, NUM_ROUNDS));
    // a match of the same strategy against a defector in between changes nothing
    let _ = play_matchup(&c, 0, 2, &draw_table(&c[0].1, NUM_ROUNDS), &draw_table(&c[2].1, NUM_ROUNDS));
    let again = play_matchup(&c, 0, 1, &draw_table(&c[0].1, NUM_ROUNDS), &draw_table(&c[1].1, NUM_ROUNDS));
    assert_eq!(alone.history, again.history);
    assert_eq!(alone.overall_result, again.overall_result);
    assert_eq!(c, before);
    let all = run_competition(&c);
    assert_eq!(all[1].history, alone.history);
    assert_eq!(all[0].history[1], GameMove(-1000, -1000));
}

#[test]
fn draws_are_in_range_and_long_enough() {
    let d = random_draws(500);
    assert_eq!(d.len(), 500);
    assert!(d.iter().all(|x| (0..1000).contains(x)));
    assert!(d.iter().any(|x| *x != d[0]));
    let grim = from_functional(Functional::Classic(classic::Rule::Grim));
    let t = draw_table(&grim, 10);
    assert_eq!(t.len(), 10);
    assert_eq!(t[7].len(), 7);
    let t = draw_table(&Strategy::Detente(tsvrn9::Detente::init(0, 1)), 4);
    assert!(t.iter().all(|row| row.is_empty()));
}

#[test]
fn empty_catalog_is_rejected() {
    assert_eq!(check_catalog(&vec![]), Err(CatalogError::Empty));
    assert!(matches!(run_tournament(&vec![]), Err(CatalogError::Empty)));
}

#[test]
fn strategy_out_of_range_is_rejected() {
    let mut c = catalog();
    c.push(entry("Broken", Strategy::ClassicPavlov(classic::NPavlov { n: 2, p: 5000 })));
    c.push(entry("Also broken", Strategy::ContinuousPavlov(continuous::NPavlov { n: 2, p: -1 })));
    assert_eq!(check_catalog(&c), Err(CatalogError::BadStrategy(3)));
    assert!(matches!(run_tournament(&c), Err(CatalogError::BadStrategy(3))));
}

#[test]
fn oversized_catalog_is_rejected() {
    let c = vec![entry("Ambivalent", from_functional(Functional::Continuous(continuous::Rule::Ambivalent))); 65536];
    assert_eq!(check_catalog(&c), Err(CatalogError::TooLarge));
}

#[test]
fn valid_catalog_plays_a_full_tournament() {
    let c = catalog();
    assert_eq!(check_catalog(&c), Ok(()));
    let r = run_tournament(&c).unwrap();
    assert_eq!(r.len(), 9);
    assert_eq!(r[3].first_name, "Defector");
    assert_eq!(r[3].second_name, "Cooperator");
    assert_eq!(r[3].overall_result, GameResult(3000 * NUM_ROUNDS as i64, 0));
}
