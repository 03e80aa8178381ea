use ipd_tournament::game::{
    play_round, switch_history, GameMove, GameResult, COOPERATE, DEFECT, MOVE_SCALE, P, R, S, T,
};

#[test]
fn corner_payoffs_are_canonical() {
    assert_eq!(play_round(COOPERATE, COOPERATE), GameResult(R, R));
    assert_eq!(play_round(DEFECT, DEFECT), GameResult(P, P));
    assert_eq!(play_round(DEFECT, COOPERATE), GameResult(T, S));
    assert_eq!(play_round(COOPERATE, DEFECT), GameResult(S, T));
    assert_eq!((R, P, T, S), (2000, 1000, 3000, 0));
}

#[test]
fn intermediate_moves_sum_to_four_less_both_moves() {
    let r = play_round(300, 700);
    assert_eq!(r, GameResult(900, 2100));
    assert_eq!(r.0 + r.1, 4 * MOVE_SCALE - 300 - 700);
    let r = play_round(500, 500);
    assert_eq!(r, GameResult(1500, 1500));
    let r = play_round(250, 750);
    assert_eq!(r.0 + r.1, 4 * MOVE_SCALE - 1000);
}

#[test]
fn moves_outside_the_interval_are_clamped() {
    assert_eq!(play_round(1500, -200), play_round(DEFECT, COOPERATE));
    assert_eq!(play_round(-5, 4000), GameResult(S, T));
}

#[test]
fn swapping_a_history_twice_gives_it_back() {
    let h = vec![GameMove(0, 1000), GameMove(250, 750), GameMove(1000, 1000)];
    let once = switch_history(&h);
    assert_eq!(once, vec![GameMove(1000, 0), GameMove(750, 250), GameMove(1000, 1000)]);
    assert_eq!(switch_history(&once), h);
    assert_eq!(GameMove(3, 4).switch_perspectives(), GameMove(4, 3));
}

#[test]
fn swapping_an_empty_history() {
    assert_eq!(switch_history(&vec![]), Vec::<GameMove>::new());
}
