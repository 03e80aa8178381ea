use ipd_tournament::game::{GameMove, COOPERATE, DEFECT};
use ipd_tournament::strategies::utils::{
    is_cooperation, is_defection, to_my_move, to_nearest_move, to_opponent_move, to_opposite,
};
use ipd_tournament::strategies::{classic, continuous, tsvrn9};

#[test]
fn threshold_reading_of_moves() {
    assert!(is_cooperation(0, 0));
    assert!(!is_cooperation(1000, 999));
    assert!(is_defection(600, 599));
    assert!(!is_defection(600, 600));
    assert_eq!(to_nearest_move(300, 500), COOPERATE);
    assert_eq!(to_nearest_move(300, 200), DEFECT);
    assert_eq!(to_opposite(250), 750);
    assert_eq!(to_my_move(&GameMove(1, 2)), 1);
    assert_eq!(to_opponent_move(&GameMove(1, 2)), 2);
}

#[test]
fn classic_defaults_on_the_first_round() {
    let h: Vec<GameMove> = vec![];
    let d = vec![0, 0, 0];
    assert_eq!(classic::unconditional_cooperator(&h), COOPERATE);
    assert_eq!(classic::unconditional_defector(&h), DEFECT);
    assert_eq!(classic::tit_for_tat(&h, &d), COOPERATE);
    assert_eq!(classic::suspicious_tit_for_tat(&h, &d), DEFECT);
    assert_eq!(classic::generous_tit_for_tat(&h, &d), DEFECT);
    assert_eq!(classic::imperfect_tit_for_tat(&h, &d), COOPERATE);
    assert_eq!(classic::tit_for_two_tats(&h, &d), COOPERATE);
    assert_eq!(classic::two_tits_for_tat(&h, &d), COOPERATE);
    assert_eq!(classic::grim(&h, &d), COOPERATE);
    assert_eq!(classic::pavlov(&h, &d), COOPERATE);
}

#[test]
fn classic_random_is_a_fair_coin() {
    let h: Vec<GameMove> = vec![];
    assert_eq!(classic::random(&h, &vec![499]), COOPERATE);
    assert_eq!(classic::random(&h, &vec![500]), DEFECT);
}

#[test]
fn classic_generous_forgives_below_generosity() {
    let h = vec![GameMove(0, 1000)];
    assert_eq!(classic::generous_tit_for_tat(&h, &vec![0, 0, 499]), COOPERATE);
    assert_eq!(classic::generous_tit_for_tat(&h, &vec![0, 0, 500]), DEFECT);
    let h = vec![GameMove(0, 0)];
    assert_eq!(classic::generous_tit_for_tat(&h, &vec![0, 0, 0]), COOPERATE);
}

#[test]
fn classic_imperfect_errs_above_accuracy() {
    let h = vec![GameMove(0, 1000)];
    assert_eq!(classic::imperfect_tit_for_tat(&h, &vec![0, 949]), DEFECT);
    assert_eq!(classic::imperfect_tit_for_tat(&h, &vec![0, 950]), COOPERATE);
}

#[test]
fn classic_two_tat_rules() {
    let h = vec![GameMove(0, 1000), GameMove(0, 1000), GameMove(0, 1000)];
    assert_eq!(classic::tit_for_two_tats(&h, &vec![0, 0]), DEFECT);
    let h = vec![GameMove(0, 1000), GameMove(0, 0), GameMove(0, 1000)];
    assert_eq!(classic::tit_for_two_tats(&h, &vec![0, 0]), COOPERATE);
    assert_eq!(classic::two_tits_for_tat(&h, &vec![0, 0]), DEFECT);
    let h = vec![GameMove(0, 1000), GameMove(0, 1000)];
    assert_eq!(classic::two_tits_for_tat(&h, &vec![0, 0]), COOPERATE);
}

#[test]
fn classic_grim_remembers_any_defection() {
    let h = vec![GameMove(0, 1000), GameMove(0, 0), GameMove(0, 0)];
    assert_eq!(classic::grim(&h, &vec![0, 0, 0]), DEFECT);
    let h = vec![GameMove(0, 0), GameMove(0, 0)];
    assert_eq!(classic::grim(&h, &vec![0, 0]), COOPERATE);
}

#[test]
fn classic_pavlov_wins_stays_loses_shifts() {
    assert_eq!(classic::pavlov(&vec![GameMove(1000, 0)], &vec![0]), 1000);
    assert_eq!(classic::pavlov(&vec![GameMove(0, 1000)], &vec![0]), 1000);
    assert_eq!(classic::pavlov(&vec![GameMove(1000, 1000)], &vec![0]), 0);
}

#[test]
fn classic_n_pavlov_moves_its_propensity() {
    let mut s = classic::NPavlov::init(4);
    assert_eq!(s.p, 1000);
    // mutual cooperation raises the propensity, clamped at one whole
    assert_eq!(s.next_move(Some(GameMove(0, 0)), &vec![0, 0, 999]), DEFECT);
    assert_eq!(s.p, 1000);
    // cooperating against a defector lowers it by a quarter
    assert_eq!(s.next_move(Some(GameMove(0, 1000)), &vec![0, 0, 750]), COOPERATE);
    assert_eq!(s.p, 750);
    assert_eq!(s.next_move(None, &vec![0, 0, 749]), DEFECT);
}

#[test]
fn continuous_fixed_and_copying_rules() {
    let h: Vec<GameMove> = vec![];
    assert_eq!(continuous::ambivalent(&h), 500);
    assert_eq!(continuous::ambivalent_suspicious(&h), 750);
    assert_eq!(continuous::ambivalent_relaxed(&h), 250);
    assert_eq!(continuous::random(&h, &vec![123]), 123);
    assert_eq!(continuous::tit_for_tat(&h), COOPERATE);
    assert_eq!(continuous::suspicious_tit_for_tat(&h), DEFECT);
    assert_eq!(continuous::grim(&h), COOPERATE);
    let h = vec![GameMove(0, 300), GameMove(0, 800), GameMove(0, 450)];
    assert_eq!(continuous::tit_for_tat(&h), 450);
    assert_eq!(continuous::tit_for_two_tats(&h), 450);
    assert_eq!(continuous::two_tits_for_tat(&h), 800);
    assert_eq!(continuous::grim(&h), 800);
    assert_eq!(continuous::tit_for_two_tats(&vec![GameMove(0, 300)]), 300);
}

#[test]
fn continuous_imprecise_noise_spans_delta() {
    let h = vec![GameMove(0, 900)];
    assert_eq!(continuous::imprecise_tit_for_tat(&h, &vec![0, 0]), 950);
    assert_eq!(continuous::imprecise_tit_for_tat(&h, &vec![0, 999]), 1049);
    assert_eq!(continuous::imprecise_tit_for_tat(&h, &vec![999, 500]), 0);
}

#[test]
fn continuous_generous_forgives_below_generosity() {
    let h = vec![GameMove(0, 800)];
    assert_eq!(continuous::generous_tit_for_tat(&h, &vec![0, 100]), COOPERATE);
    assert_eq!(continuous::generous_tit_for_tat(&h, &vec![0, 600]), 800);
    assert_eq!(continuous::generous_tit_for_tat(&h, &vec![900, 100]), 800);
}

#[test]
fn continuous_n_pavlov_plays_one_less_propensity() {
    let mut s = continuous::NPavlov::init(2);
    assert_eq!(s.next_move(None, &vec![0, 0]), 0);
    assert_eq!(s.next_move(Some(GameMove(0, 1000)), &vec![0, 0]), 500);
    assert_eq!(s.next_move(Some(GameMove(0, 1000)), &vec![0, 0]), 1000);
    assert_eq!(s.next_move(Some(GameMove(0, 1000)), &vec![0, 0]), 1000);
}

#[test]
fn n_pavlov_with_no_steps_jumps_between_ends() {
    let mut s = continuous::NPavlov::init(0);
    assert_eq!(s.next_move(Some(GameMove(1000, 0)), &vec![0, 0]), 1000);
    assert_eq!(s.next_move(Some(GameMove(0, 0)), &vec![0, 0]), 0);
}

#[test]
fn detente_resets_comfort_on_defection() {
    let mut s = tsvrn9::Detente::init(1000, 100);
    assert_eq!(s.next_move(None), 0);
    assert_eq!(s.next_move(Some(GameMove(0, 400))), -600);
    assert_eq!(s.comfort, 1100);
    // 2 * 500 is not below max(2000 - 1100, 200) = 900
    assert_eq!(s.next_move(Some(GameMove(0, 500))), DEFECT);
    assert_eq!(s.comfort, 0);
    let mut t = tsvrn9::Detente::init(0, 100);
    assert_eq!(t.next_move(None), 1000);
}

#[test]
fn catalogs_list_every_strategy() {
    let c = classic::all();
    assert_eq!(c.len(), 14);
    assert_eq!(c[0].0, "Classic Unconditional Cooperator");
    assert_eq!(c[13].0, "Classic 8Pavlov");
    let c = continuous::all();
    assert_eq!(c.len(), 14);
    assert_eq!(c[3].0, "Random");
    let c = tsvrn9::all();
    assert_eq!(c.len(), 3);
    assert_eq!(c[2].0, "Trusting Detente");
}
