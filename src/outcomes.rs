//! Exact outcomes of matches between strategies whose moves are fixed.
use vstd::prelude::*;

use crate::game::{
    draws_fit, evaluate, last_of, play_spec, swap_all, total_first, total_second, Functional,
    GameMove, Strategy, COOPERATE, DEFECT, MOVE_SCALE, P, R, S, T,
};
use crate::strategies::utils::{draw_ok, draws_ok};
use crate::strategies::{classic, continuous};

verus! {

/// The unconditional cooperator of the classic table.
pub open spec fn cooperator() -> Strategy {
    Strategy::Functional(Functional::Classic(classic::Rule::UnconditionalCooperator))
}

/// The unconditional defector of the classic table.
pub open spec fn defector() -> Strategy {
    Strategy::Functional(Functional::Classic(classic::Rule::UnconditionalDefector))
}

/// Tit for tat with continuous moves: it copies the opponent's last move and
/// cooperates first.
pub open spec fn tit_for_tat() -> Strategy {
    Strategy::Functional(Functional::Continuous(continuous::Rule::TitForTat))
}

/// Adding a round to a history adds its scores to the totals.
pub proof fn lemma_totals_push(h: Seq<GameMove>, m: GameMove)
    ensures
        total_first(h.push(m)) == total_first(h) + evaluate(m.0 as int, m.1 as int),
        total_second(h.push(m)) == total_second(h) + evaluate(m.1 as int, m.0 as int),
{
    assert(h.push(m).drop_last() =~= h);
}

/// Two strategies that always make the same moves, whatever they are shown, play
/// that pair of moves in every round.
proof fn lemma_fixed_play(a: Strategy, b: Strategy, x: i64, y: i64, n: nat, da: Seq<Vec<i64>>, db: Seq<Vec<i64>>)
    requires
        forall|l: Option<GameMove>, h: Seq<GameMove>, d: Seq<i64>| #[trigger] a.step(l, h, d) == (a, x),
        forall|l: Option<GameMove>, h: Seq<GameMove>, d: Seq<i64>| #[trigger] b.step(l, h, d) == (b, y),
    ensures
        play_spec(a, b, n, da, db).0 == a,
        play_spec(a, b, n, da, db).1 == b,
        play_spec(a, b, n, da, db).2.len() == n,
        total_first(play_spec(a, b, n, da, db).2) == n * evaluate(x as int, y as int),
        total_second(play_spec(a, b, n, da, db).2) == n * evaluate(y as int, x as int),
    decreases n,
{
    if n > 0 {
        lemma_fixed_play(a, b, x, y, (n - 1) as nat, da, db);
        let h = play_spec(a, b, (n - 1) as nat, da, db).2;
        let sa = a.step(last_of(h), h, da[n - 1]@);
        let sb = b.step(last_of(swap_all(h)), swap_all(h), db[n - 1]@);
        lemma_totals_push(h, GameMove(x, y));
        assert(n * evaluate(x as int, y as int) == (n - 1) * evaluate(x as int, y as int) + evaluate(x as int, y as int)) by (nonlinear_arith);
        assert(n * evaluate(y as int, x as int) == (n - 1) * evaluate(y as int, x as int) + evaluate(y as int, x as int)) by (nonlinear_arith);
    }
}

proof fn lemma_times(n: nat, e: int, v: int)
    requires
        e == v,
    ensures
        n * e == v * n,
{
    assert(n * e == v * n) by (nonlinear_arith)
        requires
            e == v,
    ;
}

/// Two unconditional cooperators score two points each per round.
pub proof fn lemma_cooperators(n: nat, da: Seq<Vec<i64>>, db: Seq<Vec<i64>>)
    ensures
        total_first(play_spec(cooperator(), cooperator(), n, da, db).2) == 2 * MOVE_SCALE * n,
        total_second(play_spec(cooperator(), cooperator(), n, da, db).2) == 2 * MOVE_SCALE * n,
{
    lemma_fixed_play(cooperator(), cooperator(), COOPERATE, COOPERATE, n, da, db);
    lemma_times(n, evaluate(COOPERATE as int, COOPERATE as int), R as int);
}

/// An unconditional cooperator against an unconditional defector scores nothing,
/// and the defector three points per round.
pub proof fn lemma_cooperator_defector(n: nat, da: Seq<Vec<i64>>, db: Seq<Vec<i64>>)
    ensures
        total_first(play_spec(cooperator(), defector(), n, da, db).2) == 0,
        total_second(play_spec(cooperator(), defector(), n, da, db).2) == 3 * MOVE_SCALE * n,
{
    lemma_fixed_play(cooperator(), defector(), COOPERATE, DEFECT, n, da, db);
    lemma_times(n, evaluate(COOPERATE as int, DEFECT as int), S as int);
    lemma_times(n, evaluate(DEFECT as int, COOPERATE as int), T as int);
}

/// Two unconditional defectors score one point each per round.
pub proof fn lemma_defectors(n: nat, da: Seq<Vec<i64>>, db: Seq<Vec<i64>>)
    ensures
        total_first(play_spec(defector(), defector(), n, da, db).2) == MOVE_SCALE * n,
        total_second(play_spec(defector(), defector(), n, da, db).2) == MOVE_SCALE * n,
{
    lemma_fixed_play(defector(), defector(), DEFECT, DEFECT, n, da, db);
    lemma_times(n, evaluate(DEFECT as int, DEFECT as int), P as int);
}

/// Tit for tat against an unconditional defector: the first round is the sucker's
/// payoff against temptation, every later one mutual defection.
proof fn lemma_tit_for_tat_defector_history(n: nat, da: Seq<Vec<i64>>, db: Seq<Vec<i64>>)
    requires
        n >= 1,
    ensures
        play_spec(tit_for_tat(), defector(), n, da, db).0 == tit_for_tat(),
        play_spec(tit_for_tat(), defector(), n, da, db).1 == defector(),
        play_spec(tit_for_tat(), defector(), n, da, db).2.len() == n,
        play_spec(tit_for_tat(), defector(), n, da, db).2.last().1 == DEFECT,
        total_first(play_spec(tit_for_tat(), defector(), n, da, db).2) == (n - 1) * MOVE_SCALE,
        total_second(play_spec(tit_for_tat(), defector(), n, da, db).2) == 3 * MOVE_SCALE + (n - 1) * MOVE_SCALE,
    decreases n,
{
    let h = play_spec(tit_for_tat(), defector(), (n - 1) as nat, da, db).2;
    if n == 1 {
        assert(h.len() == 0);
        lemma_totals_push(h, GameMove(COOPERATE, DEFECT));
    } else {
        lemma_tit_for_tat_defector_history((n - 1) as nat, da, db);
        lemma_totals_push(h, GameMove(DEFECT, DEFECT));
    }
}

/// Tit for tat against an unconditional defector over `n >= 1` rounds scores
/// `(n - 1)` points against the defector's `3 + (n - 1)`.
pub proof fn lemma_tit_for_tat_defector(n: nat, da: Seq<Vec<i64>>, db: Seq<Vec<i64>>)
    requires
        n >= 1,
    ensures
        total_first(play_spec(tit_for_tat(), defector(), n, da, db).2) == S + (n - 1) * P,
        total_second(play_spec(tit_for_tat(), defector(), n, da, db).2) == T + (n - 1) * P,
{
    lemma_tit_for_tat_defector_history(n, da, db);
}

/// Tit for tat of the classic table: it copies the opponent's last move read as
/// cooperation or defection, and cooperates first.
pub open spec fn classic_tit_for_tat() -> Strategy {
    Strategy::Functional(Functional::Classic(classic::Rule::TitForTat))
}

proof fn lemma_classic_tit_for_tat_defector_history(n: nat, da: Seq<Vec<i64>>, db: Seq<Vec<i64>>)
    requires
        n >= 1,
        draws_fit(classic_tit_for_tat(), da, n as int),
    ensures
        play_spec(classic_tit_for_tat(), defector(), n, da, db).0 == classic_tit_for_tat(),
        play_spec(classic_tit_for_tat(), defector(), n, da, db).1 == defector(),
        play_spec(classic_tit_for_tat(), defector(), n, da, db).2.len() == n,
        play_spec(classic_tit_for_tat(), defector(), n, da, db).2.last().1 == DEFECT,
        total_first(play_spec(classic_tit_for_tat(), defector(), n, da, db).2) == (n - 1) * MOVE_SCALE,
        total_second(play_spec(classic_tit_for_tat(), defector(), n, da, db).2) == 3 * MOVE_SCALE + (n - 1) * MOVE_SCALE,
    decreases n,
{
    let h = play_spec(classic_tit_for_tat(), defector(), (n - 1) as nat, da, db).2;
    if n == 1 {
        assert(h.len() == 0);
        lemma_totals_push(h, GameMove(COOPERATE, DEFECT));
    } else {
        assert(draws_fit(classic_tit_for_tat(), da.subrange(0, n - 1), n - 1));
        assert forall|m: nat| m <= n - 1 implies #[trigger] play_spec(classic_tit_for_tat(), defector(), m, da, db)
            == play_spec(classic_tit_for_tat(), defector(), m, da.subrange(0, n - 1), db) by {
            lemma_prefix_draws(classic_tit_for_tat(), defector(), m, da, (n - 1) as nat, db);
        }
        lemma_classic_tit_for_tat_defector_history((n - 1) as nat, da.subrange(0, n - 1), db);
        let d = da[n - 1]@;
        assert(d.len() >= 3 && draws_ok(d));
        assert(draw_ok(d[0]));
        lemma_totals_push(h, GameMove(DEFECT, DEFECT));
    }
}

/// A match's first `m` rounds use only the first `k >= m` draws.
proof fn lemma_prefix_draws(a: Strategy, b: Strategy, m: nat, da: Seq<Vec<i64>>, k: nat, db: Seq<Vec<i64>>)
    requires
        m <= k <= da.len(),
    ensures
        play_spec(a, b, m, da, db) == play_spec(a, b, m, da.subrange(0, k as int), db),
    decreases m,
{
    if m > 0 {
        lemma_prefix_draws(a, b, (m - 1) as nat, da, k, db);
    }
}

/// Tit for tat of the classic table against an unconditional defector over
/// `n >= 1` rounds, with any fitting draws, scores `(n - 1)` points against the
/// defector's `3 + (n - 1)`.
pub proof fn lemma_classic_tit_for_tat_defector(n: nat, da: Seq<Vec<i64>>, db: Seq<Vec<i64>>)
    requires
        n >= 1,
        draws_fit(classic_tit_for_tat(), da, n as int),
    ensures
        total_first(play_spec(classic_tit_for_tat(), defector(), n, da, db).2) == S + (n - 1) * P,
        total_second(play_spec(classic_tit_for_tat(), defector(), n, da, db).2) == T + (n - 1) * P,
{
    lemma_classic_tit_for_tat_defector_history(n, da, db);
}

} // verus!
