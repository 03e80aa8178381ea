//! Strategies that answer with any move in `[COOPERATE, DEFECT]`.
use vstd::prelude::*;

use super::classic::{next_propensity, update_propensity, GENEROSITY};
use super::utils::{cooperates, draws_ok, is_defection, nearest, to_nearest_move, to_opponent_move};
use crate::game::{
    catalog_ok, entry, from_functional, history_ok, move_ok, Functional, GameMove, Strategy, COOPERATE,
    DEFECT, MOVE_SCALE,
};

verus! {

/// Half the width of the noise of the imprecise tit for tat, in thousandths.
pub const DELTA: i64 = 50;

/// The pure strategies with continuous moves.
#[derive(Clone, Copy, Debug, PartialEq, Eq, Structural)]
pub enum Rule {
    Ambivalent,
    AmbivalentSuspicious,
    AmbivalentRelaxed,
    Random,
    TitForTat,
    SuspiciousTitForTat,
    GenerousTitForTat,
    ImpreciseTitForTat,
    TitForTwoTats,
    TwoTitsForTat,
    Grim,
}

pub open spec fn tit_for_tat_spec(h: Seq<GameMove>) -> i64 {
    if h.len() == 0 {
        COOPERATE
    } else {
        h.last().1
    }
}

pub open spec fn suspicious_tit_for_tat_spec(h: Seq<GameMove>) -> i64 {
    if h.len() == 0 {
        DEFECT
    } else {
        h.last().1
    }
}

pub open spec fn generous_tit_for_tat_spec(h: Seq<GameMove>, d: Seq<i64>) -> i64 {
    if h.len() == 0 {
        DEFECT
    } else if !cooperates(h.last().1, d[0]) && d[1] < GENEROSITY {
        COOPERATE
    } else {
        h.last().1
    }
}

/// The noise of the imprecise tit for tat for a draw: a whole number of
/// thousandths in `[-DELTA, DELTA)`.
pub open spec fn noise(d: i64) -> int {
    (d * (2 * DELTA)) / MOVE_SCALE as int - DELTA
}

pub open spec fn imprecise_tit_for_tat_spec(h: Seq<GameMove>, d: Seq<i64>) -> i64 {
    if h.len() == 0 {
        COOPERATE
    } else {
        (nearest(h.last().1, d[0]) + noise(d[1])) as i64
    }
}

pub open spec fn min_move(a: i64, b: i64) -> i64 {
    if a <= b {
        a
    } else {
        b
    }
}

pub open spec fn max_move(a: i64, b: i64) -> i64 {
    if a >= b {
        a
    } else {
        b
    }
}

pub open spec fn tit_for_two_tats_spec(h: Seq<GameMove>) -> i64 {
    if h.len() == 0 {
        COOPERATE
    } else if h.len() == 1 {
        h[0].1
    } else {
        min_move(h[h.len() - 1].1, h[h.len() - 2].1)
    }
}

pub open spec fn two_tits_for_tat_spec(h: Seq<GameMove>) -> i64 {
    if h.len() == 0 {
        COOPERATE
    } else if h.len() == 1 {
        h[0].1
    } else {
        max_move(h[h.len() - 1].1, h[h.len() - 2].1)
    }
}

/// The most defective opponent move of a nonempty history.
pub open spec fn max_opponent(h: Seq<GameMove>) -> i64
    decreases h.len(),
{
    if h.len() <= 1 {
        h[0].1
    } else {
        max_move(max_opponent(h.drop_last()), h.last().1)
    }
}

/// The most defective opponent move of a history within bounds is within bounds.
pub proof fn lemma_max_opponent_ok(h: Seq<GameMove>)
    requires
        h.len() > 0,
        history_ok(h),
    ensures
        move_ok(max_opponent(h)),
    decreases h.len(),
{
    assert(h[0].wf());
    assert(h[h.len() - 1].wf());
    if h.len() > 1 {
        assert(history_ok(h.drop_last())) by {
            assert forall|k: int| 0 <= k < h.drop_last().len() implies (#[trigger] h.drop_last()[k]).wf() by {
                assert(h[k].wf());
            }
        }
        lemma_max_opponent_ok(h.drop_last());
    }
}

pub open spec fn grim_spec(h: Seq<GameMove>) -> i64 {
    if h.len() == 0 {
        COOPERATE
    } else {
        max_opponent(h)
    }
}

impl Rule {
    /// How many draws the rule takes for one move.
    pub open spec fn needed(self) -> int {
        2
    }

    /// The move the rule makes on a history with the given draws.
    pub open spec fn apply(self, h: Seq<GameMove>, d: Seq<i64>) -> i64 {
        match self {
            Rule::Ambivalent => 500,
            Rule::AmbivalentSuspicious => 750,
            Rule::AmbivalentRelaxed => 250,
            Rule::Random => d[0],
            Rule::TitForTat => tit_for_tat_spec(h),
            Rule::SuspiciousTitForTat => suspicious_tit_for_tat_spec(h),
            Rule::GenerousTitForTat => generous_tit_for_tat_spec(h, d),
            Rule::ImpreciseTitForTat => imprecise_tit_for_tat_spec(h, d),
            Rule::TitForTwoTats => tit_for_two_tats_spec(h),
            Rule::TwoTitsForTat => two_tits_for_tat_spec(h),
            Rule::Grim => grim_spec(h),
        }
    }

    pub fn next_move(&self, history: &Vec<GameMove>, draws: &Vec<i64>) -> (r: i64)
        requires
            history_ok(history@),
            draws@.len() >= self.needed(),
            draws_ok(draws@),
        ensures
            r == self.apply(history@, draws@),
            move_ok(r),
    {
        let n = history.len();
        if n > 0 {
            assert(history@[n - 1].wf());
            assert(history@[0].wf());
            proof {
                lemma_max_opponent_ok(history@);
            }
        }
        if n > 1 {
            assert(history@[n - 2].wf());
        }
        match self {
            Rule::Ambivalent => ambivalent(history),
            Rule::AmbivalentSuspicious => ambivalent_suspicious(history),
            Rule::AmbivalentRelaxed => ambivalent_relaxed(history),
            Rule::Random => random(history, draws),
            Rule::TitForTat => tit_for_tat(history),
            Rule::SuspiciousTitForTat => suspicious_tit_for_tat(history),
            Rule::GenerousTitForTat => generous_tit_for_tat(history, draws),
            Rule::ImpreciseTitForTat => imprecise_tit_for_tat(history, draws),
            Rule::TitForTwoTats => tit_for_two_tats(history),
            Rule::TwoTitsForTat => two_tits_for_tat(history),
            Rule::Grim => grim(history),
        }
    }
}

pub fn ambivalent(_history: &Vec<GameMove>) -> (r: i64)
    ensures
        r == 500,
{
    500
}

pub fn ambivalent_suspicious(_history: &Vec<GameMove>) -> (r: i64)
    ensures
        r == 750,
{
    750
}

pub fn ambivalent_relaxed(_history: &Vec<GameMove>) -> (r: i64)
    ensures
        r == 250,
{
    250
}

/// A move drawn uniformly from `[COOPERATE, DEFECT)`.
pub fn random(_history: &Vec<GameMove>, draws: &Vec<i64>) -> (r: i64)
    requires
        draws@.len() >= 1,
    ensures
        r == draws@[0],
{
    draws[0]
}

/// Copies the opponent's last move; cooperates first.
pub fn tit_for_tat(history: &Vec<GameMove>) -> (r: i64)
    ensures
        r == tit_for_tat_spec(history@),
{
    if history.len() == 0 {
        COOPERATE
    } else {
        to_opponent_move(&history[history.len() - 1])
    }
}

/// Copies the opponent's last move; defects first.
pub fn suspicious_tit_for_tat(history: &Vec<GameMove>) -> (r: i64)
    ensures
        r == suspicious_tit_for_tat_spec(history@),
{
    if history.len() == 0 {
        DEFECT
    } else {
        to_opponent_move(&history[history.len() - 1])
    }
}

/// Tit for tat that forgives a move read as defection with probability `GENEROSITY`.
pub fn generous_tit_for_tat(history: &Vec<GameMove>, draws: &Vec<i64>) -> (r: i64)
    requires
        draws@.len() >= 2,
    ensures
        r == generous_tit_for_tat_spec(history@, draws@),
{
    if history.len() == 0 {
        DEFECT
    } else {
        let opponent_move = to_opponent_move(&history[history.len() - 1]);
        if is_defection(opponent_move, draws[0]) && draws[1] < GENEROSITY {
            COOPERATE
        } else {
            opponent_move
        }
    }
}

/// Copies the opponent's last move, read as cooperation or defection, off by a
/// noise drawn from `[-DELTA, DELTA)`.
pub fn imprecise_tit_for_tat(history: &Vec<GameMove>, draws: &Vec<i64>) -> (r: i64)
    requires
        draws@.len() >= 2,
        draws_ok(draws@),
    ensures
        r == imprecise_tit_for_tat_spec(history@, draws@),
        move_ok(r),
{
    if history.len() == 0 {
        COOPERATE
    } else {
        let opponent_move = to_nearest_move(to_opponent_move(&history[history.len() - 1]), draws[0]);
        let d = draws[1];
        assert(0 <= d * (2 * DELTA) / MOVE_SCALE as int <= 2 * DELTA) by (nonlinear_arith)
            requires
                0 <= d < MOVE_SCALE,
        ;
        opponent_move + (d * (2 * DELTA)) / MOVE_SCALE - DELTA
    }
}

/// The more cooperative of the opponent's last two moves.
pub fn tit_for_two_tats(history: &Vec<GameMove>) -> (r: i64)
    ensures
        r == tit_for_two_tats_spec(history@),
{
    let n = history.len();
    if n == 0 {
        COOPERATE
    } else if n == 1 {
        history[0].1
    } else if history[n - 1].1 <= history[n - 2].1 {
        history[n - 1].1
    } else {
        history[n - 2].1
    }
}

/// The more defective of the opponent's last two moves.
pub fn two_tits_for_tat(history: &Vec<GameMove>) -> (r: i64)
    ensures
        r == two_tits_for_tat_spec(history@),
{
    let n = history.len();
    if n == 0 {
        COOPERATE
    } else if n == 1 {
        history[0].1
    } else if history[n - 1].1 >= history[n - 2].1 {
        history[n - 1].1
    } else {
        history[n - 2].1
    }
}

/// The most defective of all the opponent's moves; cooperates first.
pub fn grim(history: &Vec<GameMove>) -> (r: i64)
    ensures
        r == grim_spec(history@),
{
    if history.len() == 0 {
        return COOPERATE;
    }
    let mut best = history[0].1;
    let mut i: usize = 1;
    while i < history.len()
        invariant
            1 <= i <= history.len(),
            best == max_opponent(history@.subrange(0, i as int)),
        decreases history.len() - i,
    {
        assert(history@.subrange(0, i + 1).drop_last() =~= history@.subrange(0, i as int));
        if history[i].1 > best {
            best = history[i].1;
        }
        i += 1;
    }
    assert(history@.subrange(0, history.len() as int) =~= history@);
    best
}

/// A propensity to defect that moves in steps of `1 / n`, played as a move:
/// the move is one whole less the propensity.
#[derive(Clone, Copy, Debug, PartialEq, Eq, Structural)]
pub struct NPavlov {
    pub n: u64,
    pub p: i64,
}

impl NPavlov {
    pub open spec fn wf(self) -> bool {
        0 <= self.p <= MOVE_SCALE
    }

    /// The state and the move after one round.
    pub open spec fn step(self, last: Option<GameMove>, d: Seq<i64>) -> (NPavlov, i64) {
        let p = next_propensity(self.n, self.p as int, last, d);
        (NPavlov { n: self.n, p: p as i64 }, (MOVE_SCALE - p) as i64)
    }

    pub fn init(n: u64) -> (r: NPavlov)
        ensures
            r == (NPavlov { n, p: MOVE_SCALE }),
            r.wf(),
    {
        NPavlov { n, p: MOVE_SCALE }
    }

    pub fn next_move(&mut self, last_move: Option<GameMove>, draws: &Vec<i64>) -> (r: i64)
        requires
            old(self).wf(),
            draws@.len() >= 2,
        ensures
            (*final(self), r) == old(self).step(last_move, draws@),
            final(self).wf(),
    {
        self.p = update_propensity(self.n, self.p, last_move, draws);
        MOVE_SCALE - self.p
    }
}


/// The continuous strategies, in order, with the names they are listed under.
pub fn all() -> (r: Vec<(String, Strategy)>)
    ensures
        r@.len() == 14,
        catalog_ok(r@),
        r@[0].0@ == "Ambivalent"@,
        r@[0].1 == Strategy::Functional(Functional::Continuous(Rule::Ambivalent)),
        r@[1].0@ == "Ambivalent Suspicious"@,
        r@[1].1 == Strategy::Functional(Functional::Continuous(Rule::AmbivalentSuspicious)),
        r@[2].0@ == "Ambivalent Relaxed"@,
        r@[2].1 == Strategy::Functional(Functional::Continuous(Rule::AmbivalentRelaxed)),
        r@[3].0@ == "Random"@,
        r@[3].1 == Strategy::Functional(Functional::Continuous(Rule::Random)),
        r@[4].0@ == "Tit for Tat"@,
        r@[4].1 == Strategy::Functional(Functional::Continuous(Rule::TitForTat)),
        r@[5].0@ == "Suspicious Tit for Tat"@,
        r@[5].1 == Strategy::Functional(Functional::Continuous(Rule::SuspiciousTitForTat)),
        r@[6].0@ == "Generous Tit for Tat"@,
        r@[6].1 == Strategy::Functional(Functional::Continuous(Rule::GenerousTitForTat)),
        r@[7].0@ == "Imprecise Tit for Tat"@,
        r@[7].1 == Strategy::Functional(Functional::Continuous(Rule::ImpreciseTitForTat)),
        r@[8].0@ == "Tit for Two Tats"@,
        r@[8].1 == Strategy::Functional(Functional::Continuous(Rule::TitForTwoTats)),
        r@[9].0@ == "Two Tits for Tat"@,
        r@[9].1 == Strategy::Functional(Functional::Continuous(Rule::TwoTitsForTat)),
        r@[10].0@ == "Grim"@,
        r@[10].1 == Strategy::Functional(Functional::Continuous(Rule::Grim)),
        r@[11].0@ == "2Pavlov"@,
        r@[11].1 == Strategy::ContinuousPavlov(NPavlov { n: 2, p: MOVE_SCALE }),
        r@[12].0@ == "4Pavlov"@,
        r@[12].1 == Strategy::ContinuousPavlov(NPavlov { n: 4, p: MOVE_SCALE }),
        r@[13].0@ == "8Pavlov"@,
        r@[13].1 == Strategy::ContinuousPavlov(NPavlov { n: 8, p: MOVE_SCALE }),
{
    let mut r: Vec<(String, Strategy)> = Vec::new();
    r.push(entry("Ambivalent", from_functional(Functional::Continuous(Rule::Ambivalent))));
    r.push(entry("Ambivalent Suspicious", from_functional(Functional::Continuous(Rule::AmbivalentSuspicious))));
    r.push(entry("Ambivalent Relaxed", from_functional(Functional::Continuous(Rule::AmbivalentRelaxed))));
    r.push(entry("Random", from_functional(Functional::Continuous(Rule::Random))));
    r.push(entry("Tit for Tat", from_functional(Functional::Continuous(Rule::TitForTat))));
    r.push(entry("Suspicious Tit for Tat", from_functional(Functional::Continuous(Rule::SuspiciousTitForTat))));
    r.push(entry("Generous Tit for Tat", from_functional(Functional::Continuous(Rule::GenerousTitForTat))));
    r.push(entry("Imprecise Tit for Tat", from_functional(Functional::Continuous(Rule::ImpreciseTitForTat))));
    r.push(entry("Tit for Two Tats", from_functional(Functional::Continuous(Rule::TitForTwoTats))));
    r.push(entry("Two Tits for Tat", from_functional(Functional::Continuous(Rule::TwoTitsForTat))));
    r.push(entry("Grim", from_functional(Functional::Continuous(Rule::Grim))));
    r.push(entry("2Pavlov", Strategy::ContinuousPavlov(NPavlov::init(2))));
    r.push(entry("4Pavlov", Strategy::ContinuousPavlov(NPavlov::init(4))));
    r.push(entry("8Pavlov", Strategy::ContinuousPavlov(NPavlov::init(8))));
    r
}

} // verus!
