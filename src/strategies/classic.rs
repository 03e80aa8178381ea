//! The classic table of strategies, which answer with full cooperation or full
//! defection only.
use vstd::prelude::*;

use super::utils::{
    cooperates, draw_ok, draws_ok, is_cooperation, is_defection, nearest, to_nearest_move,
    to_opponent_move, to_opposite,
};
use crate::game::{
    catalog_ok, entry, from_functional, hold, hold_move, history_ok, move_ok, Functional, GameMove, Strategy, COOPERATE,
    DEFECT, MOVE_SCALE,
};

verus! {

/// Probability, in thousandths, that the generous tit for tat forgives a defection:
/// `min(1 - (T - R) / (R - S), (R - P) / (T - P))`, which is one half for the
/// canonical payoffs.
pub const GENEROSITY: i64 = 500;

/// Probability, in thousandths, that the imperfect tit for tat copies correctly.
pub const ACCURACY: i64 = 950;

/// The pure strategies of the classic table.
#[derive(Clone, Copy, Debug, PartialEq, Eq, Structural)]
pub enum Rule {
    UnconditionalCooperator,
    UnconditionalDefector,
    Random,
    TitForTat,
    SuspiciousTitForTat,
    GenerousTitForTat,
    ImperfectTitForTat,
    TitForTwoTats,
    TwoTitsForTat,
    Grim,
    Pavlov,
}

pub open spec fn random_spec(d: Seq<i64>) -> i64 {
    if d[0] < MOVE_SCALE / 2 {
        COOPERATE
    } else {
        DEFECT
    }
}

pub open spec fn tit_for_tat_spec(h: Seq<GameMove>, d: Seq<i64>) -> i64 {
    if h.len() == 0 {
        COOPERATE
    } else {
        nearest(h.last().1, d[0])
    }
}

pub open spec fn suspicious_tit_for_tat_spec(h: Seq<GameMove>, d: Seq<i64>) -> i64 {
    if h.len() == 0 {
        DEFECT
    } else {
        nearest(h.last().1, d[0])
    }
}

pub open spec fn generous_tit_for_tat_spec(h: Seq<GameMove>, d: Seq<i64>) -> i64 {
    if h.len() == 0 {
        DEFECT
    } else {
        let o = nearest(h.last().1, d[0]);
        if !cooperates(o, d[1]) && d[2] < GENEROSITY {
            COOPERATE
        } else {
            o
        }
    }
}

pub open spec fn imperfect_tit_for_tat_spec(h: Seq<GameMove>, d: Seq<i64>) -> i64 {
    if h.len() == 0 {
        COOPERATE
    } else {
        let o = nearest(h.last().1, d[0]);
        if d[1] < ACCURACY {
            o
        } else {
            (MOVE_SCALE - o) as i64
        }
    }
}

pub open spec fn tit_for_two_tats_spec(h: Seq<GameMove>, d: Seq<i64>) -> i64 {
    if h.len() <= 2 {
        COOPERATE
    } else if !cooperates(h[h.len() - 1].1, d[0]) && !cooperates(h[h.len() - 2].1, d[1]) {
        DEFECT
    } else {
        COOPERATE
    }
}

pub open spec fn two_tits_for_tat_spec(h: Seq<GameMove>, d: Seq<i64>) -> i64 {
    if h.len() <= 2 {
        COOPERATE
    } else if !cooperates(h[h.len() - 1].1, d[0]) || !cooperates(h[h.len() - 2].1, d[1]) {
        DEFECT
    } else {
        COOPERATE
    }
}

/// Some opponent move of the history reads as defection against its own draw:
/// the move of round `k` against draw `k`.
pub open spec fn any_defection(h: Seq<GameMove>, d: Seq<i64>) -> bool {
    exists|k: int| 0 <= k < h.len() && !cooperates(#[trigger] h[k].1, d[k])
}

pub open spec fn grim_spec(h: Seq<GameMove>, d: Seq<i64>) -> i64 {
    if any_defection(h, d) {
        DEFECT
    } else {
        COOPERATE
    }
}

pub open spec fn pavlov_spec(h: Seq<GameMove>, d: Seq<i64>) -> i64 {
    if h.len() == 0 {
        COOPERATE
    } else if cooperates(h.last().1, d[0]) {
        h.last().0
    } else {
        hold(MOVE_SCALE - h.last().0)
    }
}

impl Rule {
    /// How many draws the rule takes for a move after `played` rounds.
    pub open spec fn needed(self, played: int) -> int {
        match self {
            Rule::Grim => played,
            _ => 3,
        }
    }

    /// The move the rule makes on a history with the given draws.
    pub open spec fn apply(self, h: Seq<GameMove>, d: Seq<i64>) -> i64 {
        match self {
            Rule::UnconditionalCooperator => COOPERATE,
            Rule::UnconditionalDefector => DEFECT,
            Rule::Random => random_spec(d),
            Rule::TitForTat => tit_for_tat_spec(h, d),
            Rule::SuspiciousTitForTat => suspicious_tit_for_tat_spec(h, d),
            Rule::GenerousTitForTat => generous_tit_for_tat_spec(h, d),
            Rule::ImperfectTitForTat => imperfect_tit_for_tat_spec(h, d),
            Rule::TitForTwoTats => tit_for_two_tats_spec(h, d),
            Rule::TwoTitsForTat => two_tits_for_tat_spec(h, d),
            Rule::Grim => grim_spec(h, d),
            Rule::Pavlov => pavlov_spec(h, d),
        }
    }

    pub fn draws_needed(&self, played: usize) -> (r: usize)
        ensures
            r == self.needed(played as int),
    {
        match self {
            Rule::Grim => played,
            _ => 3,
        }
    }

    pub fn next_move(&self, history: &Vec<GameMove>, draws: &Vec<i64>) -> (r: i64)
        requires
            history_ok(history@),
            draws@.len() >= self.needed(history@.len() as int),
            draws_ok(draws@),
        ensures
            r == self.apply(history@, draws@),
            move_ok(r),
    {
        match self {
            Rule::UnconditionalCooperator => unconditional_cooperator(history),
            Rule::UnconditionalDefector => unconditional_defector(history),
            Rule::Random => random(history, draws),
            Rule::TitForTat => tit_for_tat(history, draws),
            Rule::SuspiciousTitForTat => suspicious_tit_for_tat(history, draws),
            Rule::GenerousTitForTat => generous_tit_for_tat(history, draws),
            Rule::ImperfectTitForTat => imperfect_tit_for_tat(history, draws),
            Rule::TitForTwoTats => tit_for_two_tats(history, draws),
            Rule::TwoTitsForTat => two_tits_for_tat(history, draws),
            Rule::Grim => grim(history, draws),
            Rule::Pavlov => pavlov(history, draws),
        }
    }
}

pub fn unconditional_cooperator(_history: &Vec<GameMove>) -> (r: i64)
    ensures
        r == COOPERATE,
{
    COOPERATE
}

pub fn unconditional_defector(_history: &Vec<GameMove>) -> (r: i64)
    ensures
        r == DEFECT,
{
    DEFECT
}

/// Cooperates or defects with even odds.
pub fn random(_history: &Vec<GameMove>, draws: &Vec<i64>) -> (r: i64)
    requires
        draws@.len() >= 1,
    ensures
        r == random_spec(draws@),
{
    if draws[0] < MOVE_SCALE / 2 {
        COOPERATE
    } else {
        DEFECT
    }
}

/// Copies the opponent's last move, read as cooperation or defection; cooperates first.
pub fn tit_for_tat(history: &Vec<GameMove>, draws: &Vec<i64>) -> (r: i64)
    requires
        draws@.len() >= 1,
    ensures
        r == tit_for_tat_spec(history@, draws@),
{
    if history.len() == 0 {
        COOPERATE
    } else {
        to_nearest_move(to_opponent_move(&history[history.len() - 1]), draws[0])
    }
}

/// Tit for tat that defects first.
pub fn suspicious_tit_for_tat(history: &Vec<GameMove>, draws: &Vec<i64>) -> (r: i64)
    requires
        draws@.len() >= 1,
    ensures
        r == suspicious_tit_for_tat_spec(history@, draws@),
{
    if history.len() == 0 {
        DEFECT
    } else {
        to_nearest_move(to_opponent_move(&history[history.len() - 1]), draws[0])
    }
}

/// Tit for tat that forgives a defection with probability `GENEROSITY`.
pub fn generous_tit_for_tat(history: &Vec<GameMove>, draws: &Vec<i64>) -> (r: i64)
    requires
        draws@.len() >= 3,
    ensures
        r == generous_tit_for_tat_spec(history@, draws@),
{
    if history.len() == 0 {
        DEFECT
    } else {
        let opponent_move = to_nearest_move(to_opponent_move(&history[history.len() - 1]), draws[0]);
        if is_defection(opponent_move, draws[1]) && draws[2] < GENEROSITY {
            COOPERATE
        } else {
            opponent_move
        }
    }
}

/// Tit for tat that answers with the opposite move with probability `1 - ACCURACY`.
pub fn imperfect_tit_for_tat(history: &Vec<GameMove>, draws: &Vec<i64>) -> (r: i64)
    requires
        draws@.len() >= 2,
    ensures
        r == imperfect_tit_for_tat_spec(history@, draws@),
        move_ok(r),
{
    if history.len() == 0 {
        COOPERATE
    } else {
        let opponent_move = to_nearest_move(to_opponent_move(&history[history.len() - 1]), draws[0]);
        if draws[1] < ACCURACY {
            opponent_move
        } else {
            to_opposite(opponent_move)
        }
    }
}

/// Defects only when both of the opponent's last two moves read as defection.
pub fn tit_for_two_tats(history: &Vec<GameMove>, draws: &Vec<i64>) -> (r: i64)
    requires
        draws@.len() >= 2,
    ensures
        r == tit_for_two_tats_spec(history@, draws@),
{
    let n = history.len();
    if n <= 2 {
        COOPERATE
    } else if is_defection(history[n - 1].1, draws[0]) && is_defection(history[n - 2].1, draws[1]) {
        DEFECT
    } else {
        COOPERATE
    }
}

/// Defects when either of the opponent's last two moves reads as defection.
pub fn two_tits_for_tat(history: &Vec<GameMove>, draws: &Vec<i64>) -> (r: i64)
    requires
        draws@.len() >= 2,
    ensures
        r == two_tits_for_tat_spec(history@, draws@),
{
    let n = history.len();
    if n <= 2 {
        COOPERATE
    } else if is_defection(history[n - 1].1, draws[0]) || is_defection(history[n - 2].1, draws[1]) {
        DEFECT
    } else {
        COOPERATE
    }
}

/// Defects for good once any opponent move has read as defection.
pub fn grim(history: &Vec<GameMove>, draws: &Vec<i64>) -> (r: i64)
    requires
        draws@.len() >= history@.len(),
    ensures
        r == grim_spec(history@, draws@),
{
    let mut i: usize = 0;
    while i < history.len()
        invariant
            i <= history.len(),
            draws@.len() >= history@.len(),
            forall|k: int| 0 <= k < i ==> cooperates(#[trigger] history@[k].1, draws@[k]),
        decreases history.len() - i,
    {
        if is_defection(to_opponent_move(&history[i]), draws[i]) {
            return DEFECT;
        }
        i += 1;
    }
    COOPERATE
}

/// Keeps its last move after the opponent cooperated and switches it otherwise.
pub fn pavlov(history: &Vec<GameMove>, draws: &Vec<i64>) -> (r: i64)
    requires
        history_ok(history@),
        draws@.len() >= 1,
    ensures
        r == pavlov_spec(history@, draws@),
        move_ok(r),
{
    if history.len() == 0 {
        COOPERATE
    } else {
        let last = history[history.len() - 1];
        assert(history@[history@.len() - 1].wf());
        if is_cooperation(last.1, draws[0]) {
            last.0
        } else {
            hold_move(to_opposite(last.0) as i128)
        }
    }
}

/// Pavlov with a propensity to defect that moves in steps of `1 / n`: up after
/// mutual cooperation or mutual defection, down otherwise.
#[derive(Clone, Copy, Debug, PartialEq, Eq, Structural)]
pub struct NPavlov {
    pub n: u64,
    pub p: i64,
}

/// The step of the propensity for a given `n`, in thousandths; a step of
/// a whole makes `n = 0` jump between the two ends.
pub open spec fn pavlov_step(n: u64) -> int {
    if n == 0 {
        MOVE_SCALE as int
    } else {
        MOVE_SCALE as int / n as int
    }
}

/// The propensity after one round.
pub open spec fn next_propensity(n: u64, p: int, last: Option<GameMove>, d: Seq<i64>) -> int {
    let delta = match last {
        None => 0,
        Some(m) => if cooperates(m.0, d[0]) == cooperates(m.1, d[1]) {
            pavlov_step(n)
        } else {
            -pavlov_step(n)
        },
    };
    if p + delta < 0 {
        0
    } else if p + delta > MOVE_SCALE {
        MOVE_SCALE as int
    } else {
        p + delta
    }
}

pub fn propensity_step(n: u64) -> (r: i64)
    ensures
        r == pavlov_step(n),
        0 <= r <= MOVE_SCALE,
{
    if n == 0 {
        MOVE_SCALE
    } else if n > MOVE_SCALE as u64 {
        assert((MOVE_SCALE as int) / (n as int) == 0) by (nonlinear_arith)
            requires
                n as int > MOVE_SCALE as int,
        ;
        0
    } else {
        assert(0 <= (MOVE_SCALE as int) / (n as int) <= MOVE_SCALE as int) by (nonlinear_arith)
            requires
                1 <= n as int <= MOVE_SCALE as int,
        ;
        MOVE_SCALE / (n as i64)
    }
}

/// The propensity after one round, computed.
pub fn update_propensity(n: u64, p: i64, last: Option<GameMove>, draws: &Vec<i64>) -> (r: i64)
    requires
        0 <= p <= MOVE_SCALE,
        draws@.len() >= 2,
    ensures
        r == next_propensity(n, p as int, last, draws@),
        0 <= r <= MOVE_SCALE,
{
    let step = propensity_step(n);
    let delta = match last {
        None => 0,
        Some(m) => if is_defection(m.0, draws[0]) == is_defection(m.1, draws[1]) {
            step
        } else {
            -step
        },
    };
    let q = p + delta;
    if q < 0 {
        0
    } else if q > MOVE_SCALE {
        MOVE_SCALE
    } else {
        q
    }
}

impl NPavlov {
    pub open spec fn wf(self) -> bool {
        0 <= self.p <= MOVE_SCALE
    }

    /// The state and the move after one round.
    pub open spec fn step(self, last: Option<GameMove>, d: Seq<i64>) -> (NPavlov, i64) {
        let p = next_propensity(self.n, self.p as int, last, d);
        (NPavlov { n: self.n, p: p as i64 }, if cooperates(p as i64, d[2]) {
            COOPERATE
        } else {
            DEFECT
        })
    }

    pub fn init(n: u64) -> (r: NPavlov)
        ensures
            r == (NPavlov { n, p: MOVE_SCALE }),
            r.wf(),
    {
        NPavlov { n, p: MOVE_SCALE }
    }

    /// Moves the propensity by the last round, then defects with that probability.
    pub fn next_move(&mut self, last_move: Option<GameMove>, draws: &Vec<i64>) -> (r: i64)
        requires
            old(self).wf(),
            draws@.len() >= 3,
        ensures
            (*final(self), r) == old(self).step(last_move, draws@),
            final(self).wf(),
    {
        self.p = update_propensity(self.n, self.p, last_move, draws);
        if is_cooperation(self.p, draws[2]) {
            COOPERATE
        } else {
            DEFECT
        }
    }
}


/// The classic table, in order, with the names it is listed under.
pub fn all() -> (r: Vec<(String, Strategy)>)
    ensures
        r@.len() == 14,
        catalog_ok(r@),
        r@[0].0@ == "Classic Unconditional Cooperator"@,
        r@[0].1 == Strategy::Functional(Functional::Classic(Rule::UnconditionalCooperator)),
        r@[1].0@ == "Classic Unconditional Defector"@,
        r@[1].1 == Strategy::Functional(Functional::Classic(Rule::UnconditionalDefector)),
        r@[2].0@ == "Classic Random"@,
        r@[2].1 == Strategy::Functional(Functional::Classic(Rule::Random)),
        r@[3].0@ == "Classic Tit for Tat"@,
        r@[3].1 == Strategy::Functional(Functional::Classic(Rule::TitForTat)),
        r@[4].0@ == "Classic Suspicious Tit for Tat"@,
        r@[4].1 == Strategy::Functional(Functional::Classic(Rule::SuspiciousTitForTat)),
        r@[5].0@ == "Classic Generous Tit for Tat"@,
        r@[5].1 == Strategy::Functional(Functional::Classic(Rule::GenerousTitForTat)),
        r@[6].0@ == "Classic Imperfect Tit for Tat"@,
        r@[6].1 == Strategy::Functional(Functional::Classic(Rule::ImperfectTitForTat)),
        r@[7].0@ == "Classic Tit for Two Tats"@,
        r@[7].1 == Strategy::Functional(Functional::Classic(Rule::TitForTwoTats)),
        r@[8].0@ == "Classic Two Tits for Tat"@,
        r@[8].1 == Strategy::Functional(Functional::Classic(Rule::TwoTitsForTat)),
        r@[9].0@ == "Classic Grim"@,
        r@[9].1 == Strategy::Functional(Functional::Classic(Rule::Grim)),
        r@[10].0@ == "Classic Pavlov"@,
        r@[10].1 == Strategy::Functional(Functional::Classic(Rule::Pavlov)),
        r@[11].0@ == "Classic 2Pavlov"@,
        r@[11].1 == Strategy::ClassicPavlov(NPavlov { n: 2, p: MOVE_SCALE }),
        r@[12].0@ == "Classic 4Pavlov"@,
        r@[12].1 == Strategy::ClassicPavlov(NPavlov { n: 4, p: MOVE_SCALE }),
        r@[13].0@ == "Classic 8Pavlov"@,
        r@[13].1 == Strategy::ClassicPavlov(NPavlov { n: 8, p: MOVE_SCALE }),
{
    let mut r: Vec<(String, Strategy)> = Vec::new();
    r.push(entry("Classic Unconditional Cooperator", from_functional(Functional::Classic(Rule::UnconditionalCooperator))));
    r.push(entry("Classic Unconditional Defector", from_functional(Functional::Classic(Rule::UnconditionalDefector))));
    r.push(entry("Classic Random", from_functional(Functional::Classic(Rule::Random))));
    r.push(entry("Classic Tit for Tat", from_functional(Functional::Classic(Rule::TitForTat))));
    r.push(entry("Classic Suspicious Tit for Tat", from_functional(Functional::Classic(Rule::SuspiciousTitForTat))));
    r.push(entry("Classic Generous Tit for Tat", from_functional(Functional::Classic(Rule::GenerousTitForTat))));
    r.push(entry("Classic Imperfect Tit for Tat", from_functional(Functional::Classic(Rule::ImperfectTitForTat))));
    r.push(entry("Classic Tit for Two Tats", from_functional(Functional::Classic(Rule::TitForTwoTats))));
    r.push(entry("Classic Two Tits for Tat", from_functional(Functional::Classic(Rule::TwoTitsForTat))));
    r.push(entry("Classic Grim", from_functional(Functional::Classic(Rule::Grim))));
    r.push(entry("Classic Pavlov", from_functional(Functional::Classic(Rule::Pavlov))));
    r.push(entry("Classic 2Pavlov", Strategy::ClassicPavlov(NPavlov::init(2))));
    r.push(entry("Classic 4Pavlov", Strategy::ClassicPavlov(NPavlov::init(4))));
    r.push(entry("Classic 8Pavlov", Strategy::ClassicPavlov(NPavlov::init(8))));
    r
}

} // verus!
