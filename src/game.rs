//! The payoff model, the strategy capability and the match engine.
use vstd::prelude::*;

use crate::draws::draw_table;
use crate::stats::MAX_WIDTH;
use crate::strategies::classic;
use crate::strategies::continuous;
use crate::strategies::tsvrn9::Detente;
use crate::strategies::utils::draws_ok;

verus! {

/// Units of a move or a score that make one whole.
pub const MOVE_SCALE: i64 = 1000;

/// Full cooperation.
pub const COOPERATE: i64 = 0;

/// Full defection.
pub const DEFECT: i64 = 1000;

/// Rounds of every match in a tournament.
pub const NUM_ROUNDS: usize = 1000;

/// Reward for mutual cooperation, in thousandths of a point.
pub const R: i64 = 2000;

/// Punishment for mutual defection.
pub const P: i64 = 1000;

/// Temptation: defecting against a cooperator.
pub const T: i64 = 3000;

/// Sucker's payoff: cooperating against a defector.
pub const S: i64 = 0;

/// Raw moves, which may leave `[COOPERATE, DEFECT]`, are held within this bound.
pub const MOVE_LIMIT: i64 = 1000000000000;

/// The longest match whose scores the engine can add up.
pub const MAX_ROUNDS: usize = 1000000000;

/// A move restricted to `[COOPERATE, DEFECT]`.
pub open spec fn clamp_move(m: int) -> int {
    if m < COOPERATE {
        COOPERATE as int
    } else if m > DEFECT {
        DEFECT as int
    } else {
        m
    }
}

/// What a player moving `own` scores against `opponent`.
pub open spec fn evaluate(own: int, opponent: int) -> int {
    clamp_move(own) - 2 * clamp_move(opponent) + 2 * MOVE_SCALE
}

/// A raw move that stays within `MOVE_LIMIT` of cooperation.
pub open spec fn move_ok(m: i64) -> bool {
    -MOVE_LIMIT <= m <= MOVE_LIMIT
}

/// A value brought back within `MOVE_LIMIT`.
pub open spec fn hold(v: int) -> i64 {
    if v < -MOVE_LIMIT {
        (-MOVE_LIMIT) as i64
    } else if v > MOVE_LIMIT {
        MOVE_LIMIT
    } else {
        v as i64
    }
}

/// Brings a value back within `MOVE_LIMIT`.
pub fn hold_move(v: i128) -> (r: i64)
    ensures
        r == hold(v as int),
        move_ok(r),
{
    if v < -(MOVE_LIMIT as i128) {
        -MOVE_LIMIT
    } else if v > MOVE_LIMIT as i128 {
        MOVE_LIMIT
    } else {
        v as i64
    }
}

/// One round's pair of moves: the reference player's first, the opponent's second.
#[derive(Clone, Copy, Debug, PartialEq, Eq, Structural)]
pub struct GameMove(pub i64, pub i64);

/// Total scores of the two players of a match, in thousandths of a point.
#[derive(Clone, Copy, Debug, PartialEq, Eq, Structural)]
pub struct GameResult(pub i64, pub i64);

impl GameMove {
    /// The same round seen by the other player.
    pub open spec fn swapped(self) -> GameMove {
        GameMove(self.1, self.0)
    }

    /// Both moves within `MOVE_LIMIT`.
    pub open spec fn wf(self) -> bool {
        move_ok(self.0) && move_ok(self.1)
    }

    pub fn switch_perspectives(&self) -> (r: GameMove)
        ensures
            r == self.swapped(),
    {
        GameMove(self.1, self.0)
    }
}

/// A history seen by the other player: every round swapped.
pub open spec fn swap_all(h: Seq<GameMove>) -> Seq<GameMove> {
    h.map_values(|m: GameMove| m.swapped())
}

/// Every round of a history within `MOVE_LIMIT`.
pub open spec fn history_ok(h: Seq<GameMove>) -> bool {
    forall|k: int| 0 <= k < h.len() ==> (#[trigger] h[k]).wf()
}

/// Swapping the perspective of a history twice gives the history back.
pub proof fn lemma_swap_twice(h: Seq<GameMove>)
    ensures
        swap_all(swap_all(h)) == h,
{
    assert(swap_all(swap_all(h)) =~= h);
}

/// The opponent's view of a history, as a new sequence.
pub fn switch_history(h: &Vec<GameMove>) -> (r: Vec<GameMove>)
    ensures
        r@ == swap_all(h@),
{
    let mut r: Vec<GameMove> = Vec::with_capacity(h.len());
    let mut i: usize = 0;
    while i < h.len()
        invariant
            i <= h.len(),
            r@ == swap_all(h@.subrange(0, i as int)),
        decreases h.len() - i,
    {
        r.push(h[i].switch_perspectives());
        i += 1;
        assert(h@.subrange(0, i as int) =~= h@.subrange(0, i - 1).push(h@[i - 1]));
        assert(swap_all(h@.subrange(0, i as int)) =~= swap_all(h@.subrange(0, i - 1)).push(h@[i - 1].swapped()));
    }
    assert(h@.subrange(0, h.len() as int) =~= h@);
    r
}

fn clamp_to_move(m: i64) -> (r: i64)
    ensures
        r == clamp_move(m as int),
{
    if m < COOPERATE {
        COOPERATE
    } else if m > DEFECT {
        DEFECT
    } else {
        m
    }
}

fn eval(you: i64, other: i64) -> (r: i64)
    ensures
        r == evaluate(you as int, other as int),
        0 <= r <= T,
{
    let you = clamp_to_move(you);
    let other = clamp_to_move(other);
    you - 2 * other + 2 * MOVE_SCALE
}

/// The scores of one round: each player's move evaluated against the other's.
pub fn play_round(x: i64, y: i64) -> (r: GameResult)
    ensures
        r.0 == evaluate(x as int, y as int),
        r.1 == evaluate(y as int, x as int),
{
    GameResult(eval(x, y), eval(y, x))
}

/// On `[0, 1]` the two players' scores of a round add up to `4 - x - y`, and the
/// corners of the payoff surface are the canonical payoffs `R`, `P`, `T` and `S`.
pub proof fn lemma_payoff_sum(x: int, y: int)
    requires
        COOPERATE <= x <= DEFECT,
        COOPERATE <= y <= DEFECT,
    ensures
        evaluate(x, y) + evaluate(y, x) == 4 * MOVE_SCALE - x - y,
        evaluate(COOPERATE as int, COOPERATE as int) == R,
        evaluate(DEFECT as int, DEFECT as int) == P,
        evaluate(DEFECT as int, COOPERATE as int) == T,
        evaluate(COOPERATE as int, DEFECT as int) == S,
{
}

/// A strategy that is a function of the history and the draws alone.
#[derive(Clone, Copy, Debug, PartialEq, Eq, Structural)]
pub enum Functional {
    Classic(classic::Rule),
    Continuous(continuous::Rule),
}

/// A player: a pure rule, or a rule with private state that one match updates.
/// Duplicating a strategy is copying it, so no two matches share any state.
#[derive(Clone, Copy, Debug, PartialEq, Eq, Structural)]
pub enum Strategy {
    Functional(Functional),
    ClassicPavlov(classic::NPavlov),
    ContinuousPavlov(continuous::NPavlov),
    Detente(Detente),
}

pub fn from_functional(f: Functional) -> (r: Strategy)
    ensures
        r == Strategy::Functional(f),
{
    Strategy::Functional(f)
}

impl Strategy {
    /// The private state is in range.
    pub open spec fn wf(self) -> bool {
        match self {
            Strategy::Functional(_) => true,
            Strategy::ClassicPavlov(s) => s.wf(),
            Strategy::ContinuousPavlov(s) => s.wf(),
            Strategy::Detente(s) => s.wf(),
        }
    }

    /// How many draws the strategy takes for its move after `played` rounds.
    pub open spec fn needed(self, played: int) -> int {
        match self {
            Strategy::Functional(Functional::Classic(r)) => r.needed(played),
            Strategy::Functional(Functional::Continuous(r)) => r.needed(),
            Strategy::ClassicPavlov(_) => 3,
            Strategy::ContinuousPavlov(_) => 2,
            Strategy::Detente(_) => 0,
        }
    }

    /// The next state and move, given the last round and the history from the
    /// strategy's own side, and the draws of this move.
    pub open spec fn step(self, last: Option<GameMove>, h: Seq<GameMove>, d: Seq<i64>) -> (
        Strategy,
        i64,
    ) {
        match self {
            Strategy::Functional(Functional::Classic(r)) => (self, r.apply(h, d)),
            Strategy::Functional(Functional::Continuous(r)) => (self, r.apply(h, d)),
            Strategy::ClassicPavlov(s) => {
                let (t, m) = s.step(last, d);
                (Strategy::ClassicPavlov(t), m)
            },
            Strategy::ContinuousPavlov(s) => {
                let (t, m) = s.step(last, d);
                (Strategy::ContinuousPavlov(t), m)
            },
            Strategy::Detente(s) => {
                let (t, m) = s.step(last);
                (Strategy::Detente(t), m)
            },
        }
    }

    pub fn draws_needed(&self, played: usize) -> (r: usize)
        ensures
            r == self.needed(played as int),
    {
        match self {
            Strategy::Functional(Functional::Classic(r)) => r.draws_needed(played),
            Strategy::Functional(Functional::Continuous(_)) => 2,
            Strategy::ClassicPavlov(_) => 3,
            Strategy::ContinuousPavlov(_) => 2,
            Strategy::Detente(_) => 0,
        }
    }

    /// Produces the next move from the last round and the history, both from this
    /// strategy's side, and the draws of this move.
    pub fn next_move(&mut self, last_move: Option<GameMove>, history: &Vec<GameMove>, draws: &Vec<i64>) -> (r: i64)
        requires
            old(self).wf(),
            last_move matches Some(m) ==> m.wf(),
            history_ok(history@),
            draws@.len() >= old(self).needed(history@.len() as int),
            draws_ok(draws@),
        ensures
            (*final(self), r) == old(self).step(last_move, history@, draws@),
            final(self).wf(),
            forall|k: int| #[trigger] final(self).needed(k) == old(self).needed(k),
            move_ok(r),
    {
        match self {
            Strategy::Functional(Functional::Classic(r)) => r.next_move(history, draws),
            Strategy::Functional(Functional::Continuous(r)) => r.next_move(history, draws),
            Strategy::ClassicPavlov(s) => s.next_move(last_move, draws),
            Strategy::ContinuousPavlov(s) => s.next_move(last_move, draws),
            Strategy::Detente(s) => s.next_move(last_move),
        }
    }
}

/// The last round of a history, if any.
pub open spec fn last_of(h: Seq<GameMove>) -> Option<GameMove> {
    if h.len() == 0 {
        None
    } else {
        Some(h.last())
    }
}

/// The draws for `n` rounds of a strategy: one list per round, each long enough
/// and in `[0, MOVE_SCALE)`.
pub open spec fn draws_fit(s: Strategy, d: Seq<Vec<i64>>, n: int) -> bool {
    &&& d.len() == n
    &&& forall|k: int|
        0 <= k < n ==> (#[trigger] d[k])@.len() >= s.needed(k) && draws_ok(d[k]@)
}

/// Both strategies and the history after `n` rounds of a match.
pub open spec fn play_spec(
    a: Strategy,
    b: Strategy,
    n: nat,
    da: Seq<Vec<i64>>,
    db: Seq<Vec<i64>>,
) -> (Strategy, Strategy, Seq<GameMove>)
    decreases n,
{
    if n == 0 {
        (a, b, Seq::empty())
    } else {
        let prev = play_spec(a, b, (n - 1) as nat, da, db);
        let h = prev.2;
        let first = prev.0.step(last_of(h), h, da[n - 1]@);
        let second = prev.1.step(last_of(swap_all(h)), swap_all(h), db[n - 1]@);
        (first.0, second.0, h.push(GameMove(first.1, second.1)))
    }
}

/// The first player's total over a history.
pub open spec fn total_first(h: Seq<GameMove>) -> int
    decreases h.len(),
{
    if h.len() == 0 {
        0
    } else {
        total_first(h.drop_last()) + evaluate(h.last().0 as int, h.last().1 as int)
    }
}

/// The second player's total over a history.
pub open spec fn total_second(h: Seq<GameMove>) -> int
    decreases h.len(),
{
    if h.len() == 0 {
        0
    } else {
        total_second(h.drop_last()) + evaluate(h.last().1 as int, h.last().0 as int)
    }
}

/// The scores of a history.
pub open spec fn result_of(h: Seq<GameMove>) -> GameResult {
    GameResult(total_first(h) as i64, total_second(h) as i64)
}

pub proof fn lemma_swap_ok(h: Seq<GameMove>)
    requires
        history_ok(h),
    ensures
        history_ok(swap_all(h)),
        swap_all(h).len() == h.len(),
{
    assert forall|k: int| 0 <= k < swap_all(h).len() implies (#[trigger] swap_all(h)[k]).wf() by {
        assert(h[k].wf());
    }
}

/// Plays `rounds` rounds between two strategies, with the draws of each move
/// handed in, and returns the scores and the history from the first player's side.
pub fn play_strategies_with(
    first: &mut Strategy,
    second: &mut Strategy,
    rounds: usize,
    draws_first: &Vec<Vec<i64>>,
    draws_second: &Vec<Vec<i64>>,
) -> (r: (GameResult, Vec<GameMove>))
    requires
        old(first).wf(),
        old(second).wf(),
        rounds <= MAX_ROUNDS,
        draws_fit(*old(first), draws_first@, rounds as int),
        draws_fit(*old(second), draws_second@, rounds as int),
    ensures
        (*final(first), *final(second), r.1@) == play_spec(
            *old(first),
            *old(second),
            rounds as nat,
            draws_first@,
            draws_second@,
        ),
        r.0 == result_of(r.1@),
        r.1@.len() == rounds,
        history_ok(r.1@),
        0 <= r.0.0 <= T * rounds,
        0 <= r.0.1 <= T * rounds,
{
    let ghost a0 = *first;
    let ghost b0 = *second;
    let mut results = GameResult(0, 0);
    let mut history: Vec<GameMove> = Vec::new();
    let mut last_move: Option<GameMove> = None;
    let mut i: usize = 0;
    while i < rounds
        invariant
            i <= rounds <= MAX_ROUNDS,
            draws_fit(a0, draws_first@, rounds as int),
            draws_fit(b0, draws_second@, rounds as int),
            (*first, *second, history@) == play_spec(a0, b0, i as nat, draws_first@, draws_second@),
            first.wf(),
            second.wf(),
            forall|k: int| #[trigger] first.needed(k) == a0.needed(k),
            forall|k: int| #[trigger] second.needed(k) == b0.needed(k),
            history@.len() == i,
            history_ok(history@),
            last_move == last_of(history@),
            results.0 == total_first(history@),
            results.1 == total_second(history@),
            0 <= results.0 <= T * i,
            0 <= results.1 <= T * i,
        decreases rounds - i,
    {
        let ghost h = history@;
        let alt_history = switch_history(&history);
        let alt_last = match last_move {
            Some(m) => Some(m.switch_perspectives()),
            None => None,
        };
        proof {
            lemma_swap_ok(h);
            if h.len() > 0 {
                assert(h[h.len() - 1].wf());
            }
            assert(last_of(swap_all(h)) == alt_last);
            assert(draws_first@[i as int]@.len() >= a0.needed(i as int));
            assert(draws_second@[i as int]@.len() >= b0.needed(i as int));
        }
        let x = first.next_move(last_move, &history, &draws_first[i]);
        let y = second.next_move(alt_last, &alt_history, &draws_second[i]);
        let result = play_round(x, y);
        results = GameResult(results.0 + result.0, results.1 + result.1);
        let chosen_move = GameMove(x, y);
        history.push(chosen_move);
        last_move = Some(chosen_move);
        i += 1;
        proof {
            assert(history@.drop_last() =~= h);
            assert forall|k: int| 0 <= k < history@.len() implies (#[trigger] history@[k]).wf() by {
                if k < h.len() {
                    assert(h[k].wf());
                }
            }
        }
    }
    (results, history)
}

/// The outcome of a match for some fitting draws: both strategies after it, its
/// history and its scores.
pub open spec fn is_play(
    a: Strategy,
    b: Strategy,
    n: nat,
    a2: Strategy,
    b2: Strategy,
    h: Seq<GameMove>,
) -> bool {
    exists|da: Seq<Vec<i64>>, db: Seq<Vec<i64>>|
        draws_fit(a, da, n as int) && draws_fit(b, db, n as int) && #[trigger] play_spec(
            a,
            b,
            n,
            da,
            db,
        ) == (a2, b2, h)
}

/// Plays a match of `NUM_ROUNDS` rounds, each random decision against a fresh draw.
pub fn play_strategies(first: &mut Strategy, second: &mut Strategy) -> (r: (GameResult, Vec<GameMove>))
    requires
        old(first).wf(),
        old(second).wf(),
    ensures
        is_play(*old(first), *old(second), NUM_ROUNDS as nat, *final(first), *final(second), r.1@),
        r.0 == result_of(r.1@),
        r.1@.len() == NUM_ROUNDS,
        history_ok(r.1@),
{
    let draws_first = draw_table(first, NUM_ROUNDS);
    let draws_second = draw_table(second, NUM_ROUNDS);
    let ghost a0 = *first;
    let ghost b0 = *second;
    let r = play_strategies_with(first, second, NUM_ROUNDS, &draws_first, &draws_second);
    assert(play_spec(a0, b0, NUM_ROUNDS as nat, draws_first@, draws_second@) == (
        *first,
        *second,
        r.1@,
    ));
    r
}

/// The record of one ordered pairing: both names, the scores and the history.
#[derive(Clone, Debug)]
pub struct MatchupResult {
    pub first_name: String,
    pub second_name: String,
    pub overall_result: GameResult,
    pub history: Vec<GameMove>,
}

/// A catalog entry: a display name and a strategy.
pub fn entry(name: &str, strategy: Strategy) -> (r: (String, Strategy))
    ensures
        r.0@ == name@,
        r.1 == strategy,
{
    (name.to_owned(), strategy)
}

impl Strategy {
    /// Whether the private state is in range.
    pub fn is_well_formed(&self) -> (r: bool)
        ensures
            r == self.wf(),
    {
        match self {
            Strategy::Functional(_) => true,
            Strategy::ClassicPavlov(s) => 0 <= s.p && s.p <= MOVE_SCALE,
            Strategy::ContinuousPavlov(s) => 0 <= s.p && s.p <= MOVE_SCALE,
            Strategy::Detente(s) => -MOVE_LIMIT <= s.comfort && s.comfort <= MOVE_LIMIT && -MOVE_LIMIT
                <= s.trust && s.trust <= MOVE_LIMIT,
        }
    }
}

/// Why a catalog cannot be played.
#[derive(Clone, Copy, Debug, PartialEq, Eq, Structural)]
pub enum CatalogError {
    /// No strategies: no row averages can be formed.
    Empty,
    /// More than `MAX_WIDTH` strategies.
    TooLarge,
    /// The strategy at this index has its state out of range.
    BadStrategy(usize),
}

/// Every strategy of a catalog has its state in range.
pub open spec fn catalog_ok(catalog: Seq<(String, Strategy)>) -> bool {
    forall|k: int| 0 <= k < catalog.len() ==> (#[trigger] catalog[k]).1.wf()
}

/// A record names the two given entries and holds a match between fresh copies of
/// their strategies, played with the given draws.
pub open spec fn is_matchup_with(
    r: MatchupResult,
    first: (String, Strategy),
    second: (String, Strategy),
    da: Seq<Vec<i64>>,
    db: Seq<Vec<i64>>,
) -> bool {
    &&& r.first_name@ == first.0@
    &&& r.second_name@ == second.0@
    &&& play_spec(first.1, second.1, NUM_ROUNDS as nat, da, db).2 == r.history@
    &&& r.overall_result == result_of(r.history@)
    &&& r.history@.len() == NUM_ROUNDS
}

/// Plays entry `i` of the catalog against entry `j`, each from a fresh copy, with
/// the draws handed in. The catalog itself is left as it is.
pub fn play_matchup(
    catalog: &Vec<(String, Strategy)>,
    i: usize,
    j: usize,
    draws_first: &Vec<Vec<i64>>,
    draws_second: &Vec<Vec<i64>>,
) -> (r: MatchupResult)
    requires
        catalog_ok(catalog@),
        i < catalog@.len(),
        j < catalog@.len(),
        draws_fit(catalog@[i as int].1, draws_first@, NUM_ROUNDS as int),
        draws_fit(catalog@[j as int].1, draws_second@, NUM_ROUNDS as int),
    ensures
        is_matchup_with(r, catalog@[i as int], catalog@[j as int], draws_first@, draws_second@),
{
    let mut first_strategy = catalog[i].1;
    let mut second_strategy = catalog[j].1;
    assert(catalog@[i as int].1.wf() && catalog@[j as int].1.wf());
    let (overall_result, history) = play_strategies_with(
        &mut first_strategy,
        &mut second_strategy,
        NUM_ROUNDS,
        draws_first,
        draws_second,
    );
    MatchupResult {
        first_name: catalog[i].0.clone(),
        second_name: catalog[j].0.clone(),
        overall_result,
        history,
    }
}

/// A record is an outcome of playing fresh copies of the two entries.
pub open spec fn is_matchup(
    r: MatchupResult,
    first: (String, Strategy),
    second: (String, Strategy),
) -> bool {
    exists|da: Seq<Vec<i64>>, db: Seq<Vec<i64>>|
        draws_fit(first.1, da, NUM_ROUNDS as int) && draws_fit(second.1, db, NUM_ROUNDS as int)
            && #[trigger] is_matchup_with(r, first, second, da, db)
}

/// Plays every ordered pair of the catalog, self-play included, with fresh draws,
/// and lists the records in row-major order: entry `i * n + j` holds entry `i`
/// against entry `j`.
///
/// No match can fail: a match is proved free of panics, so the list always holds
/// all `n * n` records, and none is dropped or marked.
pub fn run_competition(catalog: &Vec<(String, Strategy)>) -> (r: Vec<MatchupResult>)
    requires
        catalog_ok(catalog@),
        catalog@.len() * catalog@.len() <= usize::MAX,
    ensures
        r@.len() == catalog@.len() * catalog@.len(),
        forall|i: int, j: int|
            0 <= i < catalog@.len() && 0 <= j < catalog@.len() ==> is_matchup(
                #[trigger] r@[i * catalog@.len() + j],
                catalog@[i],
                catalog@[j],
            ),
{
    let n = catalog.len();
    let mut results: Vec<MatchupResult> = Vec::new();
    let mut i: usize = 0;
    while i < n
        invariant
            n == catalog@.len(),
            n * n <= usize::MAX,
            catalog_ok(catalog@),
            i <= n,
            results@.len() == i * n,
            forall|a: int, b: int|
                0 <= a < i && 0 <= b < n ==> is_matchup(
                    #[trigger] results@[a * n + b],
                    catalog@[a],
                    catalog@[b],
                ),
        decreases n - i,
    {
        let mut j: usize = 0;
        while j < n
            invariant
                n == catalog@.len(),
                n * n <= usize::MAX,
                catalog_ok(catalog@),
                i < n,
                j <= n,
                results@.len() == i * n + j,
                forall|a: int, b: int|
                    0 <= a < i && 0 <= b < n ==> is_matchup(
                        #[trigger] results@[a * n + b],
                        catalog@[a],
                        catalog@[b],
                    ),
                forall|b: int|
                    0 <= b < j ==> is_matchup(
                        #[trigger] results@[i * n + b],
                        catalog@[i as int],
                        catalog@[b],
                    ),
            decreases n - j,
        {
            let draws_first = draw_table(&catalog[i].1, NUM_ROUNDS);
            let draws_second = draw_table(&catalog[j].1, NUM_ROUNDS);
            let m = play_matchup(catalog, i, j, &draws_first, &draws_second);
            assert(is_matchup_with(m, catalog@[i as int], catalog@[j as int], draws_first@, draws_second@));
            let ghost before = results@;
            proof {
                assert((i * n + j) + 1 <= n * n) by (nonlinear_arith)
                    requires
                        i < n,
                        j < n,
                ;
            }
            results.push(m);
            proof {
                assert forall|a: int, b: int|
                    0 <= a < i && 0 <= b < n implies is_matchup(
                        #[trigger] results@[a * n + b],
                        catalog@[a],
                        catalog@[b],
                    ) by {
                    assert(a * n + b < i * n) by (nonlinear_arith)
                        requires
                            a < i,
                            b < n,
                            0 <= b,
                    ;
                    assert(results@[a * n + b] == before[a * n + b]);
                }
            }
            j += 1;
        }
        proof {
            assert((i + 1) * n == i * n + n) by (nonlinear_arith);
        }
        i += 1;
    }
    results
}

/// Copies of one catalog strategy in different matchups do not affect each other:
/// a record is fixed by its two catalog entries and its own draws, so two records
/// of the same pairing and draws agree, whatever the state that any other copy of
/// either strategy reached in another matchup.
pub proof fn lemma_matchups_independent(
    r1: MatchupResult,
    r2: MatchupResult,
    first: (String, Strategy),
    second: (String, Strategy),
    da: Seq<Vec<i64>>,
    db: Seq<Vec<i64>>,
)
    requires
        is_matchup_with(r1, first, second, da, db),
        is_matchup_with(r2, first, second, da, db),
    ensures
        r1.history@ == r2.history@,
        r1.overall_result == r2.overall_result,
{
}

/// Checks that a catalog can be played and summarised: it is not empty, holds at
/// most `MAX_WIDTH` strategies, and each has its state in range; the first strategy
/// out of range is named.
pub fn check_catalog(catalog: &Vec<(String, Strategy)>) -> (r: Result<(), CatalogError>)
    ensures
        match r {
            Ok(()) => 1 <= catalog@.len() <= MAX_WIDTH && catalog_ok(catalog@),
            Err(e) => check_catalog_result(catalog@, e),
        },
{
    let n = catalog.len();
    if n == 0 {
        return Err(CatalogError::Empty);
    }
    if n > MAX_WIDTH {
        return Err(CatalogError::TooLarge);
    }
    let mut i: usize = 0;
    while i < n
        invariant
            n == catalog@.len(),
            1 <= n <= MAX_WIDTH,
            i <= n,
            forall|k: int| 0 <= k < i ==> (#[trigger] catalog@[k]).1.wf(),
        decreases n - i,
    {
        if !catalog[i].1.is_well_formed() {
            return Err(CatalogError::BadStrategy(i));
        }
        i += 1;
    }
    Ok(())
}

/// Plays a whole tournament after checking the catalog with `check_catalog`; on
/// success the records are those of `run_competition`.
pub fn run_tournament(catalog: &Vec<(String, Strategy)>) -> (r: Result<Vec<MatchupResult>, CatalogError>)
    ensures
        match r {
            Err(e) => check_catalog_result(catalog@, e),
            Ok(results) => {
                &&& 1 <= catalog@.len() <= MAX_WIDTH
                &&& catalog_ok(catalog@)
                &&& results@.len() == catalog@.len() * catalog@.len()
                &&& forall|i: int, j: int|
                    0 <= i < catalog@.len() && 0 <= j < catalog@.len() ==> is_matchup(
                        #[trigger] results@[i * catalog@.len() + j],
                        catalog@[i],
                        catalog@[j],
                    )
            },
        },
{
    match check_catalog(catalog) {
        Err(e) => Err(e),
        Ok(()) => {
            let n = catalog.len();
            assert(n * n <= MAX_WIDTH * MAX_WIDTH) by (nonlinear_arith)
                requires
                    n <= MAX_WIDTH,
            ;
            assert(MAX_WIDTH * MAX_WIDTH <= u32::MAX);
            Ok(run_competition(catalog))
        },
    }
}

/// The error `check_catalog` gives for a catalog.
pub open spec fn check_catalog_result(catalog: Seq<(String, Strategy)>, e: CatalogError) -> bool {
    match e {
        CatalogError::Empty => catalog.len() == 0,
        CatalogError::TooLarge => catalog.len() > MAX_WIDTH,
        CatalogError::BadStrategy(i) => 1 <= catalog.len() <= MAX_WIDTH && i < catalog.len()
            && !catalog[i as int].1.wf() && forall|k: int|
            0 <= k < i ==> (#[trigger] catalog[k]).1.wf(),
    }
}

} // verus!
