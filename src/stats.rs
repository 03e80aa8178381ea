//! Statistics over a tournament's records: a value per matchup, an average per
//! row, and deviations from a standard scaled into `[-1, 1]`.
//!
//! Averages and deviations are exact fractions; no division is ever performed.
use vstd::prelude::*;

use crate::game::{GameResult, MatchupResult};

verus! {

/// The most strategies a statistic can span.
pub const MAX_WIDTH: usize = 65535;

/// Bound on the magnitude of a statistic's value.
pub const VALUE_LIMIT: i128 = 36893488147419103232;

/// Bound on the magnitude of the numbers that `normalize` takes.
pub const SCALED_LIMIT: i128 = 1298074214633706907132624082305024;

/// The rational number `num / den`.
#[derive(Clone, Copy, Debug, PartialEq, Eq, Structural)]
pub struct Fraction {
    pub num: i128,
    pub den: i128,
}

/// Which number of a record a statistic reads.
#[derive(Clone, Copy, Debug, PartialEq, Eq, Structural)]
pub enum Projection {
    /// The first player's points less the second player's.
    PointDifference,
    /// The first player's points.
    Points,
}

impl Projection {
    pub open spec fn of(self, r: GameResult) -> int {
        match self {
            Projection::PointDifference => r.0 - r.1,
            Projection::Points => r.0 as int,
        }
    }

    pub fn score(&self, m: &MatchupResult) -> (r: i128)
        ensures
            r == self.of(m.overall_result),
            -VALUE_LIMIT <= r <= VALUE_LIMIT,
    {
        match self {
            Projection::PointDifference => m.overall_result.0 as i128 - m.overall_result.1 as i128,
            Projection::Points => m.overall_result.0 as i128,
        }
    }
}

/// The sum of a sequence.
pub open spec fn sum(s: Seq<i128>) -> int
    decreases s.len(),
{
    if s.len() == 0 {
        0
    } else {
        sum(s.drop_last()) + s.last()
    }
}

/// Row `i` of a row-major grid `n` wide.
pub open spec fn row(s: Seq<i128>, i: int, n: int) -> Seq<i128> {
    s.subrange(i * n, i * n + n)
}

/// A statistic: one value per matchup, row-major, and the average of each row.
#[derive(Clone, Debug)]
pub struct Stat {
    pub values: Vec<i128>,
    pub strategy_averages: Vec<Fraction>,
}

impl Stat {
    /// The averages are those of the rows of `values`, a grid `n` by `n`.
    pub open spec fn wf(&self, n: int) -> bool {
        &&& 1 <= n <= MAX_WIDTH
        &&& self.values@.len() == n * n
        &&& forall|k: int|
            0 <= k < self.values@.len() ==> -VALUE_LIMIT <= #[trigger] self.values@[k] <= VALUE_LIMIT
        &&& self.strategy_averages@.len() == n
        &&& forall|i: int|
            0 <= i < n ==> #[trigger] self.strategy_averages@[i] == (Fraction {
                num: sum(row(self.values@, i, n)) as i128,
                den: n as i128,
            })
    }
}

proof fn lemma_sum_bound(s: Seq<i128>, b: int)
    requires
        b >= 0,
        forall|k: int| 0 <= k < s.len() ==> -b <= #[trigger] s[k] <= b,
    ensures
        -b * s.len() <= sum(s) <= b * s.len(),
    decreases s.len(),
{
    if s.len() > 0 {
        assert(-b <= s[s.len() - 1] <= b);
        lemma_sum_bound(s.drop_last(), b);
        assert(b * s.len() == b * (s.len() - 1) + b) by (nonlinear_arith);
        assert(-b * s.len() == -b * (s.len() - 1) - b) by (nonlinear_arith);
    }
}

/// The sum of `s[lo..hi]`.
fn sum_range(s: &Vec<i128>, lo: usize, hi: usize) -> (r: i128)
    requires
        lo <= hi <= s@.len(),
        hi - lo <= MAX_WIDTH * MAX_WIDTH,
        forall|k: int| 0 <= k < s@.len() ==> -VALUE_LIMIT <= #[trigger] s@[k] <= VALUE_LIMIT,
    ensures
        r == sum(s@.subrange(lo as int, hi as int)),
{
    let mut acc: i128 = 0;
    let mut k: usize = lo;
    while k < hi
        invariant
            lo <= k <= hi <= s@.len(),
            hi - lo <= MAX_WIDTH * MAX_WIDTH,
            forall|j: int| 0 <= j < s@.len() ==> -VALUE_LIMIT <= #[trigger] s@[j] <= VALUE_LIMIT,
            acc == sum(s@.subrange(lo as int, k as int)),
        decreases hi - k,
    {
        proof {
            let t = s@.subrange(lo as int, k as int);
            assert forall|j: int| 0 <= j < t.len() implies -VALUE_LIMIT <= #[trigger] t[j] <= VALUE_LIMIT by {
                assert(t[j] == s@[lo + j]);
            }
            lemma_sum_bound(t, VALUE_LIMIT as int);
            assert(VALUE_LIMIT * t.len() <= VALUE_LIMIT * (MAX_WIDTH * MAX_WIDTH)) by (nonlinear_arith)
                requires
                    t.len() <= MAX_WIDTH * MAX_WIDTH,
            ;
            assert(s@.subrange(lo as int, k + 1).drop_last() =~= t);
        }
        acc = acc + s[k];
        k += 1;
    }
    acc
}

/// Computes, for a list of `grid_width * grid_width` records, the value of each
/// under `by` and the average of each row of values.
pub fn calculate_stat(by: Projection, results: &Vec<MatchupResult>, grid_width: usize) -> (r: Stat)
    requires
        1 <= grid_width <= MAX_WIDTH,
        results@.len() == grid_width * grid_width,
    ensures
        r.wf(grid_width as int),
        forall|k: int| 0 <= k < results@.len() ==> #[trigger] r.values@[k] == by.of(results@[k].overall_result),
{
    let n = grid_width;
    proof {
        assert(n * n <= MAX_WIDTH * MAX_WIDTH) by (nonlinear_arith)
            requires
                n <= MAX_WIDTH,
        ;
    }
    let mut values: Vec<i128> = Vec::with_capacity(results.len());
    let mut k: usize = 0;
    while k < results.len()
        invariant
            k <= results@.len(),
            values@.len() == k,
            forall|j: int| 0 <= j < k ==> #[trigger] values@[j] == by.of(results@[j].overall_result),
            forall|j: int| 0 <= j < k ==> -VALUE_LIMIT <= #[trigger] values@[j] <= VALUE_LIMIT,
        decreases results@.len() - k,
    {
        let v = by.score(&results[k]);
        values.push(v);
        k += 1;
    }
    let mut strategy_averages: Vec<Fraction> = Vec::with_capacity(n);
    let cells = values.len();
    let mut i: usize = 0;
    while i < n
        invariant
            cells == values@.len(),
            1 <= n <= MAX_WIDTH,
            n * n <= MAX_WIDTH * MAX_WIDTH,
            i <= n,
            values@.len() == n * n,
            forall|j: int| 0 <= j < values@.len() ==> -VALUE_LIMIT <= #[trigger] values@[j] <= VALUE_LIMIT,
            strategy_averages@.len() == i,
            forall|a: int|
                0 <= a < i ==> #[trigger] strategy_averages@[a] == (Fraction {
                    num: sum(row(values@, a, n as int)) as i128,
                    den: n as i128,
                }),
        decreases n - i,
    {
        proof {
            assert(i * n + n <= n * n) by (nonlinear_arith)
                requires
                    i < n,
            ;
        }
        let total = sum_range(&values, i * n, i * n + n);
        strategy_averages.push(Fraction { num: total, den: n as i128 });
        i += 1;
    }
    Stat { values, strategy_averages }
}

pub open spec fn abs(x: int) -> int {
    if x < 0 {
        -x
    } else {
        x
    }
}

/// The largest distance of a value from the standard `c`; zero for no values.
pub open spec fn max_deviation(xs: Seq<i128>, c: int) -> int
    decreases xs.len(),
{
    if xs.len() == 0 {
        0
    } else {
        let m = max_deviation(xs.drop_last(), c);
        let d = abs(xs.last() - c);
        if d > m {
            d
        } else {
            m
        }
    }
}

/// Value `k`'s deviation from the standard `c`, as a share of the largest
/// deviation; zero for every value when all deviations are zero.
pub open spec fn normalized(xs: Seq<i128>, c: int, k: int) -> Fraction {
    let m = max_deviation(xs, c);
    if m == 0 {
        Fraction { num: 0, den: 1 }
    } else {
        Fraction { num: (xs[k] - c) as i128, den: m as i128 }
    }
}

/// No value lies further from the standard than the largest deviation.
pub proof fn lemma_max_deviation(xs: Seq<i128>, c: int)
    ensures
        max_deviation(xs, c) >= 0,
        forall|k: int| 0 <= k < xs.len() ==> abs(#[trigger] xs[k] - c) <= max_deviation(xs, c),
    decreases xs.len(),
{
    if xs.len() > 0 {
        lemma_max_deviation(xs.drop_last(), c);
        assert forall|k: int| 0 <= k < xs.len() implies abs(#[trigger] xs[k] - c) <= max_deviation(xs, c) by {
            if k < xs.len() - 1 {
                assert(xs[k] == xs.drop_last()[k]);
            }
        }
    }
}

/// The deviation of each value from `standard`, divided by the largest deviation:
/// each in `[-1, 1]`, and every one zero when no value deviates.
pub fn normalize(standard: i128, values: &Vec<i128>) -> (r: Vec<Fraction>)
    requires
        -SCALED_LIMIT <= standard <= SCALED_LIMIT,
        forall|k: int| 0 <= k < values@.len() ==> -SCALED_LIMIT <= #[trigger] values@[k] <= SCALED_LIMIT,
    ensures
        r@.len() == values@.len(),
        forall|k: int| 0 <= k < values@.len() ==> #[trigger] r@[k] == normalized(values@, standard as int, k),
        forall|k: int| 0 <= k < values@.len() ==> 0 < (#[trigger] r@[k]).den && -r@[k].den <= r@[k].num <= r@[k].den,
{
    let mut max_deviance: i128 = 0;
    let mut k: usize = 0;
    while k < values.len()
        invariant
            k <= values@.len(),
            -SCALED_LIMIT <= standard <= SCALED_LIMIT,
            forall|j: int| 0 <= j < values@.len() ==> -SCALED_LIMIT <= #[trigger] values@[j] <= SCALED_LIMIT,
            max_deviance == max_deviation(values@.subrange(0, k as int), standard as int),
            0 <= max_deviance <= 2 * SCALED_LIMIT,
        decreases values@.len() - k,
    {
        assert(values@.subrange(0, k + 1).drop_last() =~= values@.subrange(0, k as int));
        let d = values[k] - standard;
        let d = if d < 0 {
            -d
        } else {
            d
        };
        if d > max_deviance {
            max_deviance = d;
        }
        k += 1;
    }
    assert(values@.subrange(0, values@.len() as int) =~= values@);
    proof {
        lemma_max_deviation(values@, standard as int);
    }
    let mut r: Vec<Fraction> = Vec::with_capacity(values.len());
    let mut k: usize = 0;
    while k < values.len()
        invariant
            k <= values@.len(),
            -SCALED_LIMIT <= standard <= SCALED_LIMIT,
            forall|j: int| 0 <= j < values@.len() ==> -SCALED_LIMIT <= #[trigger] values@[j] <= SCALED_LIMIT,
            max_deviance == max_deviation(values@, standard as int),
            forall|j: int| 0 <= j < values@.len() ==> abs(#[trigger] values@[j] - standard) <= max_deviance,
            0 <= max_deviance <= 2 * SCALED_LIMIT,
            r@.len() == k,
            forall|j: int| 0 <= j < k ==> #[trigger] r@[j] == normalized(values@, standard as int, j),
            forall|j: int| 0 <= j < k ==> 0 < (#[trigger] r@[j]).den && -r@[j].den <= r@[j].num <= r@[j].den,
        decreases values@.len() - k,
    {
        let f = if max_deviance == 0 {
            Fraction { num: 0, den: 1 }
        } else {
            Fraction { num: values[k] - standard, den: max_deviance }
        };
        r.push(f);
        k += 1;
    }
    r
}

/// Every value of a grid `n` wide brought to the denominator `n * n`.
pub open spec fn scaled_cells(values: Seq<i128>, n: int) -> Seq<i128> {
    values.map_values(|v: i128| (v * n * n) as i128)
}

/// Every row average `total / n` brought to the denominator `n * n`.
pub open spec fn scaled_rows(averages: Seq<Fraction>, n: int) -> Seq<i128> {
    averages.map_values(|a: Fraction| (a.num * n) as i128)
}

/// The numerators of the row averages.
pub open spec fn row_totals(averages: Seq<Fraction>) -> Seq<i128> {
    averages.map_values(|a: Fraction| a.num)
}

/// Deviations of a statistic, per cell and per row, from the mean of the row
/// averages, each scaled into `[-1, 1]` by the largest deviation of its series.
///
/// The standard is `sum(row_totals) / (n * n)`; every number is brought to the
/// denominator `n * n` first, which leaves each share unchanged.
pub fn calculate_deviations(stat: &Stat, grid_width: usize) -> (r: (Vec<Fraction>, Vec<Fraction>))
    requires
        stat.wf(grid_width as int),
    ensures
        r.0@.len() == grid_width * grid_width,
        r.1@.len() == grid_width,
        forall|k: int| 0 <= k < r.0@.len() ==> #[trigger] r.0@[k] == normalized(
            scaled_cells(stat.values@, grid_width as int),
            sum(row_totals(stat.strategy_averages@)),
            k,
        ),
        forall|i: int| 0 <= i < r.1@.len() ==> #[trigger] r.1@[i] == normalized(
            scaled_rows(stat.strategy_averages@, grid_width as int),
            sum(row_totals(stat.strategy_averages@)),
            i,
        ),
        forall|k: int| 0 <= k < r.0@.len() ==> 0 < (#[trigger] r.0@[k]).den && -r.0@[k].den <= r.0@[k].num <= r.0@[k].den,
        forall|i: int| 0 <= i < r.1@.len() ==> 0 < (#[trigger] r.1@[i]).den && -r.1@[i].den <= r.1@[i].num <= r.1@[i].den,
{
    let n = grid_width;
    let ghost values = stat.values@;
    let ghost averages = stat.strategy_averages@;
    proof {
        assert(n * n <= MAX_WIDTH * MAX_WIDTH) by (nonlinear_arith)
            requires
                n <= MAX_WIDTH,
        ;
    }
    let cells = stat.values.len();
    // the row totals, each a sum of n values
    let mut totals: Vec<i128> = Vec::with_capacity(n);
    let mut i: usize = 0;
    while i < n
        invariant
            stat.wf(n as int),
            values == stat.values@,
            averages == stat.strategy_averages@,
            cells == values.len(),
            i <= n,
            totals@ == row_totals(averages).subrange(0, i as int),
            forall|a: int| 0 <= a < i ==> -VALUE_LIMIT * MAX_WIDTH <= #[trigger] totals@[a] <= VALUE_LIMIT * MAX_WIDTH,
        decreases n - i,
    {
        proof {
            let t = row(values, i as int, n as int);
            assert(i * n + n <= n * n) by (nonlinear_arith)
                requires
                    i < n,
            ;
            assert forall|j: int| 0 <= j < t.len() implies -VALUE_LIMIT <= #[trigger] t[j] <= VALUE_LIMIT by {
                assert(t[j] == values[i * n + j]);
            }
            lemma_sum_bound(t, VALUE_LIMIT as int);
            assert(VALUE_LIMIT * t.len() <= VALUE_LIMIT * MAX_WIDTH) by (nonlinear_arith)
                requires
                    t.len() <= MAX_WIDTH,
            ;
            assert(averages[i as int].num == sum(t));
        }
        totals.push(stat.strategy_averages[i].num);
        i += 1;
        assert(totals@ =~= row_totals(averages).subrange(0, i as int));
    }
    assert(totals@ =~= row_totals(averages));
    let ghost bound = VALUE_LIMIT * MAX_WIDTH;
    assert(forall|j: int| 0 <= j < totals@.len() ==> -bound <= #[trigger] totals@[j] <= bound);
    proof {
        lemma_sum_bound(totals@, bound);
        assert(bound * totals@.len() <= bound * MAX_WIDTH) by (nonlinear_arith)
            requires
                totals@.len() <= MAX_WIDTH,
                bound >= 0,
        ;
    }
    let mut standard: i128 = 0;
    let mut k: usize = 0;
    while k < n
        invariant
            totals@.len() == n,
            n <= MAX_WIDTH,
            k <= n,
            bound == VALUE_LIMIT * MAX_WIDTH,
            forall|j: int| 0 <= j < totals@.len() ==> -bound <= #[trigger] totals@[j] <= bound,
            standard == sum(totals@.subrange(0, k as int)),
        decreases n - k,
    {
        proof {
            let t = totals@.subrange(0, k as int);
            assert forall|j: int| 0 <= j < t.len() implies -bound <= #[trigger] t[j] <= bound by {
                assert(t[j] == totals@[j]);
            }
            lemma_sum_bound(t, bound);
            assert(bound * t.len() <= bound * MAX_WIDTH) by (nonlinear_arith)
                requires
                    t.len() <= MAX_WIDTH,
                    bound >= 0,
            ;
            assert(totals@.subrange(0, k + 1).drop_last() =~= t);
            assert((-bound) * t.len() == -(bound * t.len())) by (nonlinear_arith);
            assert((-bound) * MAX_WIDTH == -(bound * MAX_WIDTH)) by (nonlinear_arith);
            assert(-bound * MAX_WIDTH <= standard <= bound * MAX_WIDTH);
            assert(-bound <= totals@[k as int] <= bound);
        }
        standard = standard + totals[k];
        k += 1;
    }
    assert(totals@.subrange(0, n as int) =~= totals@);
    let square = (n * n) as i128;
    let mut cell_values: Vec<i128> = Vec::with_capacity(cells);
    let mut k: usize = 0;
    while k < cells
        invariant
            stat.wf(n as int),
            values == stat.values@,
            averages == stat.strategy_averages@,
            cells == values.len(),
            square == n * n,
            n * n <= MAX_WIDTH * MAX_WIDTH,
            k <= cells,
            cell_values@ == scaled_cells(values, n as int).subrange(0, k as int),
            forall|j: int| 0 <= j < k ==> -SCALED_LIMIT <= #[trigger] cell_values@[j] <= SCALED_LIMIT,
        decreases cells - k,
    {
        let v = stat.values[k];
        proof {
            assert(-VALUE_LIMIT <= values[k as int] <= VALUE_LIMIT);
            assert(-SCALED_LIMIT <= v * square <= SCALED_LIMIT) by (nonlinear_arith)
                requires
                    -VALUE_LIMIT <= v <= VALUE_LIMIT,
                    0 <= square <= MAX_WIDTH * MAX_WIDTH,
            ;
            assert(v * square == v * n * n) by (nonlinear_arith)
                requires
                    square == n * n,
            ;
        }
        cell_values.push(v * square);
        k += 1;
        assert(cell_values@ =~= scaled_cells(values, n as int).subrange(0, k as int));
    }
    assert(cell_values@ =~= scaled_cells(values, n as int));
    let mut row_values: Vec<i128> = Vec::with_capacity(n);
    let mut k: usize = 0;
    while k < n
        invariant
            stat.wf(n as int),
            values == stat.values@,
            averages == stat.strategy_averages@,
            totals@ == row_totals(averages),
            bound == VALUE_LIMIT * MAX_WIDTH,
            forall|j: int| 0 <= j < totals@.len() ==> -bound <= #[trigger] totals@[j] <= bound,
            k <= n,
            row_values@ == scaled_rows(averages, n as int).subrange(0, k as int),
            forall|j: int| 0 <= j < k ==> -SCALED_LIMIT <= #[trigger] row_values@[j] <= SCALED_LIMIT,
        decreases n - k,
    {
        let t = totals[k];
        proof {
            assert(-SCALED_LIMIT <= t * (n as int) <= SCALED_LIMIT) by (nonlinear_arith)
                requires
                    -bound <= t <= bound,
                    bound == VALUE_LIMIT * MAX_WIDTH,
                    0 <= n <= MAX_WIDTH,
            ;
        }
        row_values.push(t * (n as i128));
        k += 1;
        assert(row_values@ =~= scaled_rows(averages, n as int).subrange(0, k as int));
    }
    assert(row_values@ =~= scaled_rows(averages, n as int));
    (normalize(standard, &cell_values), normalize(standard, &row_values))
}

proof fn lemma_sum_constant(s: Seq<i128>, v: int)
    requires
        forall|k: int| 0 <= k < s.len() ==> #[trigger] s[k] == v,
    ensures
        sum(s) == s.len() * v,
    decreases s.len(),
{
    if s.len() > 0 {
        lemma_sum_constant(s.drop_last(), v);
        assert(s.len() * v == (s.len() - 1) * v + v) by (nonlinear_arith);
    }
}

/// When every value equals the standard, the largest deviation is zero.
pub proof fn lemma_no_deviation(xs: Seq<i128>, c: int)
    requires
        forall|k: int| 0 <= k < xs.len() ==> #[trigger] xs[k] == c,
    ensures
        max_deviation(xs, c) == 0,
        forall|k: int| 0 <= k < xs.len() ==> #[trigger] normalized(xs, c, k) == (Fraction { num: 0, den: 1 }),
    decreases xs.len(),
{
    if xs.len() > 0 {
        lemma_no_deviation(xs.drop_last(), c);
    }
}

/// A statistic whose values are all the same has no deviation: every share, per
/// cell and per row, is zero.
pub proof fn lemma_constant_stat(stat: Stat, n: int, v: i128)
    requires
        stat.wf(n),
        forall|k: int| 0 <= k < n * n ==> #[trigger] stat.values@[k] == v,
    ensures
        forall|k: int| 0 <= k < n * n ==> #[trigger] normalized(
            scaled_cells(stat.values@, n),
            sum(row_totals(stat.strategy_averages@)),
            k,
        ) == (Fraction { num: 0, den: 1 }),
        forall|i: int| 0 <= i < n ==> #[trigger] normalized(
            scaled_rows(stat.strategy_averages@, n),
            sum(row_totals(stat.strategy_averages@)),
            i,
        ) == (Fraction { num: 0, den: 1 }),
{
    let values = stat.values@;
    let averages = stat.strategy_averages@;
    assert(0 < n * n) by (nonlinear_arith)
        requires
            1 <= n,
    ;
    assert(values[0] == v);
    assert(-VALUE_LIMIT <= v <= VALUE_LIMIT);
    assert(-VALUE_LIMIT * MAX_WIDTH <= n * v <= VALUE_LIMIT * MAX_WIDTH) by (nonlinear_arith)
        requires
            -VALUE_LIMIT <= v <= VALUE_LIMIT,
            1 <= n <= MAX_WIDTH,
    ;
    assert forall|i: int| 0 <= i < n implies #[trigger] averages[i].num == n * v by {
        let t = row(values, i, n);
        assert(i * n + n <= n * n) by (nonlinear_arith)
            requires
                0 <= i < n,
        ;
        assert(0 <= i * n) by (nonlinear_arith)
            requires
                0 <= i,
                0 <= n,
        ;
        assert forall|j: int| 0 <= j < t.len() implies #[trigger] t[j] == v by {
            assert(t[j] == values[i * n + j]);
        }
        lemma_sum_constant(t, v as int);
        assert(sum(t) == n * v);
        assert(averages[i] == (Fraction { num: sum(row(values, i, n)) as i128, den: n as i128 }));
    }
    let totals = row_totals(averages);
    assert forall|i: int| 0 <= i < totals.len() implies #[trigger] totals[i] == n * v by {
        assert(averages[i].num == n * v);
    }
    lemma_sum_constant(totals, n * v);
    let c = sum(totals);
    assert(c == n * (n * v));
    let cells = scaled_cells(values, n);
    assert forall|k: int| 0 <= k < cells.len() implies #[trigger] cells[k] == c by {
        assert(values[k] == v);
        assert(v * n * n == n * (n * v)) by (nonlinear_arith);
        assert(-VALUE_LIMIT <= v <= VALUE_LIMIT);
        assert(-SCALED_LIMIT <= v * n * n <= SCALED_LIMIT) by (nonlinear_arith)
            requires
                -VALUE_LIMIT <= v <= VALUE_LIMIT,
                1 <= n <= MAX_WIDTH,
        ;
    }
    lemma_no_deviation(cells, c);
    let rows = scaled_rows(averages, n);
    assert forall|i: int| 0 <= i < rows.len() implies #[trigger] rows[i] == c by {
        assert(averages[i].num == n * v);
        assert((n * v) * n == n * (n * v)) by (nonlinear_arith);
        assert(-SCALED_LIMIT <= (n * v) * n <= SCALED_LIMIT) by (nonlinear_arith)
            requires
                -VALUE_LIMIT <= v <= VALUE_LIMIT,
                1 <= n <= MAX_WIDTH,
        ;
    }
    lemma_no_deviation(rows, c);
}

} // verus!
