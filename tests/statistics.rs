use ipd_tournament::game::{GameResult, MatchupResult};
use ipd_tournament::stats::{calculate_deviations, calculate_stat, normalize, Fraction, Projection};

fn record(a: i64, b: i64) -> MatchupResult {
    MatchupResult {
        first_name: String::from("x"),
        second_name: String::from("y"),
        overall_result: GameResult(a, b),
        history: vec![],
    }
}

fn value(f: &Fraction) -> f64 {
    f.num as f64 / f.den as f64
}

#[test]
fn normalizing_zero_and_ten_about_five() {
    let r = normalize(5, &vec![0, 10]);
    assert_eq!(r, vec![Fraction { num: -5, den: 5 }, Fraction { num: 5, den: 5 }]);
    assert_eq!(value(&r[0]), -1.0);
    assert_eq!(value(&r[1]), 1.0);
}

#[test]
fn normalizing_a_constant_series_gives_zeros() {
    let r = normalize(5, &vec![5, 5, 5, 5]);
    assert!(r.iter().all(|f| f.num == 0 && f.den == 1));
}

#[test]
fn normalizing_nothing_gives_nothing() {
    assert!(normalize(0, &vec![]).is_empty());
}

#[test]
fn normalized_values_lie_between_minus_one_and_one() {
    let r = normalize(3, &vec![-7, 3, 4, 10, 13]);
    assert_eq!(r[0], Fraction { num: -10, den: 10 });
    assert_eq!(r[2], Fraction { num: 1, den: 10 });
    assert!(r.iter().all(|f| f.den > 0 && -f.den <= f.num && f.num <= f.den));
}

#[test]
fn stat_values_and_row_averages() {
    let results = vec![record(10, 4), record(6, 6), record(0, 9), record(3, 1)];
    let points = calculate_stat(Projection::Points, &results, 2);
    assert_eq!(points.values, vec![10, 6, 0, 3]);
    assert_eq!(points.strategy_averages, vec![Fraction { num: 16, den: 2 }, Fraction { num: 3, den: 2 }]);
    let difference = calculate_stat(Projection::PointDifference, &results, 2);
    assert_eq!(difference.values, vec![6, 0, -9, 2]);
    assert_eq!(difference.strategy_averages[1], Fraction { num: -7, den: 2 });
}

#[test]
fn deviations_from_the_mean_of_row_averages() {
    let results = vec![record(0, 0), record(10, 0), record(10, 0), record(20, 0)];
    let stat = calculate_stat(Projection::Points, &results, 2);
    let (cells, rows) = calculate_deviations(&stat, 2);
    // the standard is 10; the cells deviate by -10, 0, 0, 10
    let cells: Vec<f64> = cells.iter().map(value).collect();
    assert_eq!(cells, vec![-1.0, 0.0, 0.0, 1.0]);
    // the row averages 5 and 15 deviate by -5 and 5
    let rows: Vec<f64> = rows.iter().map(value).collect();
    assert_eq!(rows, vec![-1.0, 1.0]);
}

#[test]
fn constant_statistic_has_no_deviation() {
    let results = vec![record(5, 1); 9];
    let stat = calculate_stat(Projection::Points, &results, 3);
    let (cells, rows) = calculate_deviations(&stat, 3);
    assert_eq!(cells.len(), 9);
    assert_eq!(rows.len(), 3);
    assert!(cells.iter().chain(rows.iter()).all(|f| *f == Fraction { num: 0, den: 1 }));
}

#[test]
fn single_strategy_statistic() {
    let stat = calculate_stat(Projection::PointDifference, &vec![record(7, 2)], 1);
    assert_eq!(stat.values, vec![5]);
    let (cells, rows) = calculate_deviations(&stat, 1);
    assert_eq!(cells, vec![Fraction { num: 0, den: 1 }]);
    assert_eq!(rows, vec![Fraction { num: 0, den: 1 }]);
}
