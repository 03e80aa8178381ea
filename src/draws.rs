//! Random draws for the strategies' decisions, taken from the thread's generator.
use rand::Rng;
use vstd::prelude::*;

use crate::game::{draws_fit, Strategy, MOVE_SCALE};
use crate::strategies::utils::{draw_ok, draws_ok};

verus! {

/// Relies on `rand::Rng::gen_range` over `rand::thread_rng()`: a value of
/// `[0, bound)`; the call panics only on an empty range.
#[verifier::external_body]
fn random_below(bound: i64) -> (r: i64)
    requires
        bound > 0,
    ensures
        0 <= r < bound,
{
    rand::thread_rng().gen_range(0..bound)
}

/// `count` fresh draws, each uniform on `[0, MOVE_SCALE)`.
pub fn random_draws(count: usize) -> (r: Vec<i64>)
    ensures
        r@.len() == count,
        draws_ok(r@),
{
    let mut r: Vec<i64> = Vec::with_capacity(count);
    let mut i: usize = 0;
    while i < count
        invariant
            i <= count,
            r@.len() == i,
            draws_ok(r@),
        decreases count - i,
    {
        let d = random_below(MOVE_SCALE);
        r.push(d);
        i += 1;
        assert(draw_ok(r@[i - 1]));
    }
    r
}

/// Fresh draws for every move of a strategy over `rounds` rounds.
pub fn draw_table(strategy: &Strategy, rounds: usize) -> (r: Vec<Vec<i64>>)
    ensures
        draws_fit(*strategy, r@, rounds as int),
{
    let mut r: Vec<Vec<i64>> = Vec::with_capacity(rounds);
    let mut k: usize = 0;
    while k < rounds
        invariant
            k <= rounds,
            draws_fit(*strategy, r@, k as int),
        decreases rounds - k,
    {
        let row = random_draws(strategy.draws_needed(k));
        r.push(row);
        k += 1;
        assert(r@[k - 1]@.len() >= strategy.needed(k - 1));
    }
    r
}

} // verus!
