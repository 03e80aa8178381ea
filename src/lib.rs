//! Round-robin tournament of the iterated prisoner's dilemma with continuous moves.
//!
//! Moves and scores are exact integers counted in thousandths: a move lies in
//! `[COOPERATE, DEFECT] = [0, 1000]`, and one point of score is `MOVE_SCALE` units.
//! Every random decision of a strategy is made against a draw that the caller hands
//! in, so each strategy, match and tournament is a function of its inputs; the
//! draws themselves come from `draws`.
use vstd::prelude::*;

pub mod draws;
pub mod game;
pub mod outcomes;
pub mod stats;
pub mod strategies;
pub mod widget;


verus! {

} // verus!
