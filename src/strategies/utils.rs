//! Small helpers shared by the strategies.
use vstd::prelude::*;

use crate::game::{hold, move_ok, GameMove, COOPERATE, DEFECT, MOVE_SCALE};

verus! {

/// A move counts as cooperation against a threshold draw when it does not
/// exceed it: with the draw uniform on `[0, MOVE_SCALE)`, a move `m` in
/// `[COOPERATE, DEFECT]` reads as defection with probability `m / MOVE_SCALE`.
pub open spec fn cooperates(m: i64, threshold: i64) -> bool {
    m <= threshold
}

/// Cooperation or defection, whichever the move reads as against the draw.
pub open spec fn nearest(m: i64, threshold: i64) -> i64 {
    if cooperates(m, threshold) {
        COOPERATE
    } else {
        DEFECT
    }
}

/// A draw lies in `[0, MOVE_SCALE)`.
pub open spec fn draw_ok(d: i64) -> bool {
    0 <= d < MOVE_SCALE
}

/// Every draw of a sequence lies in `[0, MOVE_SCALE)`.
pub open spec fn draws_ok(d: Seq<i64>) -> bool {
    forall|k: int| 0 <= k < d.len() ==> draw_ok(#[trigger] d[k])
}

pub fn to_opponent_move(m: &GameMove) -> (r: i64)
    ensures
        r == m.1,
{
    m.1
}

pub fn to_my_move(m: &GameMove) -> (r: i64)
    ensures
        r == m.0,
{
    m.0
}

pub fn is_cooperation(m: i64, threshold: i64) -> (r: bool)
    ensures
        r == cooperates(m, threshold),
{
    m <= threshold
}

pub fn is_defection(m: i64, threshold: i64) -> (r: bool)
    ensures
        r == !cooperates(m, threshold),
{
    !is_cooperation(m, threshold)
}

pub fn to_nearest_move(m: i64, threshold: i64) -> (r: i64)
    ensures
        r == nearest(m, threshold),
{
    if is_cooperation(m, threshold) {
        COOPERATE
    } else {
        DEFECT
    }
}

/// The mirror image of a move about the middle of `[COOPERATE, DEFECT]`.
pub fn to_opposite(m: i64) -> (r: i64)
    requires
        move_ok(m),
    ensures
        r == MOVE_SCALE - m,
{
    MOVE_SCALE - m
}

} // verus!
