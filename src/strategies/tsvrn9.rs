//! Detente: a strategy that grows comfortable with a cooperative opponent.
use vstd::prelude::*;

use crate::game::{catalog_ok, entry, hold, hold_move, move_ok, GameMove, Strategy, DEFECT, MOVE_SCALE};

verus! {

/// Keeps track of its comfort with the opponent. Comfort is how far below the
/// opponent's last move Detente answers, so more comfort means more cooperation;
/// each cooperative round adds `trust` to it. A move of the opponent counts as
/// cooperative when it is below `max(1 - comfort / 2, 0.1)`; any other move
/// resets comfort to zero and is answered with defection.
#[derive(Clone, Copy, Debug, PartialEq, Eq, Structural)]
pub struct Detente {
    pub comfort: i64,
    pub trust: i64,
}

/// Whether the opponent's move counts as cooperative at the given comfort,
/// `previous < max(1 - comfort / 2, 0.1)`, doubled to stay in whole thousandths.
pub open spec fn is_cooperative(previous: int, comfort: int) -> bool {
    let bound = if 2 * MOVE_SCALE - comfort >= 200 {
        2 * MOVE_SCALE - comfort
    } else {
        200
    };
    2 * previous < bound
}

impl Detente {
    pub open spec fn wf(self) -> bool {
        move_ok(self.comfort) && move_ok(self.trust)
    }

    /// The state and the move after one round.
    pub open spec fn step(self, last: Option<GameMove>) -> (Detente, i64) {
        match last {
            None => (self, hold(MOVE_SCALE - self.comfort)),
            Some(m) => if is_cooperative(m.1 as int, self.comfort as int) {
                (
                    Detente { comfort: hold(self.comfort + self.trust), trust: self.trust },
                    hold(m.1 - self.comfort),
                )
            } else {
                (Detente { comfort: 0, trust: self.trust }, DEFECT)
            },
        }
    }

    pub fn init(initial_comfort: i64, trust: i64) -> (r: Detente)
        requires
            move_ok(initial_comfort),
            move_ok(trust),
        ensures
            r == (Detente { comfort: initial_comfort, trust }),
            r.wf(),
    {
        Detente { comfort: initial_comfort, trust }
    }

    pub fn next_move(&mut self, last_move: Option<GameMove>) -> (r: i64)
        requires
            old(self).wf(),
            last_move matches Some(m) ==> m.wf(),
        ensures
            (*final(self), r) == old(self).step(last_move),
            final(self).wf(),
            move_ok(r),
    {
        match last_move {
            None => hold_move(MOVE_SCALE as i128 - self.comfort as i128),
            Some(m) => {
                let previous = m.1;
                let doubled = 2 * MOVE_SCALE as i128 - self.comfort as i128;
                let bound = if doubled >= 200 {
                    doubled
                } else {
                    200
                };
                if 2 * (previous as i128) < bound {
                    let v = hold_move(previous as i128 - self.comfort as i128);
                    self.comfort = hold_move(self.comfort as i128 + self.trust as i128);
                    v
                } else {
                    self.comfort = 0;
                    DEFECT
                }
            },
        }
    }
}


/// The detente strategies, in order, with the names they are listed under.
pub fn all() -> (r: Vec<(String, Strategy)>)
    ensures
        r@.len() == 3,
        catalog_ok(r@),
        r@[0].0@ == "Detente"@,
        r@[0].1 == Strategy::Detente(Detente { comfort: 1000, trust: 100 }),
        r@[1].0@ == "Suspicious Detente"@,
        r@[1].1 == Strategy::Detente(Detente { comfort: 0, trust: 100 }),
        r@[2].0@ == "Trusting Detente"@,
        r@[2].1 == Strategy::Detente(Detente { comfort: 1000, trust: 500 }),
{
    let mut r: Vec<(String, Strategy)> = Vec::new();
    r.push(entry("Detente", Strategy::Detente(Detente::init(1000, 100))));
    r.push(entry("Suspicious Detente", Strategy::Detente(Detente::init(0, 100))));
    r.push(entry("Trusting Detente", Strategy::Detente(Detente::init(1000, 500))));
    r
}

} // verus!
