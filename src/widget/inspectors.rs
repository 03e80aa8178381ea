//! The inspector of one match: a grid two cells wide, a row per round.
use vstd::prelude::*;

use super::grid::{Grid, GridMessage};
use crate::game::NUM_ROUNDS;

verus! {

#[derive(Clone, Copy, Debug, PartialEq, Eq, Structural)]
pub enum MatchInspectorMessage {
    GridMessage(GridMessage),
}

/// Holds the grid of a match's moves: both players' moves of a round side by side.
#[derive(Clone, Debug)]
pub struct MatchInspector {
    pub grid: Grid,
}

impl Default for MatchInspector {
    fn default() -> (r: Self)
        ensures
            r.grid.num_cols == 2,
            r.grid.num_rows == NUM_ROUNDS,
            !r.grid.mark_diagonals,
            r.grid.wf(),
            forall|i: int| 0 <= i < r.grid.cells@.len() ==> !(#[trigger] r.grid.cells@[i]).is_selected,
    {
        Self { grid: Grid::new(2, NUM_ROUNDS, false) }
    }
}

impl MatchInspector {
    /// Hands a grid message on to the grid.
    pub fn update(&mut self, message: MatchInspectorMessage)
        requires
            match message {
                MatchInspectorMessage::GridMessage(m) => old(self).grid.index_of(
                    m.position().0 as int,
                    m.position().1 as int,
                ) < old(self).grid.cells@.len(),
            },
        ensures
            final(self).grid.num_cols == old(self).grid.num_cols,
            final(self).grid.num_rows == old(self).grid.num_rows,
            final(self).grid.mark_diagonals == old(self).grid.mark_diagonals,
            match message {
                MatchInspectorMessage::GridMessage(m) => final(self).grid.cells@ == old(
                    self,
                ).grid.cells_after(m),
            },
    {
        match message {
            MatchInspectorMessage::GridMessage(m) => self.grid.update(m),
        }
    }
}

} // verus!
