//! The viewer's decisions: which phase it is in, which cell and statistic are
//! selected, and what the surrounding application is asked to do next. The data
//! itself (names, records, statistics) is held by that application; the viewer
//! knows how many strategies and statistics there are.
use vstd::prelude::*;

use super::grid::{Grid, GridMessage};
use super::inspectors::{MatchInspector, MatchInspectorMessage};
use super::labels::{LabelList, LabelListMessage};
use crate::stats::Fraction;

verus! {

/// The deviations of the selected statistic that the grid and the labels are
/// coloured by: one per cell and one per strategy.
#[derive(Clone, Debug)]
pub struct Colors {
    pub cell_colors: Vec<Fraction>,
    pub strategy_colors: Vec<Fraction>,
}

#[derive(Clone, Copy, Debug, PartialEq, Eq, Structural)]
pub enum StatFilter {
    HideRow(usize),
    HideColumn(usize),
}

/// Results are in, deviations not yet.
#[derive(Clone, Debug)]
pub struct RawState {
    pub num_strategies: usize,
    pub num_stats: usize,
    pub selected_stat: usize,
    pub filters: Vec<StatFilter>,
}

/// Results and deviations are in.
#[derive(Debug)]
pub struct State {
    pub num_strategies: usize,
    pub num_stats: usize,
    pub selected_stat: usize,
    pub filters: Vec<StatFilter>,
    pub colors: Colors,
    pub cell_size: u16,
    pub grid: Grid,
    pub label_list: LabelList,
    pub selected_cell: Option<(usize, usize)>,
    pub match_inspector: MatchInspector,
}

#[derive(Debug)]
pub enum ResultsInspector {
    Loading,
    Raw(RawState),
    Loaded(State),
}

#[derive(Clone, Debug)]
pub enum Message {
    /// The tournament has been played: how many strategies and statistics it gave.
    Raw(usize, usize),
    RecalculateColor,
    Loaded(Colors),
    GridMessage(GridMessage),
    LabelListMessage(LabelListMessage),
    MatchInspectorMessage(MatchInspectorMessage),
    CycleSelectedStat,
}

/// What the surrounding application does next.
#[derive(Clone, Copy, Debug, PartialEq, Eq, Structural)]
pub enum Task {
    Idle,
    /// Play the tournament and compute its statistics, then send `Message::Raw`.
    Load,
    /// Compute the deviations of the statistic at this position, then send
    /// `Message::Loaded`.
    CalculateColors(usize),
    /// Maximise the window.
    Maximize,
}

/// The cell size a loaded viewer starts with.
pub const CELL_SIZE: u16 = 30;

impl State {
    /// The grid is square, one row and column per strategy, and the selection
    /// lies within it.
    pub open spec fn wf(&self) -> bool {
        &&& self.grid.wf()
        &&& self.grid.num_cols == self.num_strategies
        &&& self.grid.num_rows == self.num_strategies
        &&& self.num_strategies <= 65535
        &&& self.selected_stat < self.num_stats
        &&& self.selected_cell matches Some((x, y)) ==> x < self.num_strategies && y < self.num_strategies
    }

    /// A grid position lies within the grid.
    pub open spec fn holds(&self, x: usize, y: usize) -> bool {
        x < self.num_strategies && y < self.num_strategies
    }
}

impl ResultsInspector {
    /// The phase's state is consistent.
    pub open spec fn wf(&self) -> bool {
        match self {
            ResultsInspector::Loading => true,
            ResultsInspector::Raw(r) => r.selected_stat < r.num_stats && r.num_strategies <= 65535,
            ResultsInspector::Loaded(s) => s.wf(),
        }
    }

    /// The messages the viewer can take in its present phase.
    pub open spec fn accepts(&self, message: Message) -> bool {
        match message {
            Message::Raw(strategies, stats) => self is Loading && stats >= 1 && strategies <= 65535,
            Message::RecalculateColor => !(self is Loading),
            Message::Loaded(_) => !(self is Loading),
            Message::GridMessage(m) => match self {
                ResultsInspector::Loaded(s) => s.holds(m.position().0, m.position().1),
                _ => false,
            },
            Message::MatchInspectorMessage(MatchInspectorMessage::GridMessage(m)) => match self {
                ResultsInspector::Loaded(s) => s.match_inspector.grid.index_of(
                    m.position().0 as int,
                    m.position().1 as int,
                ) < s.match_inspector.grid.cells@.len(),
                _ => false,
            },
            _ => self is Loaded,
        }
    }

    /// The selected statistic, in a phase that has one.
    pub open spec fn selected_stat(&self) -> usize {
        match self {
            ResultsInspector::Raw(r) => r.selected_stat,
            ResultsInspector::Loaded(s) => s.selected_stat,
            ResultsInspector::Loading => 0,
        }
    }

    pub fn new() -> (r: (ResultsInspector, Task))
        ensures
            r.0 is Loading,
            r.1 == Task::Load,
    {
        (ResultsInspector::Loading, Task::Load)
    }

    /// Takes a message and says what to do next.
    pub fn update(&mut self, message: Message) -> (r: Task)
        requires
            old(self).wf(),
            old(self).accepts(message),
        ensures
            final(self).wf(),
            match message {
                Message::Raw(strategies, stats) => *final(self) matches ResultsInspector::Raw(s)
                    && s.num_strategies == strategies && s.num_stats == stats && s.selected_stat == 0
                    && s.filters@.len() == 0 && r == Task::CalculateColors(0),
                Message::RecalculateColor => r == Task::CalculateColors(old(self).selected_stat())
                    && *final(self) == *old(self),
                Message::Loaded(colors) => match *old(self) {
                    ResultsInspector::Raw(raw) => *final(self) matches ResultsInspector::Loaded(s)
                        && s.num_strategies == raw.num_strategies && s.num_stats == raw.num_stats
                        && s.selected_stat == raw.selected_stat && s.filters@.len() == 0
                        && s.colors == colors && s.cell_size == CELL_SIZE && s.grid.mark_diagonals
                        && (forall|i: int|
                        0 <= i < s.grid.cells@.len() ==> !(#[trigger] s.grid.cells@[i]).is_selected)
                        && s.selected_cell is None && s.label_list.selected_indicies@.len() == 0
                        && r == Task::Maximize,
                    ResultsInspector::Loaded(old_state) => *final(self) matches ResultsInspector::Loaded(s)
                        && s.colors == colors && s.selected_stat == old_state.selected_stat
                        && s.selected_cell == old_state.selected_cell && s.grid.cells@
                        == old_state.grid.cells@ && r == Task::Idle,
                    ResultsInspector::Loading => false,
                },
                _ => loaded_update(*old(self), message, *final(self), r),
            },
    {
        match message {
            Message::Raw(_, _) | Message::RecalculateColor | Message::Loaded(_) => {
                self.update_transition_states(message)
            },
            _ => self.update_loaded_state(message),
        }
    }

    fn update_transition_states(&mut self, message: Message) -> (r: Task)
        requires
            old(self).wf(),
            old(self).accepts(message),
            message is Raw || message is RecalculateColor || message is Loaded,
        ensures
            final(self).wf(),
            match message {
                Message::Raw(strategies, stats) => *final(self) matches ResultsInspector::Raw(s)
                    && s.num_strategies == strategies && s.num_stats == stats && s.selected_stat == 0
                    && s.filters@.len() == 0 && r == Task::CalculateColors(0),
                Message::RecalculateColor => r == Task::CalculateColors(old(self).selected_stat())
                    && *final(self) == *old(self),
                Message::Loaded(colors) => match *old(self) {
                    ResultsInspector::Raw(raw) => *final(self) matches ResultsInspector::Loaded(s)
                        && s.num_strategies == raw.num_strategies && s.num_stats == raw.num_stats
                        && s.selected_stat == raw.selected_stat && s.filters@.len() == 0
                        && s.colors == colors && s.cell_size == CELL_SIZE && s.grid.mark_diagonals
                        && (forall|i: int|
                        0 <= i < s.grid.cells@.len() ==> !(#[trigger] s.grid.cells@[i]).is_selected)
                        && s.selected_cell is None && s.label_list.selected_indicies@.len() == 0
                        && r == Task::Maximize,
                    ResultsInspector::Loaded(old_state) => *final(self) matches ResultsInspector::Loaded(s)
                        && s.colors == colors && s.selected_stat == old_state.selected_stat
                        && s.selected_cell == old_state.selected_cell && s.grid.cells@
                        == old_state.grid.cells@ && r == Task::Idle,
                    ResultsInspector::Loading => false,
                },
                _ => false,
            },
    {
        match message {
            Message::Raw(num_strategies, num_stats) => {
                *self = ResultsInspector::Raw(
                    RawState { num_strategies, num_stats, selected_stat: 0, filters: Vec::new() },
                );
                Task::CalculateColors(0)
            },
            Message::RecalculateColor => match self {
                ResultsInspector::Loaded(state) => Task::CalculateColors(state.selected_stat),
                ResultsInspector::Raw(raw_state) => Task::CalculateColors(raw_state.selected_stat),
                ResultsInspector::Loading => Task::Idle,
            },
            Message::Loaded(colors) => match self {
                ResultsInspector::Raw(raw_state) => {
                    let n = raw_state.num_strategies;
                    assert(n * n <= 65535 * 65535) by (nonlinear_arith)
                        requires
                            n <= 65535,
                    ;
                    let new_state = State {
                        num_strategies: n,
                        num_stats: raw_state.num_stats,
                        selected_stat: raw_state.selected_stat,
                        filters: Vec::new(),
                        colors,
                        cell_size: CELL_SIZE,
                        grid: Grid::new(n, n, true),
                        label_list: LabelList::new(),
                        selected_cell: None,
                        match_inspector: MatchInspector::default(),
                    };
                    *self = ResultsInspector::Loaded(new_state);
                    Task::Maximize
                },
                ResultsInspector::Loaded(state) => {
                    state.colors = colors;
                    Task::Idle
                },
                ResultsInspector::Loading => Task::Idle,
            },
            _ => Task::Idle,
        }
    }

    fn update_loaded_state(&mut self, message: Message) -> (r: Task)
        requires
            old(self).wf(),
            old(self).accepts(message),
            !(message is Raw || message is RecalculateColor || message is Loaded),
        ensures
            final(self).wf(),
            loaded_update(*old(self), message, *final(self), r),
    {
        match self {
            ResultsInspector::Loaded(state) => match message {
                Message::GridMessage(grid_message) => {
                    let n = state.num_strategies;
                    match grid_message {
                        GridMessage::Focus(x, y) => {
                            let previous_cell = state.selected_cell;
                            state.selected_cell = Some((x, y));
                            if let Some((x_previous, y_previous)) = previous_cell {
                                proof {
                                    lemma_index_in_grid(x_previous, y_previous, n);
                                }
                                state.grid.update(GridMessage::Unfocus(x_previous, y_previous));
                            }
                        },
                        GridMessage::Unfocus(x, y) => {
                            if state.selected_cell == Some((x, y)) {
                                state.selected_cell = None;
                            }
                        },
                    }
                    proof {
                        lemma_index_in_grid(grid_message.position().0, grid_message.position().1, n);
                    }
                    state.grid.update(grid_message);
                    Task::Idle
                },
                Message::MatchInspectorMessage(message) => {
                    state.match_inspector.update(message);
                    Task::Idle
                },
                Message::CycleSelectedStat => {
                    state.selected_stat = (state.selected_stat + 1) % state.num_stats;
                    Task::CalculateColors(state.selected_stat)
                },
                _ => Task::Idle,
            },
            _ => Task::Idle,
        }
    }
}

proof fn lemma_index_in_grid(x: usize, y: usize, n: usize)
    requires
        x < n,
        y < n,
    ensures
        x * n + y < n * n,
{
    assert(x * n + y < n * n) by (nonlinear_arith)
        requires
            x < n,
            y < n,
    ;
}

/// What a message does to a loaded viewer. Focusing a cell releases the cell
/// selected before it; releasing the selected cell clears the selection; label
/// messages change nothing; cycling moves to the next statistic, round to the
/// first, and asks for its deviations.
pub open spec fn loaded_update(before: ResultsInspector, message: Message, after: ResultsInspector, r: Task) -> bool {
    match (before, after) {
        (ResultsInspector::Loaded(s), ResultsInspector::Loaded(t)) => {
            &&& t.num_strategies == s.num_strategies
            &&& t.num_stats == s.num_stats
            &&& match message {
                Message::GridMessage(GridMessage::Focus(x, y)) => {
                    &&& t.selected_cell == Some((x, y))
                    &&& t.selected_stat == s.selected_stat
                    &&& r == Task::Idle
                    &&& forall|i: int|
                        0 <= i < t.grid.cells@.len() ==> (#[trigger] t.grid.cells@[i]).is_selected == if i
                            == x * s.num_strategies + y {
                            true
                        } else if s.selected_cell matches Some((px, py)) && i == px
                            * s.num_strategies + py {
                            false
                        } else {
                            s.grid.cells@[i].is_selected
                        }
                    &&& t.grid.cells@.len() == s.grid.cells@.len()
                },
                Message::GridMessage(GridMessage::Unfocus(x, y)) => {
                    &&& t.selected_cell == if s.selected_cell == Some((x, y)) {
                        None
                    } else {
                        s.selected_cell
                    }
                    &&& t.selected_stat == s.selected_stat
                    &&& r == Task::Idle
                    &&& t.grid.cells@ == s.grid.cells_after(GridMessage::Unfocus(x, y))
                },
                Message::LabelListMessage(_) => {
                    &&& t.selected_cell == s.selected_cell
                    &&& t.selected_stat == s.selected_stat
                    &&& t.grid.cells@ == s.grid.cells@
                    &&& r == Task::Idle
                },
                Message::MatchInspectorMessage(MatchInspectorMessage::GridMessage(m)) => {
                    &&& t.selected_cell == s.selected_cell
                    &&& t.selected_stat == s.selected_stat
                    &&& t.grid.cells@ == s.grid.cells@
                    &&& t.match_inspector.grid.cells@ == s.match_inspector.grid.cells_after(m)
                    &&& r == Task::Idle
                },
                Message::CycleSelectedStat => {
                    &&& t.selected_cell == s.selected_cell
                    &&& t.selected_stat == (s.selected_stat + 1) % (s.num_stats as int)
                    &&& t.grid.cells@ == s.grid.cells@
                    &&& r == Task::CalculateColors(t.selected_stat)
                },
                _ => false,
            }
        },
        _ => false,
    }
}

} // verus!
