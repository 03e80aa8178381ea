//! A grid of cells, row-major, any of which can be selected.
use vstd::prelude::*;

verus! {

/// A request to select or release the cell at a row and a column.
#[derive(Clone, Copy, Debug, PartialEq, Eq, Structural)]
pub enum GridMessage {
    Focus(usize, usize),
    Unfocus(usize, usize),
}

impl GridMessage {
    /// The row and column the message is about.
    pub open spec fn position(self) -> (usize, usize) {
        match self {
            GridMessage::Focus(x, y) => (x, y),
            GridMessage::Unfocus(x, y) => (x, y),
        }
    }

    /// What the named cell is told.
    pub open spec fn to_cell(self) -> CellMessage {
        match self {
            GridMessage::Focus(_, _) => CellMessage::Focus,
            GridMessage::Unfocus(_, _) => CellMessage::Unfocus,
        }
    }
}

/// A request to one cell.
#[derive(Clone, Copy, Debug, PartialEq, Eq, Structural)]
pub enum CellMessage {
    ToggleFocus,
    Focus,
    Unfocus,
}

/// One cell: its index in the grid and whether it is selected.
#[derive(Clone, Copy, Debug, PartialEq, Eq, Structural)]
pub struct Cell {
    pub id: usize,
    pub is_selected: bool,
}

impl Cell {
    /// The cell after a message.
    pub open spec fn after(self, message: CellMessage) -> Cell {
        Cell {
            id: self.id,
            is_selected: match message {
                CellMessage::ToggleFocus => !self.is_selected,
                CellMessage::Focus => true,
                CellMessage::Unfocus => false,
            },
        }
    }

    pub fn new(id: usize) -> (r: Cell)
        ensures
            r == (Cell { id, is_selected: false }),
    {
        Cell { id, is_selected: false }
    }

    pub fn update(&mut self, message: CellMessage)
        ensures
            *final(self) == old(self).after(message),
    {
        self.is_selected = match message {
            CellMessage::ToggleFocus => !self.is_selected,
            CellMessage::Focus => true,
            CellMessage::Unfocus => false,
        };
    }
}

/// A grid `num_rows` high and `num_cols` wide; the cell at row `x`, column `y`
/// has index `x * num_cols + y`.
#[derive(Clone, Debug)]
pub struct Grid {
    pub num_cols: usize,
    pub num_rows: usize,
    pub mark_diagonals: bool,
    pub cells: Vec<Cell>,
}

impl Grid {
    /// The index of a row and a column.
    pub open spec fn index_of(&self, x: int, y: int) -> int {
        x * self.num_cols + y
    }

    /// The cells after a message: the named cell focused or unfocused.
    pub open spec fn cells_after(&self, message: GridMessage) -> Seq<Cell> {
        let i = self.index_of(message.position().0 as int, message.position().1 as int);
        self.cells@.update(i, self.cells@[i].after(message.to_cell()))
    }

    /// The grid's cells are numbered in order.
    pub open spec fn wf(&self) -> bool {
        &&& self.cells@.len() == self.num_cols * self.num_rows
        &&& forall|i: int| 0 <= i < self.cells@.len() ==> (#[trigger] self.cells@[i]).id == i
    }

    /// A grid with no cell selected.
    pub fn new(num_cols: usize, num_rows: usize, mark_diagonals: bool) -> (r: Grid)
        requires
            num_cols * num_rows <= usize::MAX,
        ensures
            r.num_cols == num_cols,
            r.num_rows == num_rows,
            r.mark_diagonals == mark_diagonals,
            r.wf(),
            forall|i: int| 0 <= i < r.cells@.len() ==> !(#[trigger] r.cells@[i]).is_selected,
    {
        let count = num_cols * num_rows;
        let mut cells: Vec<Cell> = Vec::with_capacity(count);
        let mut i: usize = 0;
        while i < count
            invariant
                i <= count,
                cells@.len() == i,
                forall|j: int| 0 <= j < i ==> #[trigger] cells@[j] == (Cell { id: j as usize, is_selected: false }),
            decreases count - i,
        {
            cells.push(Cell::new(i));
            i += 1;
        }
        Grid { num_cols, num_rows, mark_diagonals, cells }
    }

    /// Selects or releases the cell that the message names; every other cell and
    /// the grid's shape stay as they are.
    pub fn update(&mut self, message: GridMessage)
        requires
            old(self).index_of(message.position().0 as int, message.position().1 as int) < old(self).cells@.len(),
        ensures
            final(self).num_cols == old(self).num_cols,
            final(self).num_rows == old(self).num_rows,
            final(self).mark_diagonals == old(self).mark_diagonals,
            final(self).cells@ == old(self).cells_after(message),
    {
        match message {
            GridMessage::Focus(x, y) => {
                let cell = self.get_cell_mut(x, y);
                cell.update(CellMessage::Focus)
            },
            GridMessage::Unfocus(x, y) => {
                let cell = self.get_cell_mut(x, y);
                cell.update(CellMessage::Unfocus)
            },
        }
    }

    fn get_cell_mut(&mut self, x: usize, y: usize) -> (r: &mut Cell)
        requires
            old(self).index_of(x as int, y as int) < old(self).cells@.len(),
        ensures
            *r == old(self).cells@[old(self).index_of(x as int, y as int)],
            final(self).num_cols == old(self).num_cols,
            final(self).num_rows == old(self).num_rows,
            final(self).mark_diagonals == old(self).mark_diagonals,
            final(self).cells@ == old(self).cells@.update(old(self).index_of(x as int, y as int), *final(r)),
    {
        let i = self.flatten_indicies(x, y);
        &mut self.cells[i]
    }

    fn flatten_indicies(&self, x: usize, y: usize) -> (r: usize)
        requires
            self.index_of(x as int, y as int) < self.cells@.len(),
        ensures
            r == self.index_of(x as int, y as int),
    {
        let count = self.cells.len();
        assert(x * self.num_cols + y < count);
        x * self.num_cols + y
    }
}

} // verus!
