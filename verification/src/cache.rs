use vstd::prelude::*;

use crate::DisplayError;

verus! {

/// Number of text rows on the panel: 64 pixel rows, 8 per glyph.
pub const GRID_ROWS: u8 = 8;

/// Number of text columns on the panel: 128 pixel columns, 6 per cell.
pub const GRID_COLS: u8 = 21;

/// Number of cells in the whole grid.
pub const GRID_CELLS: usize = 168;

/// What was last written for one text cell: a glyph code and an inverse
/// flag.
#[derive(Debug, Clone, Copy, PartialEq, Eq, Structural)]
pub struct CellState {
    pub code: u8,
    pub inverse: u8,
}

/// Position of a cell in the row-major grid.
pub open spec fn cell_index(row: int, col: int) -> int {
    row * (GRID_COLS as int) + col
}

/// Whether a row/column pair lies on the text grid.
pub open spec fn in_grid(row: int, col: int) -> bool {
    0 <= row < GRID_ROWS && 0 <= col < GRID_COLS
}

/// The cell value that no valid request can match, so that a fresh cache
/// treats every cell as dirty.
pub open spec fn unwritten_cell() -> CellState {
    CellState { code: 0xFF, inverse: 0xFF }
}

/// The cache contents after a reset: every cell holds code 0 with the
/// inverse flag off.
pub open spec fn cleared_cache() -> Seq<CellState> {
    Seq::new(GRID_CELLS as nat, |k: int| CellState { code: 0, inverse: 0 })
}

/// Row-major record of the last value written to each cell of the grid,
/// used to skip bus writes that would not change the panel.
pub struct CellCache {
    cells: Vec<CellState>,
}

impl View for CellCache {
    type V = Seq<CellState>;

    closed spec fn view(&self) -> Seq<CellState> {
        self.cells@
    }
}

impl CellCache {
    /// The cache always covers the whole grid.
    pub open spec fn wf(&self) -> bool {
        self@.len() == GRID_CELLS
    }

    /// Whether the cached value at a cell differs from the given pair.
    pub open spec fn spec_is_dirty(&self, row: int, col: int, code: u8, inverse: u8) -> bool {
        self@[cell_index(row, col)] != (CellState { code, inverse })
    }

    /// A cache with every cell marked as never written.
    pub fn new() -> (c: CellCache)
        ensures
            c.wf(),
            forall|k: int| 0 <= k < GRID_CELLS ==> c@[k] == unwritten_cell(),
    {
        let mut cells: Vec<CellState> = Vec::new();
        let mut k: usize = 0;
        while k < GRID_CELLS
            invariant
                k <= GRID_CELLS,
                cells@.len() == k,
                forall|j: int| 0 <= j < k ==> cells@[j] == unwritten_cell(),
            decreases GRID_CELLS - k,
        {
            cells.push(CellState { code: 0xFF, inverse: 0xFF });
            k = k + 1;
        }
        CellCache { cells }
    }

    /// Sets every cell back to `(0, 0)`.
    pub fn reset(&mut self)
        requires
            old(self).wf(),
        ensures
            final(self).wf(),
            final(self)@ == cleared_cache(),
    {
        let mut k: usize = 0;
        while k < GRID_CELLS
            invariant
                k <= GRID_CELLS,
                self.cells@.len() == GRID_CELLS,
                forall|j: int| 0 <= j < k ==> self.cells@[j] == cleared_cache()[j],
            decreases GRID_CELLS - k,
        {
            self.cells[k] = CellState { code: 0, inverse: 0 };
            k = k + 1;
        }
        proof {
            assert(self.cells@ =~= cleared_cache());
        }
    }

    /// Reports whether the cell differs from `(code, inverse)`; refuses a
    /// position off the grid.
    pub fn is_dirty(&self, row: u8, col: u8, code: u8, inverse: u8) -> (r: Result<
        bool,
        DisplayError,
    >)
        requires
            self.wf(),
        ensures
            in_grid(row as int, col as int) ==> (r matches Ok(d) && d == self.spec_is_dirty(
                row as int,
                col as int,
                code,
                inverse,
            )),
            !in_grid(row as int, col as int) ==> (r matches Err(e) && e
                == DisplayError::IndexOutOfBounds),
    {
        if row >= GRID_ROWS || col >= GRID_COLS {
            return Err(DisplayError::IndexOutOfBounds);
        }
        Ok(self.lookup(row, col) != (CellState { code, inverse }))
    }

    /// Overwrites the cell with `(code, inverse)`; refuses a position off
    /// the grid.
    pub fn set(&mut self, row: u8, col: u8, code: u8, inverse: u8) -> (r: Result<
        (),
        DisplayError,
    >)
        requires
            old(self).wf(),
        ensures
            final(self).wf(),
            in_grid(row as int, col as int) ==> (r matches Ok(u) && final(self)@ == old(
                self,
            )@.update(cell_index(row as int, col as int), CellState { code, inverse })),
            !in_grid(row as int, col as int) ==> (r matches Err(e) && e
                == DisplayError::IndexOutOfBounds && final(self)@ == old(self)@),
    {
        if row >= GRID_ROWS || col >= GRID_COLS {
            return Err(DisplayError::IndexOutOfBounds);
        }
        self.store(row, col, code, inverse);
        Ok(())
    }

    /// The cached value at a grid position.
    pub(crate) fn lookup(&self, row: u8, col: u8) -> (c: CellState)
        requires
            self.wf(),
            in_grid(row as int, col as int),
        ensures
            c == self@[cell_index(row as int, col as int)],
    {
        let idx: usize = (row as usize) * (GRID_COLS as usize) + (col as usize);
        self.cells[idx]
    }

    /// Overwrites the cached value at a grid position.
    pub(crate) fn store(&mut self, row: u8, col: u8, code: u8, inverse: u8)
        requires
            old(self).wf(),
            in_grid(row as int, col as int),
        ensures
            final(self).wf(),
            final(self)@ == old(self)@.update(
                cell_index(row as int, col as int),
                CellState { code, inverse },
            ),
    {
        let idx: usize = (row as usize) * (GRID_COLS as usize) + (col as usize);
        self.cells[idx] = CellState { code, inverse };
    }
}

/// After a reset no cell is dirty for the pair `(0, 0)`: a clear leaves
/// the whole grid clean.
pub proof fn lemma_reset_leaves_no_dirty_cell(c: CellCache, row: int, col: int)
    requires
        c@ == cleared_cache(),
        in_grid(row, col),
    ensures
        !c.spec_is_dirty(row, col, 0, 0),
{
}

} // verus!
