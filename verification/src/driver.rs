use vstd::prelude::*;

use crate::DisplayError;
use crate::cache::CellCache;
use crate::cache::CellState;
use crate::cache::GRID_CELLS;
use crate::cache::GRID_COLS;
use crate::cache::GRID_ROWS;
use crate::cache::cell_index;
use crate::cache::cleared_cache;
use crate::cache::in_grid;
use crate::cache::unwritten_cell;
use crate::encoder::BusOp;
use crate::encoder::BusOpModel;
use crate::encoder::cell_window_bytes;
use crate::encoder::clear_window_bytes;
use crate::encoder::encode_cell_window;
use crate::encoder::encode_clear_window;
use crate::encoder::encode_fill_payload;
use crate::encoder::encode_glyph_payload;
use crate::encoder::encode_init;
use crate::encoder::fill_payload;
use crate::encoder::glyph_payload;
use crate::encoder::init_bytes;
use crate::encoder::ops_view;
use crate::glyph::GLYPH_COUNT;
use crate::glyph::glyph_entry;
use crate::glyph::glyph_spec;

verus! {

/// The lowest raw text byte the glyph table covers: ASCII space.
pub const FIRST_CODE: u8 = 32;

/// The highest raw text byte the glyph table covers: the degree sign,
/// two codes past ASCII tilde.
pub const LAST_CODE: u8 = 128;

/// Whether a raw text byte maps into the glyph table.
pub open spec fn valid_char(c: u8) -> bool {
    FIRST_CODE <= c <= LAST_CODE
}

/// Whether every byte of a text maps into the glyph table.
pub open spec fn all_chars_valid(text: Seq<u8>) -> bool {
    forall|j: int| 0 <= j < text.len() ==> valid_char(text[j])
}

/// The glyph-table code of a raw text byte.
pub open spec fn char_code(c: u8) -> u8
    recommends
        valid_char(c),
{
    (c - FIRST_CODE) as u8
}

/// The inverse flag as the cache records it: 1 requests inverse
/// rendering, every other value renders normally.
pub open spec fn norm_inverse(inverse: u8) -> u8 {
    if inverse == 1 {
        1
    } else {
        0
    }
}

/// Whether a draw request of the given length lies fully on the grid.
pub open spec fn fits_grid(row: u8, col: u8, len: nat) -> bool {
    row < GRID_ROWS && col < GRID_COLS && col + len <= GRID_COLS
}

/// The bus writes that `init` emits: one command block holding the fixed
/// initialization sequence.
pub open spec fn init_ops() -> Seq<BusOpModel> {
    seq![BusOpModel::Command(init_bytes())]
}

/// The bus writes that `clear` emits: the full-frame address window,
/// then one frame of the fill value.
pub open spec fn clear_ops(fill: u8) -> Seq<BusOpModel> {
    seq![BusOpModel::Command(clear_window_bytes()), BusOpModel::Data(fill_payload(fill))]
}

/// The bus writes for one cell: its address window, then its six payload
/// bytes.
pub open spec fn cell_ops(row: int, col: int, code: u8, inverse: bool) -> Seq<BusOpModel> {
    seq![
        BusOpModel::Command(cell_window_bytes(row, col)),
        BusOpModel::Data(glyph_payload(glyph_spec(code as int), inverse)),
    ]
}

/// The bus writes for one character of a draw request: the cell's two
/// writes if the cached value differs from the request, nothing if it
/// already matches.
pub open spec fn step_ops(
    cache: Seq<CellState>,
    row: int,
    col: int,
    inverse: u8,
    c: u8,
) -> Seq<BusOpModel> {
    let code = char_code(c);
    if cache[cell_index(row, col)] != (CellState { code, inverse: norm_inverse(inverse) }) {
        cell_ops(row, col, code, norm_inverse(inverse) == 1)
    } else {
        Seq::empty()
    }
}

/// The bus writes that drawing `text` at `(row, col)` over the given
/// cache emits: the writes for all characters but the last, then the
/// writes for the last character at its own column.
pub open spec fn draw_ops(
    cache: Seq<CellState>,
    row: int,
    col: int,
    inverse: u8,
    text: Seq<u8>,
) -> Seq<BusOpModel>
    decreases text.len(),
{
    if text.len() == 0 {
        Seq::empty()
    } else {
        draw_ops(cache, row, col, inverse, text.drop_last()) + step_ops(
            cache,
            row,
            col + text.len() - 1,
            inverse,
            text.last(),
        )
    }
}

/// The cache contents after drawing `text` at `(row, col)`: each covered
/// cell records the character's code and the inverse flag, every other
/// cell keeps its value.
pub open spec fn cache_after_draw(
    cache: Seq<CellState>,
    row: int,
    col: int,
    inverse: u8,
    text: Seq<u8>,
) -> Seq<CellState> {
    Seq::new(
        cache.len(),
        |k: int|
            if cell_index(row, col) <= k < cell_index(row, col) + text.len() {
                CellState {
                    code: char_code(text[k - cell_index(row, col)]),
                    inverse: norm_inverse(inverse),
                }
            } else {
                cache[k]
            },
    )
}

/// The driver for one panel: the cell cache plus the protocol state.
///
/// Its operations return the bus writes the panel needs; the caller's
/// transport carries them to the hardware in order.
pub struct Display {
    initialized: bool,
    cache: CellCache,
}

impl Display {
    /// Whether `init` has run.
    pub closed spec fn spec_initialized(&self) -> bool {
        self.initialized
    }

    /// The cached cell values, row-major.
    pub closed spec fn cells(&self) -> Seq<CellState> {
        self.cache@
    }

    /// The cache always covers the whole grid.
    pub open spec fn wf(&self) -> bool {
        self.cells().len() == GRID_CELLS
    }

    /// A driver for one panel, not yet initialized. Every cell is marked
    /// as never written, so the first draw after `init` rewrites
    /// whatever the panel happens to show.
    pub fn new() -> (d: Display)
        ensures
            d.wf(),
            !d.spec_initialized(),
            forall|k: int| 0 <= k < GRID_CELLS ==> d.cells()[k] == unwritten_cell(),
    {
        Display { initialized: false, cache: CellCache::new() }
    }

    /// Emits the panel's fixed initialization sequence and marks the
    /// driver ready. The sequence itself is idempotent at the protocol
    /// level; the cache is left as it was.
    pub fn init(&mut self) -> (ops: Vec<BusOp>)
        requires
            old(self).wf(),
        ensures
            final(self).wf(),
            final(self).spec_initialized(),
            final(self).cells() == old(self).cells(),
            ops_view(ops@) == init_ops(),
    {
        self.initialized = true;
        let mut ops: Vec<BusOp> = Vec::new();
        ops.push(BusOp::Command(encode_init()));
        proof {
            assert(ops_view(ops@) =~= init_ops());
        }
        ops
    }

    /// Emits the full-frame address window and one frame of the fill
    /// value, and resets the cache: afterwards every cell reads clean
    /// for `(0, 0)`. Refused before `init`.
    pub fn clear(&mut self, fill: u8) -> (r: Result<Vec<BusOp>, DisplayError>)
        requires
            old(self).wf(),
        ensures
            final(self).wf(),
            final(self).spec_initialized() == old(self).spec_initialized(),
            old(self).spec_initialized() ==> (r matches Ok(ops) && ops_view(ops@) == clear_ops(
                fill,
            ) && final(self).cells() == cleared_cache()),
            !old(self).spec_initialized() ==> (r matches Err(e) && e
                == DisplayError::NotInitialized && final(self).cells() == old(self).cells()),
    {
        if !self.initialized {
            return Err(DisplayError::NotInitialized);
        }
        let mut ops: Vec<BusOp> = Vec::new();
        ops.push(BusOp::Command(encode_clear_window()));
        ops.push(BusOp::Data(encode_fill_payload(fill)));
        self.cache.reset();
        proof {
            assert(ops_view(ops@) =~= clear_ops(fill));
        }
        Ok(ops)
    }

    /// Whether the cached value at a cell differs from `(code, inverse)`.
    pub open spec fn spec_is_dirty(&self, row: int, col: int, code: u8, inverse: u8) -> bool {
        self.cells()[cell_index(row, col)] != (CellState { code, inverse })
    }

    /// Reports whether the cell at `(row, col)` would have to be written
    /// for `(code, inverse)`; refuses a position off the grid.
    pub fn is_dirty(&self, row: u8, col: u8, code: u8, inverse: u8) -> (r: Result<
        bool,
        DisplayError,
    >)
        requires
            self.wf(),
        ensures
            in_grid(row as int, col as int) ==> (r matches Ok(d) && d == self.spec_is_dirty(
                row as int,
                col as int,
                code,
                inverse,
            )),
            !in_grid(row as int, col as int) ==> (r matches Err(e) && e
                == DisplayError::IndexOutOfBounds),
    {
        self.cache.is_dirty(row, col, code, inverse)
    }

    /// Draws `text` left to right from `(row, col)`, emitting for each
    /// character whose cell differs from the request that cell's address
    /// window and payload, and recording the new value in the cache.
    ///
    /// Refused before `init`; refused whole when the text would run past
    /// the right edge of the grid or holds a byte outside the glyph
    /// table, with the cache untouched.
    pub fn draw_text(&mut self, row: u8, col: u8, inverse: u8, text: &[u8]) -> (r: Result<
        Vec<BusOp>,
        DisplayError,
    >)
        requires
            old(self).wf(),
        ensures
            final(self).wf(),
            final(self).spec_initialized() == old(self).spec_initialized(),
            !old(self).spec_initialized() ==> (r matches Err(e) && e
                == DisplayError::NotInitialized && final(self).cells() == old(self).cells()),
            old(self).spec_initialized() && !fits_grid(row, col, text@.len()) ==> (r matches Err(e)
                && e == DisplayError::IndexOutOfBounds && final(self).cells() == old(self).cells()),
            old(self).spec_initialized() && fits_grid(row, col, text@.len()) && !all_chars_valid(
                text@,
            ) ==> (r matches Err(e) && e == DisplayError::InvalidCharacter && final(self).cells()
                == old(self).cells()),
            old(self).spec_initialized() && fits_grid(row, col, text@.len()) && all_chars_valid(
                text@,
            ) ==> (r matches Ok(ops) && ops_view(ops@) == draw_ops(
                old(self).cells(),
                row as int,
                col as int,
                inverse,
                text@,
            ) && final(self).cells() == cache_after_draw(
                old(self).cells(),
                row as int,
                col as int,
                inverse,
                text@,
            )),
    {
        if !self.initialized {
            return Err(DisplayError::NotInitialized);
        }
        if row >= GRID_ROWS || col >= GRID_COLS {
            return Err(DisplayError::IndexOutOfBounds);
        }
        if text.len() > (GRID_COLS - col) as usize {
            return Err(DisplayError::IndexOutOfBounds);
        }
        let mut i: usize = 0;
        while i < text.len()
            invariant
                self == old(self),
                self.initialized,
                self.wf(),
                fits_grid(row, col, text@.len()),
                i <= text@.len(),
                forall|j: int| 0 <= j < i ==> valid_char(text@[j]),
            decreases text@.len() - i,
        {
            let c = text[i];
            if c < FIRST_CODE || c > LAST_CODE {
                return Err(DisplayError::InvalidCharacter);
            }
            i = i + 1;
        }
        let ghost cache0 = self.cache@;
        let inv_norm: u8 = if inverse == 1 {
            1
        } else {
            0
        };
        let mut ops: Vec<BusOp> = Vec::new();
        let mut i: usize = 0;
        while i < text.len()
            invariant
                self.initialized,
                self.cache.wf(),
                cache0.len() == GRID_CELLS,
                i <= text@.len(),
                row < GRID_ROWS,
                col < GRID_COLS,
                col as int + text@.len() <= GRID_COLS as int,
                all_chars_valid(text@),
                inv_norm == norm_inverse(inverse),
                ops_view(ops@) == draw_ops(cache0, row as int, col as int, inverse, text@.take(i as int)),
                self.cache@ == cache_after_draw(cache0, row as int, col as int, inverse, text@.take(i as int)),
            decreases text@.len() - i,
        {
            let c = text[i];
            let code = c - FIRST_CODE;
            let cur_col = col + (i as u8);
            let cell = self.cache.lookup(row, cur_col);
            if cell.code != code || cell.inverse != inv_norm {
                ops.push(BusOp::Command(encode_cell_window(row, cur_col)));
                let g = glyph_entry(code);
                ops.push(BusOp::Data(encode_glyph_payload(&g, inv_norm == 1)));
                self.cache.store(row, cur_col, code, inv_norm);
            }
            proof {
                assert(text@.take(i as int + 1).drop_last() =~= text@.take(i as int));
                assert(text@.take(i as int + 1).last() == text@[i as int]);
                assert(ops_view(ops@) =~= draw_ops(
                    cache0,
                    row as int,
                    col as int,
                    inverse,
                    text@.take(i as int + 1),
                ));
                assert(self.cache@ =~= cache_after_draw(
                    cache0,
                    row as int,
                    col as int,
                    inverse,
                    text@.take(i as int + 1),
                ));
            }
            i = i + 1;
        }
        proof {
            assert(text@.take(text@.len() as int) =~= text@);
        }
        Ok(ops)
    }
}

/// Over a cache whose covered cells already hold the requested values, a
/// draw emits nothing.
proof fn lemma_draw_over_matching_cache(
    cache: Seq<CellState>,
    row: int,
    col: int,
    inverse: u8,
    text: Seq<u8>,
)
    requires
        forall|j: int|
            0 <= j < text.len() ==> cache[cell_index(row, col) + j] == (CellState {
                code: char_code(text[j]),
                inverse: norm_inverse(inverse),
            }),
    ensures
        draw_ops(cache, row, col, inverse, text) == Seq::<BusOpModel>::empty(),
    decreases text.len(),
{
    if text.len() > 0 {
        lemma_draw_over_matching_cache(cache, row, col, inverse, text.drop_last());
        assert(cell_index(row, col + text.len() - 1) == cell_index(row, col) + text.len() - 1);
        assert(draw_ops(cache, row, col, inverse, text) =~= Seq::<BusOpModel>::empty());
    }
}

/// Drawing the same text twice emits bus writes only the first time:
/// with the cache exactly as a draw left it, repeating the identical
/// request produces no bus operations at all.
pub proof fn lemma_second_draw_is_silent(
    cache: Seq<CellState>,
    row: int,
    col: int,
    inverse: u8,
    text: Seq<u8>,
)
    requires
        cache.len() == GRID_CELLS,
        0 <= row < GRID_ROWS,
        0 <= col < GRID_COLS,
        col + text.len() <= GRID_COLS,
    ensures
        draw_ops(cache_after_draw(cache, row, col, inverse, text), row, col, inverse, text)
            == Seq::<BusOpModel>::empty(),
{
    let after = cache_after_draw(cache, row, col, inverse, text);
    assert forall|j: int| 0 <= j < text.len() implies after[cell_index(row, col) + j]
        == (CellState { code: char_code(text[j]), inverse: norm_inverse(inverse) }) by {
        assert(0 <= cell_index(row, col) + j < GRID_CELLS);
    }
    lemma_draw_over_matching_cache(after, row, col, inverse, text);
}

/// A clear leaves the whole grid clean: with the cache as `clear` left
/// it, every position reads not dirty for the pair `(0, 0)`.
pub proof fn lemma_clear_leaves_no_dirty_cell(d: &Display, row: int, col: int)
    requires
        d.cells() == cleared_cache(),
        in_grid(row, col),
    ensures
        !d.spec_is_dirty(row, col, 0, 0),
{
    assert(0 <= cell_index(row, col) < GRID_CELLS);
}

/// A draw request leaves every cell outside the stretch its text covers
/// exactly as it was.
pub proof fn lemma_draw_leaves_other_cells(
    cache: Seq<CellState>,
    row: int,
    col: int,
    inverse: u8,
    text: Seq<u8>,
    k: int,
)
    requires
        0 <= k < cache.len(),
        !(cell_index(row, col) <= k < cell_index(row, col) + text.len()),
    ensures
        cache_after_draw(cache, row, col, inverse, text)[k] == cache[k],
{
}

/// A draw request touches only the cells its text covers: every bus
/// write it emits is the address window or the payload of a cell at the
/// request's row and at one of the columns under the text.
pub proof fn lemma_draw_stays_in_columns(
    cache: Seq<CellState>,
    row: int,
    col: int,
    inverse: u8,
    text: Seq<u8>,
    op: BusOpModel,
)
    requires
        draw_ops(cache, row, col, inverse, text).contains(op),
    ensures
        exists|j: int|
            0 <= j < text.len() && cell_ops(
                row,
                col + j,
                char_code(text[j]),
                norm_inverse(inverse) == 1,
            ).contains(op),
    decreases text.len(),
{
    let rest = draw_ops(cache, row, col, inverse, text.drop_last());
    let step = step_ops(cache, row, col + text.len() - 1, inverse, text.last());
    let i = choose|i: int|
        0 <= i < draw_ops(cache, row, col, inverse, text).len() && draw_ops(
            cache,
            row,
            col,
            inverse,
            text,
        )[i] == op;
    if i < rest.len() {
        assert(rest[i] == op);
        assert(rest.contains(op));
        lemma_draw_stays_in_columns(cache, row, col, inverse, text.drop_last(), op);
        let j = choose|j: int|
            0 <= j < text.drop_last().len() && cell_ops(
                row,
                col + j,
                char_code(text.drop_last()[j]),
                norm_inverse(inverse) == 1,
            ).contains(op);
        assert(cell_ops(row, col + j, char_code(text[j]), norm_inverse(inverse) == 1).contains(op));
    } else {
        let j = text.len() - 1;
        assert(step[i - rest.len()] == op);
        assert(step.contains(op));
        assert(cell_ops(row, col + j, char_code(text[j]), norm_inverse(inverse) == 1).contains(op));
    }
}

} // verus!
