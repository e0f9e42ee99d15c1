use vstd::prelude::*;

use crate::cache::in_grid;

verus! {

/// Command opcode: turn the panel off.
pub const DISPLAY_OFF: u8 = 0xAE;

/// Command opcode: set the display clock divider.
pub const SET_CLOCK_DIV: u8 = 0xD5;

/// Command opcode: set the multiplex ratio.
pub const SET_MULTIPLEX: u8 = 0xA8;

/// Command opcode: set the display offset.
pub const SET_DISPLAY_OFFSET: u8 = 0xD3;

/// Command opcode: set the display start line to line 0.
pub const SET_START_LINE: u8 = 0x40;

/// Command opcode: configure the charge pump.
pub const CHARGE_PUMP: u8 = 0x8D;

/// Command opcode: set the memory addressing mode.
pub const MEMORY_MODE: u8 = 0x20;

/// Command opcode: segment remap with the remap bit set, for a panel
/// mounted rotated by 180 degrees.
pub const SEG_REMAP_REVERSED: u8 = 0xA1;

/// Command opcode: scan the COM outputs in decreasing order, the other
/// half of the 180 degree rotation.
pub const COM_SCAN_DEC: u8 = 0xC8;

/// Command opcode: set the COM pins hardware configuration.
pub const SET_COM_PINS: u8 = 0xDA;

/// Command opcode: set the contrast level.
pub const SET_CONTRAST: u8 = 0x81;

/// Command opcode: set the pre-charge period.
pub const SET_PRECHARGE: u8 = 0xD9;

/// Command opcode: set the VCOM deselect level.
pub const SET_VCOM_DETECT: u8 = 0xDB;

/// Command opcode: resume display from RAM contents.
pub const DISPLAY_ALL_ON_RESUME: u8 = 0xA4;

/// Command opcode: non-inverted display mode.
pub const NORMAL_DISPLAY: u8 = 0xA6;

/// Command opcode: turn the panel on.
pub const DISPLAY_ON: u8 = 0xAF;

/// Command opcode: set the column address window.
pub const COLUMN_ADDR: u8 = 0x21;

/// Command opcode: set the page address window.
pub const PAGE_ADDR: u8 = 0x22;

/// Rightmost pixel column of the 128-column panel.
pub const LAST_COLUMN: u8 = 127;

/// Last page (band of 8 pixel rows) of the 64-row panel.
pub const LAST_PAGE: u8 = 7;

/// Size of one full frame: 128 columns times 8 pages.
pub const FRAME_BYTES: usize = 1024;

/// One write on the display bus, already split into the controller's
/// command channel and its data (pixel) channel. How the two channels are
/// told apart on the wire is the transport's business.
#[derive(Debug, Clone, PartialEq, Eq)]
pub enum BusOp {
    /// Bytes for the command channel.
    Command(Vec<u8>),
    /// Bytes for the data channel.
    Data(Vec<u8>),
}

/// Mathematical model of one bus write.
pub enum BusOpModel {
    Command(Seq<u8>),
    Data(Seq<u8>),
}

impl View for BusOp {
    type V = BusOpModel;

    open spec fn view(&self) -> BusOpModel {
        match self {
            BusOp::Command(b) => BusOpModel::Command(b@),
            BusOp::Data(b) => BusOpModel::Data(b@),
        }
    }
}

/// The models of a sequence of bus writes.
pub open spec fn ops_view(ops: Seq<BusOp>) -> Seq<BusOpModel> {
    ops.map_values(|op: BusOp| op@)
}

/// The fixed initialization sequence for the 128x64 controller, in the
/// exact order the panel requires.
pub open spec fn init_bytes() -> Seq<u8> {
    seq![
        DISPLAY_OFF,
        SET_CLOCK_DIV,
        0x80u8,
        SET_MULTIPLEX,
        0x3Fu8,
        SET_DISPLAY_OFFSET,
        0x00u8,
        SET_START_LINE,
        CHARGE_PUMP,
        0x14u8,
        MEMORY_MODE,
        0x01u8,
        SEG_REMAP_REVERSED,
        COM_SCAN_DEC,
        SET_COM_PINS,
        0x12u8,
        SET_CONTRAST,
        0xCFu8,
        SET_PRECHARGE,
        0xF1u8,
        SET_VCOM_DETECT,
        0x40u8,
        DISPLAY_ALL_ON_RESUME,
        NORMAL_DISPLAY,
        DISPLAY_ON,
    ]
}

/// Address-window bytes covering the whole frame, sent before a clear.
pub open spec fn clear_window_bytes() -> Seq<u8> {
    seq![COLUMN_ADDR, 0u8, LAST_COLUMN, PAGE_ADDR, 0u8, LAST_PAGE]
}

/// Address-window bytes for one glyph cell: columns from the cell's left
/// edge to the panel's right edge, pages pinned to the cell's row.
pub open spec fn cell_window_bytes(row: int, col: int) -> Seq<u8>
    recommends
        in_grid(row, col),
{
    seq![COLUMN_ADDR, (6 * col) as u8, LAST_COLUMN, PAGE_ADDR, row as u8, row as u8]
}

/// The six data bytes for one cell: the glyph's five columns and the
/// one-column spacer, all complemented when inverse rendering is on.
pub open spec fn glyph_payload(g: Seq<u8>, inverse: bool) -> Seq<u8>
    recommends
        g.len() == 5,
{
    if inverse {
        seq![!g[0], !g[1], !g[2], !g[3], !g[4], 0xFFu8]
    } else {
        seq![g[0], g[1], g[2], g[3], g[4], 0x00u8]
    }
}

/// One frame's worth of a single fill value.
pub open spec fn fill_payload(fill: u8) -> Seq<u8> {
    Seq::new(FRAME_BYTES as nat, |i: int| fill)
}

/// Builds the initialization byte sequence.
pub fn encode_init() -> (v: Vec<u8>)
    ensures
        v@ == init_bytes(),
{
    let mut v: Vec<u8> = Vec::new();
    v.push(DISPLAY_OFF);
    v.push(SET_CLOCK_DIV);
    v.push(0x80);
    v.push(SET_MULTIPLEX);
    v.push(0x3F);
    v.push(SET_DISPLAY_OFFSET);
    v.push(0x00);
    v.push(SET_START_LINE);
    v.push(CHARGE_PUMP);
    v.push(0x14);
    v.push(MEMORY_MODE);
    v.push(0x01);
    v.push(SEG_REMAP_REVERSED);
    v.push(COM_SCAN_DEC);
    v.push(SET_COM_PINS);
    v.push(0x12);
    v.push(SET_CONTRAST);
    v.push(0xCF);
    v.push(SET_PRECHARGE);
    v.push(0xF1);
    v.push(SET_VCOM_DETECT);
    v.push(0x40);
    v.push(DISPLAY_ALL_ON_RESUME);
    v.push(NORMAL_DISPLAY);
    v.push(DISPLAY_ON);
    proof {
        assert(v@ =~= init_bytes());
    }
    v
}

/// Builds the address-window bytes for a full-frame clear.
pub fn encode_clear_window() -> (v: Vec<u8>)
    ensures
        v@ == clear_window_bytes(),
{
    let mut v: Vec<u8> = Vec::new();
    v.push(COLUMN_ADDR);
    v.push(0);
    v.push(LAST_COLUMN);
    v.push(PAGE_ADDR);
    v.push(0);
    v.push(LAST_PAGE);
    proof {
        assert(v@ =~= clear_window_bytes());
    }
    v
}

/// Builds the address-window bytes for one glyph cell.
pub fn encode_cell_window(row: u8, col: u8) -> (v: Vec<u8>)
    requires
        in_grid(row as int, col as int),
    ensures
        v@ == cell_window_bytes(row as int, col as int),
{
    let mut v: Vec<u8> = Vec::new();
    v.push(COLUMN_ADDR);
    v.push(col * 6);
    v.push(LAST_COLUMN);
    v.push(PAGE_ADDR);
    v.push(row);
    v.push(row);
    proof {
        assert(v@ =~= cell_window_bytes(row as int, col as int));
    }
    v
}

/// Builds the six data bytes for one cell from a glyph's columns.
pub fn encode_glyph_payload(g: &[u8; 5], inverse: bool) -> (v: Vec<u8>)
    ensures
        v@ == glyph_payload(g@, inverse),
{
    let mut v: Vec<u8> = Vec::new();
    if inverse {
        v.push(!g[0]);
        v.push(!g[1]);
        v.push(!g[2]);
        v.push(!g[3]);
        v.push(!g[4]);
        v.push(0xFF);
    } else {
        v.push(g[0]);
        v.push(g[1]);
        v.push(g[2]);
        v.push(g[3]);
        v.push(g[4]);
        v.push(0x00);
    }
    proof {
        assert(v@ =~= glyph_payload(g@, inverse));
    }
    v
}

/// Builds one frame's worth of the fill value.
pub fn encode_fill_payload(fill: u8) -> (v: Vec<u8>)
    ensures
        v@ == fill_payload(fill),
{
    let mut v: Vec<u8> = Vec::new();
    let mut k: usize = 0;
    while k < FRAME_BYTES
        invariant
            k <= FRAME_BYTES,
            v@.len() == k,
            forall|j: int| 0 <= j < k ==> v@[j] == fill,
        decreases FRAME_BYTES - k,
    {
        v.push(fill);
        k = k + 1;
    }
    proof {
        assert(v@ =~= fill_payload(fill));
    }
    v
}

/// Inverse rendering complements the cell payload byte for byte: each of
/// the five glyph columns comes out as the bitwise complement of its
/// non-inverted counterpart, and the spacer byte as `0xFF` in place of
/// `0x00`.
pub proof fn lemma_inverse_payload_is_complement(g: Seq<u8>)
    requires
        g.len() == 5,
    ensures
        glyph_payload(g, true).len() == 6,
        glyph_payload(g, false).len() == 6,
        forall|j: int| 0 <= j < 6 ==> glyph_payload(g, true)[j] == !glyph_payload(g, false)[j],
{
    assert(forall|b: u8| !!b == b) by (bit_vector);
    assert(0xFFu8 == !0x00u8) by (bit_vector);
}

} // verus!
