use vstd::prelude::*;

use crate::DisplayError;

verus! {

/// Number of entries in the glyph table: printable ASCII plus a right
/// arrow, a left arrow and a degree sign appended at the end.
pub const GLYPH_COUNT: u8 = 97;

/// The 5x7 font, one entry per character code.
///
/// Each entry is five bytes; a byte is one vertical pixel column of the
/// glyph, bit 0 at the top. Code 0 is ASCII space (raw ASCII value minus
/// 32); codes 94, 95 and 96 are the right arrow, the left arrow and the
/// degree sign.
pub open spec fn glyph_spec(i: int) -> Seq<u8> {
    if i == 0 {
        seq![0x00u8, 0x00, 0x00, 0x00, 0x00]  // space
    } else if i == 1 {
        seq![0x00u8, 0x00, 0x5F, 0x00, 0x00]  // !
    } else if i == 2 {
        seq![0x00u8, 0x07, 0x00, 0x07, 0x00]  // "
    } else if i == 3 {
        seq![0x14u8, 0x7F, 0x14, 0x7F, 0x14]  // #
    } else if i == 4 {
        seq![0x24u8, 0x2A, 0x7F, 0x2A, 0x12]  // $
    } else if i == 5 {
        seq![0x23u8, 0x13, 0x08, 0x64, 0x62]  // %
    } else if i == 6 {
        seq![0x36u8, 0x49, 0x55, 0x22, 0x50]  // &
    } else if i == 7 {
        seq![0x00u8, 0x05, 0x03, 0x00, 0x00]  // '
    } else if i == 8 {
        seq![0x00u8, 0x1C, 0x22, 0x41, 0x00]  // (
    } else if i == 9 {
        seq![0x00u8, 0x41, 0x22, 0x1C, 0x00]  // )
    } else if i == 10 {
        seq![0x14u8, 0x08, 0x3E, 0x08, 0x14]  // *
    } else if i == 11 {
        seq![0x08u8, 0x08, 0x3E, 0x08, 0x08]  // +
    } else if i == 12 {
        seq![0x00u8, 0x50, 0x30, 0x00, 0x00]  // ,
    } else if i == 13 {
        seq![0x08u8, 0x08, 0x08, 0x08, 0x08]  // -
    } else if i == 14 {
        seq![0x00u8, 0x60, 0x60, 0x00, 0x00]  // .
    } else if i == 15 {
        seq![0x20u8, 0x10, 0x08, 0x04, 0x02]  // /
    } else if i == 16 {
        seq![0x3Eu8, 0x51, 0x49, 0x45, 0x3E]  // 0
    } else if i == 17 {
        seq![0x00u8, 0x42, 0x7F, 0x40, 0x00]  // 1
    } else if i == 18 {
        seq![0x42u8, 0x61, 0x51, 0x49, 0x46]  // 2
    } else if i == 19 {
        seq![0x21u8, 0x41, 0x45, 0x4B, 0x31]  // 3
    } else if i == 20 {
        seq![0x18u8, 0x14, 0x12, 0x7F, 0x10]  // 4
    } else if i == 21 {
        seq![0x27u8, 0x45, 0x45, 0x45, 0x39]  // 5
    } else if i == 22 {
        seq![0x3Cu8, 0x4A, 0x49, 0x49, 0x30]  // 6
    } else if i == 23 {
        seq![0x01u8, 0x71, 0x09, 0x05, 0x03]  // 7
    } else if i == 24 {
        seq![0x36u8, 0x49, 0x49, 0x49, 0x36]  // 8
    } else if i == 25 {
        seq![0x06u8, 0x49, 0x49, 0x29, 0x1E]  // 9
    } else if i == 26 {
        seq![0x00u8, 0x36, 0x36, 0x00, 0x00]  // :
    } else if i == 27 {
        seq![0x00u8, 0x56, 0x36, 0x00, 0x00]  // ;
    } else if i == 28 {
        seq![0x08u8, 0x14, 0x22, 0x41, 0x00]  // <
    } else if i == 29 {
        seq![0x14u8, 0x14, 0x14, 0x14, 0x14]  // =
    } else if i == 30 {
        seq![0x00u8, 0x41, 0x22, 0x14, 0x08]  // >
    } else if i == 31 {
        seq![0x02u8, 0x01, 0x51, 0x09, 0x06]  // ?
    } else if i == 32 {
        seq![0x32u8, 0x49, 0x79, 0x41, 0x3E]  // @
    } else if i == 33 {
        seq![0x7Eu8, 0x11, 0x11, 0x11, 0x7E]  // A
    } else if i == 34 {
        seq![0x7Fu8, 0x49, 0x49, 0x49, 0x36]  // B
    } else if i == 35 {
        seq![0x3Eu8, 0x41, 0x41, 0x41, 0x22]  // C
    } else if i == 36 {
        seq![0x7Fu8, 0x41, 0x41, 0x22, 0x1C]  // D
    } else if i == 37 {
        seq![0x7Fu8, 0x49, 0x49, 0x49, 0x41]  // E
    } else if i == 38 {
        seq![0x7Fu8, 0x09, 0x09, 0x09, 0x01]  // F
    } else if i == 39 {
        seq![0x3Eu8, 0x41, 0x49, 0x49, 0x7A]  // G
    } else if i == 40 {
        seq![0x7Fu8, 0x08, 0x08, 0x08, 0x7F]  // H
    } else if i == 41 {
        seq![0x00u8, 0x41, 0x7F, 0x41, 0x00]  // I
    } else if i == 42 {
        seq![0x20u8, 0x40, 0x41, 0x3F, 0x01]  // J
    } else if i == 43 {
        seq![0x7Fu8, 0x08, 0x14, 0x22, 0x41]  // K
    } else if i == 44 {
        seq![0x7Fu8, 0x40, 0x40, 0x40, 0x40]  // L
    } else if i == 45 {
        seq![0x7Fu8, 0x02, 0x0C, 0x02, 0x7F]  // M
    } else if i == 46 {
        seq![0x7Fu8, 0x04, 0x08, 0x10, 0x7F]  // N
    } else if i == 47 {
        seq![0x3Eu8, 0x41, 0x41, 0x41, 0x3E]  // O
    } else if i == 48 {
        seq![0x7Fu8, 0x09, 0x09, 0x09, 0x06]  // P
    } else if i == 49 {
        seq![0x3Eu8, 0x41, 0x51, 0x21, 0x5E]  // Q
    } else if i == 50 {
        seq![0x7Fu8, 0x09, 0x19, 0x29, 0x46]  // R
    } else if i == 51 {
        seq![0x46u8, 0x49, 0x49, 0x49, 0x31]  // S
    } else if i == 52 {
        seq![0x01u8, 0x01, 0x7F, 0x01, 0x01]  // T
    } else if i == 53 {
        seq![0x3Fu8, 0x40, 0x40, 0x40, 0x3F]  // U
    } else if i == 54 {
        seq![0x1Fu8, 0x20, 0x40, 0x20, 0x1F]  // V
    } else if i == 55 {
        seq![0x3Fu8, 0x40, 0x38, 0x40, 0x3F]  // W
    } else if i == 56 {
        seq![0x63u8, 0x14, 0x08, 0x14, 0x63]  // X
    } else if i == 57 {
        seq![0x07u8, 0x08, 0x70, 0x08, 0x07]  // Y
    } else if i == 58 {
        seq![0x61u8, 0x51, 0x49, 0x45, 0x43]  // Z
    } else if i == 59 {
        seq![0x00u8, 0x7F, 0x41, 0x41, 0x00]  // [
    } else if i == 60 {
        seq![0x02u8, 0x04, 0x08, 0x10, 0x20]  // backslash
    } else if i == 61 {
        seq![0x00u8, 0x41, 0x41, 0x7F, 0x00]  // ]
    } else if i == 62 {
        seq![0x04u8, 0x02, 0x01, 0x02, 0x04]  // ^
    } else if i == 63 {
        seq![0x40u8, 0x40, 0x40, 0x40, 0x40]  // underscore
    } else if i == 64 {
        seq![0x00u8, 0x01, 0x02, 0x04, 0x00]  // backtick
    } else if i == 65 {
        seq![0x20u8, 0x54, 0x54, 0x54, 0x78]  // a
    } else if i == 66 {
        seq![0x7Fu8, 0x48, 0x44, 0x44, 0x38]  // b
    } else if i == 67 {
        seq![0x38u8, 0x44, 0x44, 0x44, 0x20]  // c
    } else if i == 68 {
        seq![0x38u8, 0x44, 0x44, 0x48, 0x7F]  // d
    } else if i == 69 {
        seq![0x38u8, 0x54, 0x54, 0x54, 0x18]  // e
    } else if i == 70 {
        seq![0x08u8, 0x7E, 0x09, 0x01, 0x02]  // f
    } else if i == 71 {
        seq![0x0Cu8, 0x52, 0x52, 0x52, 0x3E]  // g
    } else if i == 72 {
        seq![0x7Fu8, 0x08, 0x04, 0x04, 0x78]  // h
    } else if i == 73 {
        seq![0x00u8, 0x44, 0x7D, 0x40, 0x00]  // i
    } else if i == 74 {
        seq![0x20u8, 0x40, 0x44, 0x3D, 0x00]  // j
    } else if i == 75 {
        seq![0x7Fu8, 0x10, 0x28, 0x44, 0x00]  // k
    } else if i == 76 {
        seq![0x00u8, 0x41, 0x7F, 0x40, 0x00]  // l
    } else if i == 77 {
        seq![0x7Cu8, 0x04, 0x18, 0x04, 0x78]  // m
    } else if i == 78 {
        seq![0x7Cu8, 0x08, 0x04, 0x04, 0x78]  // n
    } else if i == 79 {
        seq![0x38u8, 0x44, 0x44, 0x44, 0x38]  // o
    } else if i == 80 {
        seq![0x7Cu8, 0x14, 0x14, 0x14, 0x08]  // p
    } else if i == 81 {
        seq![0x08u8, 0x14, 0x14, 0x18, 0x7C]  // q
    } else if i == 82 {
        seq![0x7Cu8, 0x08, 0x04, 0x04, 0x08]  // r
    } else if i == 83 {
        seq![0x48u8, 0x54, 0x54, 0x54, 0x20]  // s
    } else if i == 84 {
        seq![0x04u8, 0x3F, 0x44, 0x40, 0x20]  // t
    } else if i == 85 {
        seq![0x3Cu8, 0x40, 0x40, 0x20, 0x7C]  // u
    } else if i == 86 {
        seq![0x1Cu8, 0x20, 0x40, 0x20, 0x1C]  // v
    } else if i == 87 {
        seq![0x3Cu8, 0x40, 0x30, 0x40, 0x3C]  // w
    } else if i == 88 {
        seq![0x44u8, 0x28, 0x10, 0x28, 0x44]  // x
    } else if i == 89 {
        seq![0x0Cu8, 0x50, 0x50, 0x50, 0x3C]  // y
    } else if i == 90 {
        seq![0x44u8, 0x64, 0x54, 0x4C, 0x44]  // z
    } else if i == 91 {
        seq![0x00u8, 0x08, 0x36, 0x41, 0x00]  // left brace
    } else if i == 92 {
        seq![0x00u8, 0x00, 0x7F, 0x00, 0x00]  // vertical bar
    } else if i == 93 {
        seq![0x00u8, 0x41, 0x36, 0x08, 0x00]  // right brace
    } else if i == 94 {
        seq![0x08u8, 0x08, 0x2A, 0x1C, 0x08]  // right arrow
    } else if i == 95 {
        seq![0x08u8, 0x1C, 0x2A, 0x08, 0x08]  // left arrow
    } else if i == 96 {
        seq![0x00u8, 0x02, 0x05, 0x02, 0x00]  // degree sign
    } else {
        seq![0x00u8, 0x00, 0x00, 0x00, 0x00]
    }
}

/// The table entry for an in-range code.
pub(crate) fn glyph_entry(code: u8) -> (g: [u8; 5])
    requires
        code < GLYPH_COUNT,
    ensures
        g@ == glyph_spec(code as int),
{
    let g: [u8; 5] = match code {
        0 => [0x00, 0x00, 0x00, 0x00, 0x00],
        1 => [0x00, 0x00, 0x5F, 0x00, 0x00],
        2 => [0x00, 0x07, 0x00, 0x07, 0x00],
        3 => [0x14, 0x7F, 0x14, 0x7F, 0x14],
        4 => [0x24, 0x2A, 0x7F, 0x2A, 0x12],
        5 => [0x23, 0x13, 0x08, 0x64, 0x62],
        6 => [0x36, 0x49, 0x55, 0x22, 0x50],
        7 => [0x00, 0x05, 0x03, 0x00, 0x00],
        8 => [0x00, 0x1C, 0x22, 0x41, 0x00],
        9 => [0x00, 0x41, 0x22, 0x1C, 0x00],
        10 => [0x14, 0x08, 0x3E, 0x08, 0x14],
        11 => [0x08, 0x08, 0x3E, 0x08, 0x08],
        12 => [0x00, 0x50, 0x30, 0x00, 0x00],
        13 => [0x08, 0x08, 0x08, 0x08, 0x08],
        14 => [0x00, 0x60, 0x60, 0x00, 0x00],
        15 => [0x20, 0x10, 0x08, 0x04, 0x02],
        16 => [0x3E, 0x51, 0x49, 0x45, 0x3E],
        17 => [0x00, 0x42, 0x7F, 0x40, 0x00],
        18 => [0x42, 0x61, 0x51, 0x49, 0x46],
        19 => [0x21, 0x41, 0x45, 0x4B, 0x31],
        20 => [0x18, 0x14, 0x12, 0x7F, 0x10],
        21 => [0x27, 0x45, 0x45, 0x45, 0x39],
        22 => [0x3C, 0x4A, 0x49, 0x49, 0x30],
        23 => [0x01, 0x71, 0x09, 0x05, 0x03],
        24 => [0x36, 0x49, 0x49, 0x49, 0x36],
        25 => [0x06, 0x49, 0x49, 0x29, 0x1E],
        26 => [0x00, 0x36, 0x36, 0x00, 0x00],
        27 => [0x00, 0x56, 0x36, 0x00, 0x00],
        28 => [0x08, 0x14, 0x22, 0x41, 0x00],
        29 => [0x14, 0x14, 0x14, 0x14, 0x14],
        30 => [0x00, 0x41, 0x22, 0x14, 0x08],
        31 => [0x02, 0x01, 0x51, 0x09, 0x06],
        32 => [0x32, 0x49, 0x79, 0x41, 0x3E],
        33 => [0x7E, 0x11, 0x11, 0x11, 0x7E],
        34 => [0x7F, 0x49, 0x49, 0x49, 0x36],
        35 => [0x3E, 0x41, 0x41, 0x41, 0x22],
        36 => [0x7F, 0x41, 0x41, 0x22, 0x1C],
        37 => [0x7F, 0x49, 0x49, 0x49, 0x41],
        38 => [0x7F, 0x09, 0x09, 0x09, 0x01],
        39 => [0x3E, 0x41, 0x49, 0x49, 0x7A],
        40 => [0x7F, 0x08, 0x08, 0x08, 0x7F],
        41 => [0x00, 0x41, 0x7F, 0x41, 0x00],
        42 => [0x20, 0x40, 0x41, 0x3F, 0x01],
        43 => [0x7F, 0x08, 0x14, 0x22, 0x41],
        44 => [0x7F, 0x40, 0x40, 0x40, 0x40],
        45 => [0x7F, 0x02, 0x0C, 0x02, 0x7F],
        46 => [0x7F, 0x04, 0x08, 0x10, 0x7F],
        47 => [0x3E, 0x41, 0x41, 0x41, 0x3E],
        48 => [0x7F, 0x09, 0x09, 0x09, 0x06],
        49 => [0x3E, 0x41, 0x51, 0x21, 0x5E],
        50 => [0x7F, 0x09, 0x19, 0x29, 0x46],
        51 => [0x46, 0x49, 0x49, 0x49, 0x31],
        52 => [0x01, 0x01, 0x7F, 0x01, 0x01],
        53 => [0x3F, 0x40, 0x40, 0x40, 0x3F],
        54 => [0x1F, 0x20, 0x40, 0x20, 0x1F],
        55 => [0x3F, 0x40, 0x38, 0x40, 0x3F],
        56 => [0x63, 0x14, 0x08, 0x14, 0x63],
        57 => [0x07, 0x08, 0x70, 0x08, 0x07],
        58 => [0x61, 0x51, 0x49, 0x45, 0x43],
        59 => [0x00, 0x7F, 0x41, 0x41, 0x00],
        60 => [0x02, 0x04, 0x08, 0x10, 0x20],
        61 => [0x00, 0x41, 0x41, 0x7F, 0x00],
        62 => [0x04, 0x02, 0x01, 0x02, 0x04],
        63 => [0x40, 0x40, 0x40, 0x40, 0x40],
        64 => [0x00, 0x01, 0x02, 0x04, 0x00],
        65 => [0x20, 0x54, 0x54, 0x54, 0x78],
        66 => [0x7F, 0x48, 0x44, 0x44, 0x38],
        67 => [0x38, 0x44, 0x44, 0x44, 0x20],
        68 => [0x38, 0x44, 0x44, 0x48, 0x7F],
        69 => [0x38, 0x54, 0x54, 0x54, 0x18],
        70 => [0x08, 0x7E, 0x09, 0x01, 0x02],
        71 => [0x0C, 0x52, 0x52, 0x52, 0x3E],
        72 => [0x7F, 0x08, 0x04, 0x04, 0x78],
        73 => [0x00, 0x44, 0x7D, 0x40, 0x00],
        74 => [0x20, 0x40, 0x44, 0x3D, 0x00],
        75 => [0x7F, 0x10, 0x28, 0x44, 0x00],
        76 => [0x00, 0x41, 0x7F, 0x40, 0x00],
        77 => [0x7C, 0x04, 0x18, 0x04, 0x78],
        78 => [0x7C, 0x08, 0x04, 0x04, 0x78],
        79 => [0x38, 0x44, 0x44, 0x44, 0x38],
        80 => [0x7C, 0x14, 0x14, 0x14, 0x08],
        81 => [0x08, 0x14, 0x14, 0x18, 0x7C],
        82 => [0x7C, 0x08, 0x04, 0x04, 0x08],
        83 => [0x48, 0x54, 0x54, 0x54, 0x20],
        84 => [0x04, 0x3F, 0x44, 0x40, 0x20],
        85 => [0x3C, 0x40, 0x40, 0x20, 0x7C],
        86 => [0x1C, 0x20, 0x40, 0x20, 0x1C],
        87 => [0x3C, 0x40, 0x30, 0x40, 0x3C],
        88 => [0x44, 0x28, 0x10, 0x28, 0x44],
        89 => [0x0C, 0x50, 0x50, 0x50, 0x3C],
        90 => [0x44, 0x64, 0x54, 0x4C, 0x44],
        91 => [0x00, 0x08, 0x36, 0x41, 0x00],
        92 => [0x00, 0x00, 0x7F, 0x00, 0x00],
        93 => [0x00, 0x41, 0x36, 0x08, 0x00],
        94 => [0x08, 0x08, 0x2A, 0x1C, 0x08],
        95 => [0x08, 0x1C, 0x2A, 0x08, 0x08],
        96 => [0x00, 0x02, 0x05, 0x02, 0x00],
        _ => [0x00, 0x00, 0x00, 0x00, 0x00],
    };
    proof {
        assert(g@ =~= glyph_spec(code as int));
    }
    g
}

/// Looks a character code up in the glyph table.
///
/// Total over codes `0..=96`; any other code is refused with
/// `InvalidCharacter`.
pub fn glyph(code: u8) -> (r: Result<[u8; 5], DisplayError>)
    ensures
        code < GLYPH_COUNT ==> (r matches Ok(g) && g@ == glyph_spec(code as int)),
        code >= GLYPH_COUNT ==> (r matches Err(e) && e == DisplayError::InvalidCharacter),
{
    if code >= GLYPH_COUNT {
        return Err(DisplayError::InvalidCharacter);
    }
    Ok(glyph_entry(code))
}

} // verus!
