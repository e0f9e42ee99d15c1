//! Rendering engine for SSD1306-class monochrome character displays.
//!
//! The library turns row/column text requests into the exact controller
//! command and pixel byte sequences a 128x64 OLED panel expects, while a
//! per-cell cache suppresses writes that would not change the panel.
//! Sending the bytes over a physical bus is left to the caller.

use vstd::prelude::*;

pub mod cache;
pub mod driver;
pub mod encoder;
pub mod glyph;
pub mod letters;

verus! {

/// The ways a rendering request can be refused.
#[derive(Debug, Clone, Copy, PartialEq, Eq, Structural)]
pub enum DisplayError {
    /// A character code outside the glyph table's range.
    InvalidCharacter,
    /// A row or column outside the 8 x 21 text grid.
    IndexOutOfBounds,
    /// `clear` or `draw_text` called before `init`.
    NotInitialized,
}

} // verus!
