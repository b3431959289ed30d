//! A fixed-capacity diagnostic text console.
//!
//! Text fed to the console is retained in a bounded ring of lines
//! ([`buffer::CharBuffer`]) and can be rasterized on demand into an
//! in-memory pixel surface ([`surface::Surface`]) through a fixed-width
//! bitmap font ([`font::MsxFont`]).

pub mod buffer;
pub mod font;
pub mod render;
pub mod surface;

use vstd::prelude::*;

verus! {

/// Width of the visible display area, in pixels.
pub const DISPLAY_WIDTH: usize = 480;

/// Height of the visible display area, in pixels.
pub const DISPLAY_HEIGHT: usize = 272;

/// Horizontal advance of one character cell, in pixels.
pub const CHAR_WIDTH: usize = 6;

/// Vertical advance of one character cell, in pixels.
pub const CHAR_HEIGHT: usize = 10;

/// Number of character columns per line, derived from the display width.
pub const COLS: usize = DISPLAY_WIDTH / CHAR_WIDTH;

/// Number of text rows retained by the console, derived from the display height.
pub const ROWS: usize = DISPLAY_HEIGHT / CHAR_HEIGHT;

} // verus!

