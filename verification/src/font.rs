//! Fixed-width bitmap fonts and pixel-exact glyph painting.

use vstd::prelude::*;

use crate::surface::Surface;
use crate::CHAR_HEIGHT;
use crate::CHAR_WIDTH;

verus! {

/// Glyph bitmaps are painted as squares of this many pixels per side.
pub const GLYPH_SIZE: usize = 8;

/// A fixed-width bitmap font: per-cell advance sizes plus an
/// 8 x 8 bit pattern for every byte value.
pub trait Font: Sized {
    /// The font's own consistency condition.
    spec fn wf(&self) -> bool;

    /// Horizontal advance of one character cell, in pixels.
    spec fn spec_char_width(&self) -> int;

    /// Vertical advance of one text row, in pixels.
    spec fn spec_char_height(&self) -> int;

    /// The 8 bitmap rows of the glyph for byte `c`, top to bottom; in
    /// each byte, bit 7 is the leftmost pixel.
    spec fn glyph_rows(&self, c: u8) -> Seq<u8>;

    /// A well-formed font advances by at least one pixel each way.
    proof fn wf_dims(&self)
        requires
            self.wf(),
        ensures
            self.spec_char_width() >= 1,
            self.spec_char_height() >= 1,
    ;

    /// Horizontal advance of one character cell, in pixels.
    fn char_width(&self) -> (w: usize)
        requires
            self.wf(),
        ensures
            w == self.spec_char_width(),
    ;

    /// Vertical advance of one text row, in pixels.
    fn char_height(&self) -> (h: usize)
        requires
            self.wf(),
        ensures
            h == self.spec_char_height(),
    ;

    /// Paint the glyph for byte `c` with its top-left corner at
    /// (`x`, `y`): set bits receive `color`, clear bits leave the
    /// surface untouched.
    fn put_char(&self, surf: &mut Surface, x: usize, y: usize, color: u32, c: u8)
        requires
            self.wf(),
            old(surf).wf(),
            x + GLYPH_SIZE <= old(surf).spec_stride(),
            y + GLYPH_SIZE <= old(surf).spec_height(),
        ensures
            final(surf).wf(),
            final(surf).spec_stride() == old(surf).spec_stride(),
            final(surf).spec_width() == old(surf).spec_width(),
            final(surf).spec_height() == old(surf).spec_height(),
            final(surf).grid() == paint_glyph(
                self.glyph_rows(c),
                old(surf).grid(),
                old(surf).spec_stride(),
                x as int,
                y as int,
                color,
            ),
    ;
}

/// Whether bitmap `rows` sets the pixel at (`row`, `col`) of its
/// 8 x 8 glyph: bit 7 of a row byte is the leftmost column.
pub open spec fn glyph_bit(rows: Seq<u8>, row: int, col: int) -> bool {
    &&& 0 <= row < 8
    &&& 0 <= col < 8
    &&& rows[row] & (128u8 >> (col as u8)) != 0
}

/// The first `n` bit positions of one glyph bitmap, applied to `pix`
/// in row-major order: position `p` covers surface cell
/// `(y + p / 8) * stride + (x + p % 8)` and recolors it exactly when
/// the bitmap sets that bit.
pub open spec fn paint_glyph_upto(
    rows: Seq<u8>,
    pix: Seq<u32>,
    stride: int,
    x: int,
    y: int,
    color: u32,
    n: nat,
) -> Seq<u32>
    decreases n,
{
    if n == 0 {
        pix
    } else {
        let prev = paint_glyph_upto(rows, pix, stride, x, y, color, (n - 1) as nat);
        let row = (n - 1) as int / 8;
        let col = (n - 1) as int % 8;
        if glyph_bit(rows, row, col) {
            prev.update((y + row) * stride + (x + col), color)
        } else {
            prev
        }
    }
}

/// One whole glyph: all 64 bit positions applied.
pub open spec fn paint_glyph(
    rows: Seq<u8>,
    pix: Seq<u32>,
    stride: int,
    x: int,
    y: int,
    color: u32,
) -> Seq<u32> {
    paint_glyph_upto(rows, pix, stride, x, y, color, 64)
}

/// The MSX system font: a monochrome table of 8 bytes for each of the
/// 256 byte values, bit 7 of each byte being the leftmost pixel of its
/// bitmap row.
pub struct MsxFont {
    table: Vec<u8>,
}

impl MsxFont {
    /// The raw glyph table, 8 bytes per byte value.
    pub closed spec fn spec_table(&self) -> Seq<u8> {
        self.table@
    }

    /// Build the font from its static bitmap resource: an 8-bit-wide,
    /// 256-entry black-and-white glyph image.
    pub fn new() -> (font: MsxFont)
        ensures
            font.wf(),
    {
        let data: [u8; 2048] = [
            0x00, 0x00, 0x00, 0x00, 0x00, 0x00, 0x00, 0x00, 0x3c, 0x42, 0xa5, 0x81,
            0xa5, 0x99, 0x42, 0x3c, 0x3c, 0x7e, 0xdb, 0xff, 0xff, 0xdb, 0x66, 0x3c,
            0x6c, 0xfe, 0xfe, 0xfe, 0x7c, 0x38, 0x10, 0x00, 0x10, 0x38, 0x7c, 0xfe,
            0x7c, 0x38, 0x10, 0x00, 0x10, 0x38, 0x54, 0xfe, 0x54, 0x10, 0x38, 0x00,
            0x10, 0x38, 0x7c, 0xfe, 0xfe, 0x10, 0x38, 0x00, 0x00, 0x00, 0x00, 0x30,
            0x30, 0x00, 0x00, 0x00, 0xff, 0xff, 0xff, 0xe7, 0xe7, 0xff, 0xff, 0xff,
            0x38, 0x44, 0x82, 0x82, 0x82, 0x44, 0x38, 0x00, 0xc7, 0xbb, 0x7d, 0x7d,
            0x7d, 0xbb, 0xc7, 0xff, 0x0f, 0x03, 0x05, 0x79, 0x88, 0x88, 0x88, 0x70,
            0x38, 0x44, 0x44, 0x44, 0x38, 0x10, 0x7c, 0x10, 0x30, 0x28, 0x24, 0x24,
            0x28, 0x20, 0xe0, 0xc0, 0x3c, 0x24, 0x3c, 0x24, 0x24, 0xe4, 0xdc, 0x18,
            0x10, 0x54, 0x38, 0xee, 0x38, 0x54, 0x10, 0x00, 0x10, 0x10, 0x10, 0x7c,
            0x10, 0x10, 0x10, 0x10, 0x10, 0x10, 0x10, 0xff, 0x00, 0x00, 0x00, 0x00,
            0x00, 0x00, 0x00, 0xff, 0x10, 0x10, 0x10, 0x10, 0x10, 0x10, 0x10, 0xf0,
            0x10, 0x10, 0x10, 0x10, 0x10, 0x10, 0x10, 0x1f, 0x10, 0x10, 0x10, 0x10,
            0x10, 0x10, 0x10, 0xff, 0x10, 0x10, 0x10, 0x10, 0x10, 0x10, 0x10, 0x10,
            0x10, 0x10, 0x10, 0x10, 0x00, 0x00, 0x00, 0xff, 0x00, 0x00, 0x00, 0x00,
            0x00, 0x00, 0x00, 0x1f, 0x10, 0x10, 0x10, 0x10, 0x00, 0x00, 0x00, 0xf0,
            0x10, 0x10, 0x10, 0x10, 0x10, 0x10, 0x10, 0x1f, 0x00, 0x00, 0x00, 0x00,
            0x10, 0x10, 0x10, 0xf0, 0x00, 0x00, 0x00, 0x00, 0x81, 0x42, 0x24, 0x18,
            0x18, 0x24, 0x42, 0x81, 0x01, 0x02, 0x04, 0x08, 0x10, 0x20, 0x40, 0x80,
            0x80, 0x40, 0x20, 0x10, 0x08, 0x04, 0x02, 0x01, 0x00, 0x10, 0x10, 0xff,
            0x10, 0x10, 0x00, 0x00, 0x00, 0x00, 0x00, 0x00, 0x00, 0x00, 0x00, 0x00,
            0x20, 0x20, 0x20, 0x20, 0x00, 0x00, 0x20, 0x00, 0x50, 0x50, 0x50, 0x00,
            0x00, 0x00, 0x00, 0x00, 0x50, 0x50, 0xf8, 0x50, 0xf8, 0x50, 0x50, 0x00,
            0x20, 0x78, 0xa0, 0x70, 0x28, 0xf0, 0x20, 0x00, 0xc0, 0xc8, 0x10, 0x20,
            0x40, 0x98, 0x18, 0x00, 0x40, 0xa0, 0x40, 0xa8, 0x90, 0x98, 0x60, 0x00,
            0x10, 0x20, 0x40, 0x00, 0x00, 0x00, 0x00, 0x00, 0x10, 0x20, 0x40, 0x40,
            0x40, 0x20, 0x10, 0x00, 0x40, 0x20, 0x10, 0x10, 0x10, 0x20, 0x40, 0x00,
            0x20, 0xa8, 0x70, 0x20, 0x70, 0xa8, 0x20, 0x00, 0x00, 0x20, 0x20, 0xf8,
            0x20, 0x20, 0x00, 0x00, 0x00, 0x00, 0x00, 0x00, 0x00, 0x20, 0x20, 0x40,
            0x00, 0x00, 0x00, 0x78, 0x00, 0x00, 0x00, 0x00, 0x00, 0x00, 0x00, 0x00,
            0x00, 0x60, 0x60, 0x00, 0x00, 0x00, 0x08, 0x10, 0x20, 0x40, 0x80, 0x00,
            0x70, 0x88, 0x98, 0xa8, 0xc8, 0x88, 0x70, 0x00, 0x20, 0x60, 0xa0, 0x20,
            0x20, 0x20, 0xf8, 0x00, 0x70, 0x88, 0x08, 0x10, 0x60, 0x80, 0xf8, 0x00,
            0x70, 0x88, 0x08, 0x30, 0x08, 0x88, 0x70, 0x00, 0x10, 0x30, 0x50, 0x90,
            0xf8, 0x10, 0x10, 0x00, 0xf8, 0x80, 0xe0, 0x10, 0x08, 0x10, 0xe0, 0x00,
            0x30, 0x40, 0x80, 0xf0, 0x88, 0x88, 0x70, 0x00, 0xf8, 0x88, 0x10, 0x20,
            0x20, 0x20, 0x20, 0x00, 0x70, 0x88, 0x88, 0x70, 0x88, 0x88, 0x70, 0x00,
            0x70, 0x88, 0x88, 0x78, 0x08, 0x10, 0x60, 0x00, 0x00, 0x00, 0x20, 0x00,
            0x00, 0x20, 0x00, 0x00, 0x00, 0x00, 0x20, 0x00, 0x00, 0x20, 0x20, 0x40,
            0x18, 0x30, 0x60, 0xc0, 0x60, 0x30, 0x18, 0x00, 0x00, 0x00, 0xf8, 0x00,
            0xf8, 0x00, 0x00, 0x00, 0xc0, 0x60, 0x30, 0x18, 0x30, 0x60, 0xc0, 0x00,
            0x70, 0x88, 0x08, 0x10, 0x20, 0x00, 0x20, 0x00, 0x70, 0x88, 0x08, 0x68,
            0xa8, 0xa8, 0x70, 0x00, 0x20, 0x50, 0x88, 0x88, 0xf8, 0x88, 0x88, 0x00,
            0xf0, 0x48, 0x48, 0x70, 0x48, 0x48, 0xf0, 0x00, 0x30, 0x48, 0x80, 0x80,
            0x80, 0x48, 0x30, 0x00, 0xe0, 0x50, 0x48, 0x48, 0x48, 0x50, 0xe0, 0x00,
            0xf8, 0x80, 0x80, 0xf0, 0x80, 0x80, 0xf8, 0x00, 0xf8, 0x80, 0x80, 0xf0,
            0x80, 0x80, 0x80, 0x00, 0x70, 0x88, 0x80, 0xb8, 0x88, 0x88, 0x70, 0x00,
            0x88, 0x88, 0x88, 0xf8, 0x88, 0x88, 0x88, 0x00, 0x70, 0x20, 0x20, 0x20,
            0x20, 0x20, 0x70, 0x00, 0x38, 0x10, 0x10, 0x10, 0x90, 0x90, 0x60, 0x00,
            0x88, 0x90, 0xa0, 0xc0, 0xa0, 0x90, 0x88, 0x00, 0x80, 0x80, 0x80, 0x80,
            0x80, 0x80, 0xf8, 0x00, 0x88, 0xd8, 0xa8, 0xa8, 0x88, 0x88, 0x88, 0x00,
            0x88, 0xc8, 0xc8, 0xa8, 0x98, 0x98, 0x88, 0x00, 0x70, 0x88, 0x88, 0x88,
            0x88, 0x88, 0x70, 0x00, 0xf0, 0x88, 0x88, 0xf0, 0x80, 0x80, 0x80, 0x00,
            0x70, 0x88, 0x88, 0x88, 0xa8, 0x90, 0x68, 0x00, 0xf0, 0x88, 0x88, 0xf0,
            0xa0, 0x90, 0x88, 0x00, 0x70, 0x88, 0x80, 0x70, 0x08, 0x88, 0x70, 0x00,
            0xf8, 0x20, 0x20, 0x20, 0x20, 0x20, 0x20, 0x00, 0x88, 0x88, 0x88, 0x88,
            0x88, 0x88, 0x70, 0x00, 0x88, 0x88, 0x88, 0x88, 0x50, 0x50, 0x20, 0x00,
            0x88, 0x88, 0x88, 0xa8, 0xa8, 0xd8, 0x88, 0x00, 0x88, 0x88, 0x50, 0x20,
            0x50, 0x88, 0x88, 0x00, 0x88, 0x88, 0x88, 0x70, 0x20, 0x20, 0x20, 0x00,
            0xf8, 0x08, 0x10, 0x20, 0x40, 0x80, 0xf8, 0x00, 0x70, 0x40, 0x40, 0x40,
            0x40, 0x40, 0x70, 0x00, 0x00, 0x00, 0x80, 0x40, 0x20, 0x10, 0x08, 0x00,
            0x70, 0x10, 0x10, 0x10, 0x10, 0x10, 0x70, 0x00, 0x20, 0x50, 0x88, 0x00,
            0x00, 0x00, 0x00, 0x00, 0x00, 0x00, 0x00, 0x00, 0x00, 0x00, 0xf8, 0x00,
            0x40, 0x20, 0x10, 0x00, 0x00, 0x00, 0x00, 0x00, 0x00, 0x00, 0x70, 0x08,
            0x78, 0x88, 0x78, 0x00, 0x80, 0x80, 0xb0, 0xc8, 0x88, 0xc8, 0xb0, 0x00,
            0x00, 0x00, 0x70, 0x88, 0x80, 0x88, 0x70, 0x00, 0x08, 0x08, 0x68, 0x98,
            0x88, 0x98, 0x68, 0x00, 0x00, 0x00, 0x70, 0x88, 0xf8, 0x80, 0x70, 0x00,
            0x10, 0x28, 0x20, 0xf8, 0x20, 0x20, 0x20, 0x00, 0x00, 0x00, 0x68, 0x98,
            0x98, 0x68, 0x08, 0x70, 0x80, 0x80, 0xf0, 0x88, 0x88, 0x88, 0x88, 0x00,
            0x20, 0x00, 0x60, 0x20, 0x20, 0x20, 0x70, 0x00, 0x10, 0x00, 0x30, 0x10,
            0x10, 0x10, 0x90, 0x60, 0x40, 0x40, 0x48, 0x50, 0x60, 0x50, 0x48, 0x00,
            0x60, 0x20, 0x20, 0x20, 0x20, 0x20, 0x70, 0x00, 0x00, 0x00, 0xd0, 0xa8,
            0xa8, 0xa8, 0xa8, 0x00, 0x00, 0x00, 0xb0, 0xc8, 0x88, 0x88, 0x88, 0x00,
            0x00, 0x00, 0x70, 0x88, 0x88, 0x88, 0x70, 0x00, 0x00, 0x00, 0xb0, 0xc8,
            0xc8, 0xb0, 0x80, 0x80, 0x00, 0x00, 0x68, 0x98, 0x98, 0x68, 0x08, 0x08,
            0x00, 0x00, 0xb0, 0xc8, 0x80, 0x80, 0x80, 0x00, 0x00, 0x00, 0x78, 0x80,
            0xf0, 0x08, 0xf0, 0x00, 0x40, 0x40, 0xf0, 0x40, 0x40, 0x48, 0x30, 0x00,
            0x00, 0x00, 0x90, 0x90, 0x90, 0x90, 0x68, 0x00, 0x00, 0x00, 0x88, 0x88,
            0x88, 0x50, 0x20, 0x00, 0x00, 0x00, 0x88, 0xa8, 0xa8, 0xa8, 0x50, 0x00,
            0x00, 0x00, 0x88, 0x50, 0x20, 0x50, 0x88, 0x00, 0x00, 0x00, 0x88, 0x88,
            0x98, 0x68, 0x08, 0x70, 0x00, 0x00, 0xf8, 0x10, 0x20, 0x40, 0xf8, 0x00,
            0x18, 0x20, 0x20, 0x40, 0x20, 0x20, 0x18, 0x00, 0x20, 0x20, 0x20, 0x00,
            0x20, 0x20, 0x20, 0x00, 0xc0, 0x20, 0x20, 0x10, 0x20, 0x20, 0xc0, 0x00,
            0x40, 0xa8, 0x10, 0x00, 0x00, 0x00, 0x00, 0x00, 0x00, 0x00, 0x20, 0x50,
            0xf8, 0x00, 0x00, 0x00, 0x70, 0x88, 0x80, 0x80, 0x88, 0x70, 0x20, 0x60,
            0x90, 0x00, 0x00, 0x90, 0x90, 0x90, 0x68, 0x00, 0x10, 0x20, 0x70, 0x88,
            0xf8, 0x80, 0x70, 0x00, 0x20, 0x50, 0x70, 0x08, 0x78, 0x88, 0x78, 0x00,
            0x48, 0x00, 0x70, 0x08, 0x78, 0x88, 0x78, 0x00, 0x20, 0x10, 0x70, 0x08,
            0x78, 0x88, 0x78, 0x00, 0x20, 0x00, 0x70, 0x08, 0x78, 0x88, 0x78, 0x00,
            0x00, 0x70, 0x80, 0x80, 0x80, 0x70, 0x10, 0x60, 0x20, 0x50, 0x70, 0x88,
            0xf8, 0x80, 0x70, 0x00, 0x50, 0x00, 0x70, 0x88, 0xf8, 0x80, 0x70, 0x00,
            0x20, 0x10, 0x70, 0x88, 0xf8, 0x80, 0x70, 0x00, 0x50, 0x00, 0x00, 0x60,
            0x20, 0x20, 0x70, 0x00, 0x20, 0x50, 0x00, 0x60, 0x20, 0x20, 0x70, 0x00,
            0x40, 0x20, 0x00, 0x60, 0x20, 0x20, 0x70, 0x00, 0x50, 0x00, 0x20, 0x50,
            0x88, 0xf8, 0x88, 0x00, 0x20, 0x00, 0x20, 0x50, 0x88, 0xf8, 0x88, 0x00,
            0x10, 0x20, 0xf8, 0x80, 0xf0, 0x80, 0xf8, 0x00, 0x00, 0x00, 0x6c, 0x12,
            0x7e, 0x90, 0x6e, 0x00, 0x3e, 0x50, 0x90, 0x9c, 0xf0, 0x90, 0x9e, 0x00,
            0x60, 0x90, 0x00, 0x60, 0x90, 0x90, 0x60, 0x00, 0x90, 0x00, 0x00, 0x60,
            0x90, 0x90, 0x60, 0x00, 0x40, 0x20, 0x00, 0x60, 0x90, 0x90, 0x60, 0x00,
            0x40, 0xa0, 0x00, 0xa0, 0xa0, 0xa0, 0x50, 0x00, 0x40, 0x20, 0x00, 0xa0,
            0xa0, 0xa0, 0x50, 0x00, 0x90, 0x00, 0x90, 0x90, 0xb0, 0x50, 0x10, 0xe0,
            0x50, 0x00, 0x70, 0x88, 0x88, 0x88, 0x70, 0x00, 0x50, 0x00, 0x88, 0x88,
            0x88, 0x88, 0x70, 0x00, 0x20, 0x20, 0x78, 0x80, 0x80, 0x78, 0x20, 0x20,
            0x18, 0x24, 0x20, 0xf8, 0x20, 0xe2, 0x5c, 0x00, 0x88, 0x50, 0x20, 0xf8,
            0x20, 0xf8, 0x20, 0x00, 0xc0, 0xa0, 0xa0, 0xc8, 0x9c, 0x88, 0x88, 0x8c,
            0x18, 0x20, 0x20, 0xf8, 0x20, 0x20, 0x20, 0x40, 0x10, 0x20, 0x70, 0x08,
            0x78, 0x88, 0x78, 0x00, 0x10, 0x20, 0x00, 0x60, 0x20, 0x20, 0x70, 0x00,
            0x20, 0x40, 0x00, 0x60, 0x90, 0x90, 0x60, 0x00, 0x20, 0x40, 0x00, 0x90,
            0x90, 0x90, 0x68, 0x00, 0x50, 0xa0, 0x00, 0xa0, 0xd0, 0x90, 0x90, 0x00,
            0x28, 0x50, 0x00, 0xc8, 0xa8, 0x98, 0x88, 0x00, 0x00, 0x70, 0x08, 0x78,
            0x88, 0x78, 0x00, 0xf8, 0x00, 0x60, 0x90, 0x90, 0x90, 0x60, 0x00, 0xf0,
            0x20, 0x00, 0x20, 0x40, 0x80, 0x88, 0x70, 0x00, 0x00, 0x00, 0x00, 0xf8,
            0x80, 0x80, 0x00, 0x00, 0x00, 0x00, 0x00, 0xf8, 0x08, 0x08, 0x00, 0x00,
            0x84, 0x88, 0x90, 0xa8, 0x54, 0x84, 0x08, 0x1c, 0x84, 0x88, 0x90, 0xa8,
            0x58, 0xa8, 0x3c, 0x08, 0x20, 0x00, 0x00, 0x20, 0x20, 0x20, 0x20, 0x00,
            0x00, 0x00, 0x24, 0x48, 0x90, 0x48, 0x24, 0x00, 0x00, 0x00, 0x90, 0x48,
            0x24, 0x48, 0x90, 0x00, 0x28, 0x50, 0x20, 0x50, 0x88, 0xf8, 0x88, 0x00,
            0x28, 0x50, 0x70, 0x08, 0x78, 0x88, 0x78, 0x00, 0x28, 0x50, 0x00, 0x70,
            0x20, 0x20, 0x70, 0x00, 0x28, 0x50, 0x00, 0x20, 0x20, 0x20, 0x70, 0x00,
            0x28, 0x50, 0x00, 0x70, 0x88, 0x88, 0x70, 0x00, 0x50, 0xa0, 0x00, 0x60,
            0x90, 0x90, 0x60, 0x00, 0x28, 0x50, 0x00, 0x88, 0x88, 0x88, 0x70, 0x00,
            0x50, 0xa0, 0x00, 0xa0, 0xa0, 0xa0, 0x50, 0x00, 0xfc, 0x48, 0x48, 0x48,
            0xe8, 0x08, 0x50, 0x20, 0x00, 0x50, 0x00, 0x50, 0x50, 0x50, 0x10, 0x20,
            0xc0, 0x44, 0xc8, 0x54, 0xec, 0x54, 0x9e, 0x04, 0x10, 0xa8, 0x40, 0x00,
            0x00, 0x00, 0x00, 0x00, 0x00, 0x20, 0x50, 0x88, 0x50, 0x20, 0x00, 0x00,
            0x88, 0x10, 0x20, 0x40, 0x80, 0x28, 0x00, 0x00, 0x7c, 0xa8, 0xa8, 0x68,
            0x28, 0x28, 0x28, 0x00, 0x38, 0x40, 0x30, 0x48, 0x48, 0x30, 0x08, 0x70,
            0x00, 0x00, 0x00, 0x00, 0x00, 0x00, 0xff, 0xff, 0xf0, 0xf0, 0xf0, 0xf0,
            0x0f, 0x0f, 0x0f, 0x0f, 0x00, 0x00, 0xff, 0xff, 0xff, 0xff, 0xff, 0xff,
            0xff, 0xff, 0x00, 0x00, 0x00, 0x00, 0x00, 0x00, 0x00, 0x00, 0x00, 0x3c,
            0x3c, 0x00, 0x00, 0x00, 0xff, 0xff, 0xff, 0xff, 0xff, 0xff, 0x00, 0x00,
            0xc0, 0xc0, 0xc0, 0xc0, 0xc0, 0xc0, 0xc0, 0xc0, 0x0f, 0x0f, 0x0f, 0x0f,
            0xf0, 0xf0, 0xf0, 0xf0, 0xfc, 0xfc, 0xfc, 0xfc, 0xfc, 0xfc, 0xfc, 0xfc,
            0x03, 0x03, 0x03, 0x03, 0x03, 0x03, 0x03, 0x03, 0x3f, 0x3f, 0x3f, 0x3f,
            0x3f, 0x3f, 0x3f, 0x3f, 0x11, 0x22, 0x44, 0x88, 0x11, 0x22, 0x44, 0x88,
            0x88, 0x44, 0x22, 0x11, 0x88, 0x44, 0x22, 0x11, 0xfe, 0x7c, 0x38, 0x10,
            0x00, 0x00, 0x00, 0x00, 0x00, 0x00, 0x00, 0x00, 0x10, 0x38, 0x7c, 0xfe,
            0x80, 0xc0, 0xe0, 0xf0, 0xe0, 0xc0, 0x80, 0x00, 0x01, 0x03, 0x07, 0x0f,
            0x07, 0x03, 0x01, 0x00, 0xff, 0x7e, 0x3c, 0x18, 0x18, 0x3c, 0x7e, 0xff,
            0x81, 0xc3, 0xe7, 0xff, 0xff, 0xe7, 0xc3, 0x81, 0xf0, 0xf0, 0xf0, 0xf0,
            0x00, 0x00, 0x00, 0x00, 0x00, 0x00, 0x00, 0x00, 0x0f, 0x0f, 0x0f, 0x0f,
            0x0f, 0x0f, 0x0f, 0x0f, 0x00, 0x00, 0x00, 0x00, 0x00, 0x00, 0x00, 0x00,
            0xf0, 0xf0, 0xf0, 0xf0, 0x33, 0x33, 0xcc, 0xcc, 0x33, 0x33, 0xcc, 0xcc,
            0x00, 0x20, 0x20, 0x50, 0x50, 0x88, 0xf8, 0x00, 0x20, 0x20, 0x70, 0x20,
            0x70, 0x20, 0x20, 0x00, 0x00, 0x00, 0x00, 0x50, 0x88, 0xa8, 0x50, 0x00,
            0xff, 0xff, 0xff, 0xff, 0xff, 0xff, 0xff, 0xff, 0x00, 0x00, 0x00, 0x00,
            0xff, 0xff, 0xff, 0xff, 0xf0, 0xf0, 0xf0, 0xf0, 0xf0, 0xf0, 0xf0, 0xf0,
            0x0f, 0x0f, 0x0f, 0x0f, 0x0f, 0x0f, 0x0f, 0x0f, 0xff, 0xff, 0xff, 0xff,
            0x00, 0x00, 0x00, 0x00, 0x00, 0x00, 0x68, 0x90, 0x90, 0x90, 0x68, 0x00,
            0x30, 0x48, 0x48, 0x70, 0x48, 0x48, 0x70, 0xc0, 0xf8, 0x88, 0x80, 0x80,
            0x80, 0x80, 0x80, 0x00, 0xf8, 0x50, 0x50, 0x50, 0x50, 0x50, 0x98, 0x00,
            0xf8, 0x88, 0x40, 0x20, 0x40, 0x88, 0xf8, 0x00, 0x00, 0x00, 0x78, 0x90,
            0x90, 0x90, 0x60, 0x00, 0x00, 0x50, 0x50, 0x50, 0x50, 0x68, 0x80, 0x80,
            0x00, 0x50, 0xa0, 0x20, 0x20, 0x20, 0x20, 0x00, 0xf8, 0x20, 0x70, 0xa8,
            0xa8, 0x70, 0x20, 0xf8, 0x20, 0x50, 0x88, 0xf8, 0x88, 0x50, 0x20, 0x00,
            0x70, 0x88, 0x88, 0x88, 0x50, 0x50, 0xd8, 0x00, 0x30, 0x40, 0x40, 0x20,
            0x50, 0x50, 0x50, 0x20, 0x00, 0x00, 0x00, 0x50, 0xa8, 0xa8, 0x50, 0x00,
            0x08, 0x70, 0xa8, 0xa8, 0xa8, 0x70, 0x80, 0x00, 0x38, 0x40, 0x80, 0xf8,
            0x80, 0x40, 0x38, 0x00, 0x70, 0x88, 0x88, 0x88, 0x88, 0x88, 0x88, 0x00,
            0x00, 0xf8, 0x00, 0xf8, 0x00, 0xf8, 0x00, 0x00, 0x20, 0x20, 0xf8, 0x20,
            0x20, 0x00, 0xf8, 0x00, 0xc0, 0x30, 0x08, 0x30, 0xc0, 0x00, 0xf8, 0x00,
            0x18, 0x60, 0x80, 0x60, 0x18, 0x00, 0xf8, 0x00, 0x10, 0x28, 0x20, 0x20,
            0x20, 0x20, 0x20, 0x20, 0x20, 0x20, 0x20, 0x20, 0x20, 0x20, 0xa0, 0x40,
            0x00, 0x20, 0x00, 0xf8, 0x00, 0x20, 0x00, 0x00, 0x00, 0x50, 0xa0, 0x00,
            0x50, 0xa0, 0x00, 0x00, 0x00, 0x18, 0x24, 0x24, 0x18, 0x00, 0x00, 0x00,
            0x00, 0x30, 0x78, 0x78, 0x30, 0x00, 0x00, 0x00, 0x00, 0x00, 0x00, 0x00,
            0x30, 0x00, 0x00, 0x00, 0x3e, 0x20, 0x20, 0x20, 0xa0, 0x60, 0x20, 0x00,
            0xa0, 0x50, 0x50, 0x50, 0x00, 0x00, 0x00, 0x00, 0x40, 0xa0, 0x20, 0x40,
            0xe0, 0x00, 0x00, 0x00, 0x00, 0x38, 0x38, 0x38, 0x38, 0x38, 0x38, 0x00,
            0x00, 0x00, 0x00, 0x00, 0x00, 0x00, 0x00, 0x00,
        ];
        let mut table: Vec<u8> = Vec::new();
        let mut i: usize = 0;
        while i < 2048
            invariant
                i <= 2048,
                table@.len() == i,
            decreases 2048 - i,
        {
            table.push(data[i]);
            i = i + 1;
        }
        MsxFont { table }
    }

    /// One row of the bitmap for byte `c`.
    pub fn glyph_row(&self, c: u8, r: usize) -> (b: u8)
        requires
            self.wf(),
            r < GLYPH_SIZE,
        ensures
            b == self.glyph_rows(c)[r as int],
    {
        self.table[(c as usize) * 8 + r]
    }
}

impl Font for MsxFont {
    closed spec fn wf(&self) -> bool {
        self.table@.len() == 2048
    }

    closed spec fn spec_char_width(&self) -> int {
        CHAR_WIDTH as int
    }

    closed spec fn spec_char_height(&self) -> int {
        CHAR_HEIGHT as int
    }

    closed spec fn glyph_rows(&self, c: u8) -> Seq<u8> {
        self.table@.subrange(c as int * 8, c as int * 8 + 8)
    }

    proof fn wf_dims(&self) {
    }

    fn char_width(&self) -> (w: usize) {
        CHAR_WIDTH
    }

    fn char_height(&self) -> (h: usize) {
        CHAR_HEIGHT
    }

    fn put_char(&self, surf: &mut Surface, x: usize, y: usize, color: u32, c: u8) {
        let ghost g0 = surf.grid();
        let ghost stride0 = surf.spec_stride();
        let s_stride = surf.stride();
        let s_height = surf.height();
        let mut i: usize = 0;
        while i < GLYPH_SIZE
            invariant
                i <= GLYPH_SIZE,
                self.wf(),
                surf.wf(),
                surf.spec_stride() == stride0,
                surf.spec_stride() == old(surf).spec_stride(),
                surf.spec_width() == old(surf).spec_width(),
                surf.spec_height() == old(surf).spec_height(),
                g0 == old(surf).grid(),
                s_stride == surf.spec_stride(),
                s_height == surf.spec_height(),
                x + GLYPH_SIZE <= s_stride,
                y + GLYPH_SIZE <= s_height,
                surf.grid() == paint_glyph_upto(
                    self.glyph_rows(c),
                    g0,
                    stride0,
                    x as int,
                    y as int,
                    color,
                    (i * 8) as nat,
                ),
            decreases GLYPH_SIZE - i,
        {
            let rowbits = self.glyph_row(c, i);
            let mut j: usize = 0;
            while j < GLYPH_SIZE
                invariant
                    i < GLYPH_SIZE,
                    j <= GLYPH_SIZE,
                    self.wf(),
                    surf.wf(),
                    surf.spec_stride() == stride0,
                    surf.spec_stride() == old(surf).spec_stride(),
                    surf.spec_width() == old(surf).spec_width(),
                    surf.spec_height() == old(surf).spec_height(),
                    g0 == old(surf).grid(),
                    s_stride == surf.spec_stride(),
                    s_height == surf.spec_height(),
                    x + GLYPH_SIZE <= s_stride,
                    y + GLYPH_SIZE <= s_height,
                    rowbits == self.glyph_rows(c)[i as int],
                    surf.grid() == paint_glyph_upto(
                        self.glyph_rows(c),
                        g0,
                        stride0,
                        x as int,
                        y as int,
                        color,
                        (i * 8 + j) as nat,
                    ),
                decreases GLYPH_SIZE - j,
            {
                proof {
                    vstd::arithmetic::div_mod::lemma_fundamental_div_mod_converse(
                        (i * 8 + j) as int,
                        8,
                        i as int,
                        j as int,
                    );
                }
                let mask: u8 = 128u8 >> (j as u8);
                if rowbits & mask != 0 {
                    surf.put_pixel(x + j, y + i, color);
                }
                j = j + 1;
            }
            i = i + 1;
        }
    }
}

} // verus!
