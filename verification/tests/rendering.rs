//! Pixel-level behavior of the glyph renderer.

use text_console::buffer::CharBuffer;
use text_console::font::MsxFont;
use text_console::render::{put_str, render, BACKGROUND, FOREGROUND};
use text_console::surface::Surface;
use text_console::{CHAR_HEIGHT, CHAR_WIDTH, COLS, DISPLAY_HEIGHT, DISPLAY_WIDTH, ROWS};

/// The stride used by the original hardware layout: wider than the
/// visible width for alignment.
const STRIDE: usize = 512;

fn display_surface() -> Surface {
    Surface::new(STRIDE, DISPLAY_WIDTH, DISPLAY_HEIGHT, 0)
}

/// Check one 8 x 8 glyph region against its expected bitmap rows.
fn assert_glyph(surf: &Surface, x0: usize, y0: usize, rows: [u8; 8]) {
    assert_glyph_cols(surf, x0, y0, rows, 8);
}

/// Check the leftmost `ncols` columns of a glyph region — glyph cells
/// advance 6 pixels but bitmaps are 8 wide, so a right-hand neighbour
/// may own the last two columns.
fn assert_glyph_cols(surf: &Surface, x0: usize, y0: usize, rows: [u8; 8], ncols: usize) {
    for (i, row) in rows.iter().enumerate() {
        for j in 0..ncols {
            let expected = if row & (0x80u8 >> j) != 0 {
                FOREGROUND
            } else {
                BACKGROUND
            };
            assert_eq!(
                surf.pixel_at(x0 + j, y0 + i),
                expected,
                "pixel ({}, {})",
                x0 + j,
                y0 + i
            );
        }
    }
}

#[test]
fn derived_dimensions_match_the_display() {
    assert_eq!(COLS, 80);
    assert_eq!(ROWS, 27);
    assert_eq!(DISPLAY_WIDTH / CHAR_WIDTH, COLS);
    assert_eq!(DISPLAY_HEIGHT / CHAR_HEIGHT, ROWS);
}

#[test]
fn surface_reads_back_written_pixels() {
    let mut surf = Surface::new(16, 12, 4, 7);
    assert_eq!(surf.stride(), 16);
    assert_eq!(surf.width(), 12);
    assert_eq!(surf.height(), 4);
    assert_eq!(surf.pixel_at(3, 2), 7);
    surf.put_pixel(3, 2, 99);
    assert_eq!(surf.pixel_at(3, 2), 99);
    assert_eq!(surf.pixel_at(4, 2), 7);
    surf.clear_screen(0);
    assert_eq!(surf.pixel_at(3, 2), 0);
}

#[test]
fn glyph_table_entries_are_pinned() {
    let font = MsxFont::new();
    // Byte value 200 in the MSX table: a 6-pixel-wide solid block.
    for r in 0..8 {
        assert_eq!(font.glyph_row(200, r), 0xfc);
    }
    // The lowercase letter h.
    assert_eq!(font.glyph_row(b'h', 0), 0x80);
    assert_eq!(font.glyph_row(b'h', 2), 0xf0);
    assert_eq!(font.glyph_row(b'h', 7), 0x00);
    // A space has no pixels at all.
    for r in 0..8 {
        assert_eq!(font.glyph_row(b' ', r), 0x00);
    }
}

#[test]
fn render_draws_hello_world_on_two_rows() {
    let mut buf = CharBuffer::new();
    buf.write_str("hello\nworld");
    let font = MsxFont::new();
    let mut surf = display_surface();
    render(&mut surf, &buf, &font);

    let lines = buf.lines();
    assert_eq!(lines.len(), 2);
    assert_eq!(lines[0].text(), b"hello".to_vec());
    assert_eq!(lines[1].text(), b"world".to_vec());

    // The h of hello occupies the top-left glyph cell; the e that
    // follows owns the overlap columns.
    assert_glyph_cols(&surf, 0, 0, [0x80, 0x80, 0xf0, 0x88, 0x88, 0x88, 0x88, 0x00], 6);

    // Rows 8 and 9 lie below the glyph bitmaps of text row 0.
    for y in 8..CHAR_HEIGHT {
        for x in 0..DISPLAY_WIDTH {
            assert_eq!(surf.pixel_at(x, y), BACKGROUND);
        }
    }

    // The glyphs of world start exactly at pixel row 1 * CHAR_HEIGHT.
    // The w bitmap is blank in its first two rows and first sets
    // pixels in its third: columns 0 and 4 of 0x88.
    assert_eq!(surf.pixel_at(0, CHAR_HEIGHT + 2), FOREGROUND);
    assert_eq!(surf.pixel_at(4, CHAR_HEIGHT + 2), FOREGROUND);
    assert_eq!(surf.pixel_at(1, CHAR_HEIGHT + 2), BACKGROUND);
    // The o that follows overlaps into column 7 at that row (0x70).
    assert_eq!(surf.pixel_at(CHAR_WIDTH + 1, CHAR_HEIGHT + 2), FOREGROUND);
}

#[test]
fn render_twice_gives_identical_pixels() {
    let mut buf = CharBuffer::new();
    buf.write_str("idempotent?\nyes\t[42]");
    let font = MsxFont::new();
    let mut first = display_surface();
    render(&mut first, &buf, &font);
    let mut second = display_surface();
    // Start the second surface from different contents on purpose.
    second.clear_screen(0xdead_beef);
    render(&mut second, &buf, &font);
    for y in 0..DISPLAY_HEIGHT {
        for x in 0..STRIDE {
            assert_eq!(first.pixel_at(x, y), second.pixel_at(x, y));
        }
    }
}

#[test]
fn tab_and_spaces_render_identically() {
    let font = MsxFont::new();

    let mut with_tab = CharBuffer::new();
    with_tab.write_str("a\tb");
    let mut tab_surf = display_surface();
    render(&mut tab_surf, &with_tab, &font);

    let mut with_spaces = CharBuffer::new();
    with_spaces.write_str("a    b");
    let mut space_surf = display_surface();
    render(&mut space_surf, &with_spaces, &font);

    for y in 0..DISPLAY_HEIGHT {
        for x in 0..STRIDE {
            assert_eq!(tab_surf.pixel_at(x, y), space_surf.pixel_at(x, y));
        }
    }
    // The b lands five cells in.
    assert_glyph(
        &tab_surf,
        5 * CHAR_WIDTH,
        0,
        [0x80, 0x80, 0xb0, 0xc8, 0x88, 0xc8, 0xb0, 0x00],
    );
}

#[test]
fn byte_200_renders_its_table_entry() {
    let mut buf = CharBuffer::new();
    buf.add(200);
    let font = MsxFont::new();
    let mut surf = display_surface();
    render(&mut surf, &buf, &font);
    // Table entry 200 is 0xfc in every row: a solid 6 x 8 block.
    assert_glyph(&surf, 0, 0, [0xfc; 8]);
}

#[test]
fn sentinel_cells_leave_the_background() {
    let mut buf = CharBuffer::new();
    buf.add(0);
    buf.add(0);
    let font = MsxFont::new();
    let mut surf = display_surface();
    render(&mut surf, &buf, &font);
    for y in 0..DISPLAY_HEIGHT {
        for x in 0..STRIDE {
            assert_eq!(surf.pixel_at(x, y), BACKGROUND);
        }
    }
}

#[test]
fn rows_below_the_surface_are_clipped() {
    let mut buf = CharBuffer::new();
    buf.write_str("a\nb");
    let font = MsxFont::new();
    // Tall enough for one text row only: the second row, at pixel row
    // 10, would overrun a 16-pixel-high surface and is skipped whole.
    let mut surf = Surface::new(16, 12, 16, 0);
    render(&mut surf, &buf, &font);
    assert_glyph(&surf, 0, 0, [0x00, 0x00, 0x70, 0x08, 0x78, 0x88, 0x78, 0x00]);
    for y in 10..16 {
        for x in 0..16 {
            assert_eq!(surf.pixel_at(x, y), BACKGROUND);
        }
    }
}

#[test]
fn columns_beyond_the_visible_width_are_clipped() {
    let mut buf = CharBuffer::new();
    buf.write_str("abc");
    let font = MsxFont::new();
    // Two visible columns: the c, at cell 2, is skipped.
    let mut surf = Surface::new(16, 12, 16, 0);
    render(&mut surf, &buf, &font);
    for y in 0..8 {
        for x in 12..16 {
            assert_eq!(surf.pixel_at(x, y), BACKGROUND);
        }
    }
}

#[test]
fn put_str_draws_at_the_given_offset() {
    let font = MsxFont::new();
    let mut surf = Surface::new(32, 32, 16, 0);
    put_str(&mut surf, &font, b"h", 9, 3, 0x1234_5678);
    // Row 2 of the h bitmap is 0xf0: columns 0 to 3 set.
    for j in 0..4 {
        assert_eq!(surf.pixel_at(9 + j, 5), 0x1234_5678);
    }
    assert_eq!(surf.pixel_at(9 + 4, 5), 0);
    assert_eq!(surf.pixel_at(8, 5), 0);
}
