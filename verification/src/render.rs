//! Drawing the visible lines of a console onto a pixel surface.

use vstd::prelude::*;

use crate::buffer::visible;
use crate::buffer::CharBuffer;
use crate::font::paint_glyph;
use crate::font::Font;
use crate::font::GLYPH_SIZE;
use crate::surface::uniform;
use crate::surface::Surface;

verus! {

/// The color glyphs are painted in.
pub const FOREGROUND: u32 = 0xffff_ffff;

/// The color the surface is cleared to before painting.
pub const BACKGROUND: u32 = 0;

/// Whether character cell `k` of a line drawn at (`x`, `y`) is painted
/// at all: the cell must hold a visible byte, lie within the visible
/// column count, and its 8 x 8 bitmap must fit the surface.
pub open spec fn cell_painted(
    cw: int,
    stride: int,
    width: int,
    height: int,
    x: int,
    y: int,
    s: Seq<u8>,
    k: int,
) -> bool {
    &&& s[k] != 0
    &&& k < width / cw
    &&& x + k * cw + 8 <= stride
    &&& y + 8 <= height
}

/// The first `n` cells of one line painted at (`x`, `y`): cell `k` is
/// drawn `k` cell widths right of `x`, and is skipped entirely when it
/// is empty or clipped.
pub open spec fn paint_str_upto<F: Font>(
    f: &F,
    pix: Seq<u32>,
    stride: int,
    width: int,
    height: int,
    x: int,
    y: int,
    color: u32,
    s: Seq<u8>,
    n: nat,
) -> Seq<u32>
    decreases n,
{
    if n == 0 {
        pix
    } else {
        let prev = paint_str_upto(f, pix, stride, width, height, x, y, color, s, (n - 1) as nat);
        let k = (n - 1) as int;
        if cell_painted(f.spec_char_width(), stride, width, height, x, y, s, k) {
            paint_glyph(f.glyph_rows(s[k]), prev, stride, x + k * f.spec_char_width(), y, color)
        } else {
            prev
        }
    }
}

/// One whole line painted at (`x`, `y`).
pub open spec fn paint_str<F: Font>(
    f: &F,
    pix: Seq<u32>,
    stride: int,
    width: int,
    height: int,
    x: int,
    y: int,
    color: u32,
    s: Seq<u8>,
) -> Seq<u32> {
    paint_str_upto(f, pix, stride, width, height, x, y, color, s, s.len())
}

/// The first `n` visible lines painted over a cleared surface, line `k`
/// starting at pixel row `k` times the font's row advance.
pub open spec fn paint_rows_upto<F: Font>(
    f: &F,
    stride: int,
    width: int,
    height: int,
    lines: Seq<Seq<u8>>,
    n: nat,
) -> Seq<u32>
    decreases n,
{
    if n == 0 {
        uniform((stride * height) as nat, BACKGROUND)
    } else {
        paint_str(
            f,
            paint_rows_upto(f, stride, width, height, lines, (n - 1) as nat),
            stride,
            width,
            height,
            0,
            (n - 1) * f.spec_char_height(),
            FOREGROUND,
            lines[n - 1],
        )
    }
}

/// Every pixel of a surface after `lines` are drawn on a cleared
/// background.
pub open spec fn rendered<F: Font>(
    f: &F,
    stride: int,
    width: int,
    height: int,
    lines: Seq<Seq<u8>>,
) -> Seq<u32> {
    paint_rows_upto(f, stride, width, height, lines, lines.len())
}

/// A whole text row whose glyphs would overrun the bottom of the
/// surface is not painted at all.
proof fn lemma_row_clipped<F: Font>(
    f: &F,
    pix: Seq<u32>,
    stride: int,
    width: int,
    height: int,
    x: int,
    y: int,
    color: u32,
    s: Seq<u8>,
    n: nat,
)
    requires
        y + 8 > height,
    ensures
        paint_str_upto(f, pix, stride, width, height, x, y, color, s, n) == pix,
    decreases n,
{
    if n > 0 {
        lemma_row_clipped(f, pix, stride, width, height, x, y, color, s, (n - 1) as nat);
    }
}

/// Draw the occupied cells of one line of text at (`x`, `y`), skipping
/// empty cells and anything that would not fit the surface.
pub fn put_str<F: Font>(surf: &mut Surface, font: &F, s: &[u8], x: usize, y: usize, color: u32)
    requires
        font.wf(),
        old(surf).wf(),
    ensures
        final(surf).wf(),
        final(surf).spec_stride() == old(surf).spec_stride(),
        final(surf).spec_width() == old(surf).spec_width(),
        final(surf).spec_height() == old(surf).spec_height(),
        final(surf).grid() == paint_str(
            font,
            old(surf).grid(),
            old(surf).spec_stride(),
            old(surf).spec_width(),
            old(surf).spec_height(),
            x as int,
            y as int,
            color,
            s@,
        ),
{
    let ghost g0 = surf.grid();
    proof {
        font.wf_dims();
    }
    let cw = font.char_width();
    let cols = surf.width() / cw;
    let s_stride = surf.stride();
    let s_height = surf.height();
    let n = s.len();
    let mut k: usize = 0;
    while k < n
        invariant
            font.wf(),
            surf.wf(),
            cw == font.spec_char_width(),
            1 <= cw,
            surf.spec_stride() == old(surf).spec_stride(),
            surf.spec_width() == old(surf).spec_width(),
            surf.spec_height() == old(surf).spec_height(),
            s_stride == surf.spec_stride(),
            s_height == surf.spec_height(),
            cols == surf.spec_width() / font.spec_char_width(),
            g0 == old(surf).grid(),
            n == s@.len(),
            k <= n,
            surf.grid() == paint_str_upto(
                font,
                g0,
                surf.spec_stride(),
                surf.spec_width(),
                surf.spec_height(),
                x as int,
                y as int,
                color,
                s@,
                k as nat,
            ),
        decreases n - k,
    {
        let b = s[k];
        let ghost painted = cell_painted(
            cw as int,
            surf.spec_stride(),
            surf.spec_width(),
            surf.spec_height(),
            x as int,
            y as int,
            s@,
            k as int,
        );
        if b != 0 && k < cols && s_height >= GLYPH_SIZE && y <= s_height - GLYPH_SIZE {
            match k.checked_mul(cw) {
                Some(kcw) => {
                    match kcw.checked_add(x) {
                        Some(cx) => {
                            if s_stride >= GLYPH_SIZE && cx <= s_stride - GLYPH_SIZE {
                                font.put_char(surf, cx, y, color, b);
                                proof {
                                    assert(painted);
                                    assert(cx as int == x as int + k as int * cw as int);
                                }
                            } else {
                                proof {
                                    assert(!painted);
                                }
                            }
                        },
                        None => {
                            proof {
                                assert(x + k as int * cw as int + 8 > usize::MAX);
                                assert(!painted);
                            }
                        },
                    }
                },
                None => {
                    proof {
                        assert(k as int * cw as int > usize::MAX);
                        assert(!painted);
                    }
                },
            }
        } else {
            proof {
                assert(!painted);
            }
        }
        k = k + 1;
    }
}

/// Clear the whole surface, then draw every visible line of the
/// console, row `k` starting at pixel row `k` times the font's row
/// advance. The result depends only on the visible lines and the
/// surface's dimensions.
pub fn render<F: Font>(surf: &mut Surface, buf: &CharBuffer, font: &F)
    requires
        font.wf(),
        buf.wf(),
        old(surf).wf(),
    ensures
        final(surf).wf(),
        final(surf).spec_stride() == old(surf).spec_stride(),
        final(surf).spec_width() == old(surf).spec_width(),
        final(surf).spec_height() == old(surf).spec_height(),
        final(surf).grid() == rendered(
            font,
            old(surf).spec_stride(),
            old(surf).spec_width(),
            old(surf).spec_height(),
            visible(buf.model()),
        ),
{
    let ghost vis = visible(buf.model());
    proof {
        surf.lemma_dims();
    }
    surf.clear_screen(BACKGROUND);
    let ls = buf.lines();
    proof {
        font.wf_dims();
    }
    let ch = font.char_height();
    let s_height = surf.height();
    let count = ls.len();
    let mut k: usize = 0;
    while k < count
        invariant
            font.wf(),
            surf.wf(),
            ch == font.spec_char_height(),
            1 <= ch,
            surf.spec_stride() == old(surf).spec_stride(),
            surf.spec_width() == old(surf).spec_width(),
            surf.spec_height() == old(surf).spec_height(),
            s_height == surf.spec_height(),
            vis == visible(buf.model()),
            count == ls@.len(),
            ls@.len() == vis.len(),
            forall|i: int| 0 <= i < vis.len() ==> (#[trigger] ls@[i]).wf() && ls@[i]@ == vis[i],
            k <= count,
            surf.grid() == paint_rows_upto(
                font,
                surf.spec_stride(),
                surf.spec_width(),
                surf.spec_height(),
                vis,
                k as nat,
            ),
        decreases count - k,
    {
        let bytes = ls[k].text();
        match k.checked_mul(ch) {
            Some(y) => {
                put_str(surf, font, bytes.as_slice(), 0, y, FOREGROUND);
                proof {
                    assert(bytes@ == vis[k as int]);
                }
            },
            None => {
                proof {
                    assert(k as int * ch as int > usize::MAX);
                    lemma_row_clipped(
                        font,
                        surf.grid(),
                        surf.spec_stride(),
                        surf.spec_width(),
                        surf.spec_height(),
                        0,
                        k as int * ch as int,
                        FOREGROUND,
                        vis[k as int],
                        vis[k as int].len(),
                    );
                }
            },
        }
        k = k + 1;
    }
}

/// Render idempotence: what a render leaves on the surface is a
/// function of the visible lines and the surface's dimensions alone, so
/// two renders of the same lines — with no append in between, whatever
/// either surface held before — produce identical pixel contents.
pub proof fn lemma_render_idempotent<F: Font>(
    f: &F,
    stride: int,
    width: int,
    height: int,
    lines: Seq<Seq<u8>>,
    g1: Seq<u32>,
    g2: Seq<u32>,
)
    requires
        g1 == rendered(f, stride, width, height, lines),
        g2 == rendered(f, stride, width, height, lines),
    ensures
        g1 == g2,
{
}

} // verus!
