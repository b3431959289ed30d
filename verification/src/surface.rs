//! An in-memory pixel surface addressed by explicit 2D indexing.

use vstd::prelude::*;

verus! {

/// A uniform sequence: every cell holds the same color.
pub open spec fn uniform(len: nat, color: u32) -> Seq<u32> {
    Seq::new(len, |i: int| color)
}

/// A writable rectangle of 32-bit pixels. Consecutive rows are `stride`
/// pixels apart; only the leftmost `width` pixels of each row are
/// visible, the rest is alignment padding.
pub struct Surface {
    pixels: Vec<u32>,
    stride: usize,
    width: usize,
    height: usize,
}

impl Surface {
    /// The pixel cells, row-major with `stride` cells per row.
    pub closed spec fn grid(&self) -> Seq<u32> {
        self.pixels@
    }

    /// Distance between consecutive rows, in pixels.
    pub closed spec fn spec_stride(&self) -> int {
        self.stride as int
    }

    /// Visible width, in pixels.
    pub closed spec fn spec_width(&self) -> int {
        self.width as int
    }

    /// Height, in pixel rows.
    pub closed spec fn spec_height(&self) -> int {
        self.height as int
    }

    /// The storage covers `stride * height` cells and the visible width
    /// fits within the stride.
    pub closed spec fn wf(&self) -> bool {
        &&& self.pixels@.len() == self.stride * self.height
        &&& self.width <= self.stride
    }

    /// A well-formed surface's storage covers exactly `stride * height`
    /// cells, and its dimensions are machine-sized.
    pub proof fn lemma_dims(&self)
        requires
            self.wf(),
        ensures
            self.grid().len() == self.spec_stride() * self.spec_height(),
            0 <= self.spec_stride() <= usize::MAX,
            0 <= self.spec_width() <= self.spec_stride(),
            0 <= self.spec_height() <= usize::MAX,
    {
    }

    /// A fresh surface with every cell set to `color`.
    pub fn new(stride: usize, width: usize, height: usize, color: u32) -> (surf: Surface)
        requires
            width <= stride,
            stride * height <= usize::MAX,
        ensures
            surf.wf(),
            surf.spec_stride() == stride,
            surf.spec_width() == width,
            surf.spec_height() == height,
            surf.grid() == uniform((stride * height) as nat, color),
    {
        let len = stride * height;
        let mut pixels: Vec<u32> = Vec::new();
        let mut i: usize = 0;
        while i < len
            invariant
                i <= len,
                pixels@.len() == i,
                forall|j: int| 0 <= j < i ==> pixels@[j] == color,
            decreases len - i,
        {
            pixels.push(color);
            i = i + 1;
        }
        let surf = Surface { pixels, stride, width, height };
        proof {
            assert(surf.grid() =~= uniform((stride * height) as nat, color));
        }
        surf
    }

    /// Distance between consecutive rows, in pixels.
    pub fn stride(&self) -> (s: usize)
        ensures
            s == self.spec_stride(),
    {
        self.stride
    }

    /// Visible width, in pixels.
    pub fn width(&self) -> (w: usize)
        ensures
            w == self.spec_width(),
    {
        self.width
    }

    /// Height, in pixel rows.
    pub fn height(&self) -> (h: usize)
        ensures
            h == self.spec_height(),
    {
        self.height
    }

    /// Overwrite every cell — visible or padding — with one color.
    pub fn clear_screen(&mut self, color: u32)
        requires
            old(self).wf(),
        ensures
            final(self).wf(),
            final(self).spec_stride() == old(self).spec_stride(),
            final(self).spec_width() == old(self).spec_width(),
            final(self).spec_height() == old(self).spec_height(),
            final(self).grid() == uniform(old(self).grid().len(), color),
    {
        let len = self.pixels.len();
        let mut i: usize = 0;
        while i < len
            invariant
                i <= len,
                self.pixels@.len() == len,
                self.stride == old(self).stride,
                self.width == old(self).width,
                self.height == old(self).height,
                forall|j: int| 0 <= j < i ==> self.pixels@[j] == color,
            decreases len - i,
        {
            self.pixels[i] = color;
            i = i + 1;
        }
        proof {
            assert(self.grid() =~= uniform(old(self).grid().len(), color));
        }
    }

    /// Write one pixel at column `x` of row `y`.
    pub fn put_pixel(&mut self, x: usize, y: usize, color: u32)
        requires
            old(self).wf(),
            x < old(self).spec_stride(),
            y < old(self).spec_height(),
        ensures
            final(self).wf(),
            final(self).spec_stride() == old(self).spec_stride(),
            final(self).spec_width() == old(self).spec_width(),
            final(self).spec_height() == old(self).spec_height(),
            final(self).grid() == old(self).grid().update(
                y * old(self).spec_stride() + x,
                color,
            ),
    {
        proof {
            assert(y * self.stride + x < self.stride * self.height) by (nonlinear_arith)
                requires
                    x < self.stride,
                    y < self.height,
            ;
        }
        let n = self.pixels.len();
        proof {
            assert(y * self.stride + x < n);
        }
        let offset = y * self.stride + x;
        self.pixels[offset] = color;
    }

    /// Read one pixel at column `x` of row `y`.
    pub fn pixel_at(&self, x: usize, y: usize) -> (p: u32)
        requires
            self.wf(),
            x < self.spec_stride(),
            y < self.spec_height(),
        ensures
            p == self.grid()[y * self.spec_stride() + x],
    {
        proof {
            assert(y * self.stride + x < self.stride * self.height) by (nonlinear_arith)
                requires
                    x < self.stride,
                    y < self.height,
            ;
        }
        let n = self.pixels.len();
        proof {
            assert(y * self.stride + x < n);
        }
        let offset = y * self.stride + x;
        self.pixels[offset]
    }
}

} // verus!
