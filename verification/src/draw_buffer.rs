//! The logical framebuffer: a 128x64 one-bit pixel surface stored as 8
//! horizontal pages of 128 vertically-packed bytes.
//!
//! Bit `b` of byte `(page, column)` is the pixel at `(column, page * 8 + b)`,
//! so every coordinate of the visible area maps to exactly one
//! (page, column, bit) triple. Out-of-range coordinates are reported as an
//! error and leave the buffer untouched; drawing callers may legitimately
//! clip, so a bad coordinate must never abort.

use vstd::prelude::*;

verus! {

/// The display width in pixels.
pub const WIDTH: usize = 128;

/// The display height in pixels.
pub const HEIGHT: usize = 64;

/// The number of horizontal pages; each page spans 8 pixel rows.
pub const PAGES: usize = 8;

/// A pixel-set coordinate outside the 128x64 visible area, reported back to
/// the caller.
#[derive(Clone, Copy, Debug, PartialEq, Eq, Structural)]
pub struct PixelOutOfRange {
    pub x: u8,
    pub y: u8,
}

/// Whether bit `bit` of `byte` is set.
pub open spec fn bit_of(byte: u8, bit: u8) -> bool {
    byte & (1u8 << bit) != 0
}

/// `byte` with bit `bit` set (for an on pixel) or cleared (for an off
/// pixel).
pub open spec fn apply_pixel(byte: u8, bit: u8, on: bool) -> u8 {
    if on {
        byte | (1u8 << bit)
    } else {
        byte & !(1u8 << bit)
    }
}

/// The all-clear page grid: 8 pages of 128 zero bytes.
pub open spec fn zero_grid() -> Seq<Seq<u8>> {
    Seq::new(8, |p: int| Seq::new(128, |c: int| 0u8))
}

/// The 128x64 one-bit framebuffer.
///
/// The bytes are stored page-major: byte `(page, column)` sits at index
/// `page * 128 + column`.
pub struct FrameBuffer {
    data: Vec<u8>,
}

impl FrameBuffer {
    /// The buffer holds exactly its 8 * 128 bytes.
    pub closed spec fn wf(self) -> bool {
        self.data@.len() == 1024
    }

    /// The buffer's contents as a page grid: 8 pages of 128 bytes each.
    pub closed spec fn grid(self) -> Seq<Seq<u8>> {
        Seq::new(8, |p: int| Seq::new(128, |c: int| self.data@[p * 128 + c]))
    }

    /// The pixel at `(x, y)`: bit `y % 8` of byte `(y / 8, x)`.
    pub open spec fn spec_pixel(self, x: int, y: int) -> bool {
        bit_of(self.grid()[y / 8][x], (y % 8) as u8)
    }

    /// A well-formed grid always has 8 pages of 128 bytes.
    pub proof fn lemma_grid_shape(self)
        ensures
            self.grid().len() == 8,
            forall|p: int| 0 <= p < 8 ==> (#[trigger] self.grid()[p]).len() == 128,
    {
    }

    /// A fresh, all-clear buffer.
    pub fn new() -> (fb: FrameBuffer)
        ensures
            fb.wf(),
            fb.grid() == zero_grid(),
    {
        let data: Vec<u8> = vec![0u8; 1024];
        let fb = FrameBuffer { data };
        proof {
            assert forall|p: int, c: int|
                0 <= p < 8 && 0 <= c < 128 implies #[trigger] fb.grid()[p][c] == 0u8 by {
                lemma_page_index_bounds(p, c);
            }
            assert forall|p: int|
                0 <= p < 8 implies #[trigger] fb.grid()[p] =~= zero_grid()[p] by {}
            assert(fb.grid() =~= zero_grid());
        }
        fb
    }

    /// Reads back byte `(page, col)` of the grid.
    pub fn byte_at(&self, page: u8, col: u8) -> (b: u8)
        requires
            self.wf(),
            page < 8,
            col < 128,
        ensures
            b == self.grid()[page as int][col as int],
    {
        let idx: usize = (page as usize) * 128 + (col as usize);
        self.data[idx]
    }

    /// A page's 128 bytes, as they are streamed during a transfer.
    pub fn page_bytes(&self, page: u8) -> (s: &[u8])
        requires
            self.wf(),
            page < 8,
        ensures
            s@ == self.grid()[page as int],
    {
        let start: usize = (page as usize) * 128;
        let s = vstd::slice::slice_subrange(self.data.as_slice(), start, start + 128);
        proof {
            assert(s@ =~= self.grid()[page as int]);
        }
        s
    }

    /// Sets (`on` true) or clears (`on` false) the pixel at `(x, y)`.
    ///
    /// In range, the one addressed bit changes and every other bit of the
    /// grid is untouched; out of range, the coordinate comes back as an
    /// error and the buffer does not change.
    pub fn set_pixel(&mut self, x: u8, y: u8, on: bool) -> (r: Result<(), PixelOutOfRange>)
        requires
            old(self).wf(),
        ensures
            final(self).wf(),
            x < 128 && y < 64 ==> r is Ok && final(self).grid() == old(self).grid().update(
                y as int / 8,
                old(self).grid()[y as int / 8].update(
                    x as int,
                    apply_pixel(old(self).grid()[y as int / 8][x as int], y % 8, on),
                ),
            ),
            x < 128 && y < 64 ==> final(self).spec_pixel(x as int, y as int) == on,
            !(x < 128 && y < 64) ==> r == Err::<(), PixelOutOfRange>(
                (PixelOutOfRange { x: x, y: y }),
            ) && *final(self) == *old(self),
    {
        if x >= 128 || y >= 64 {
            return Err(PixelOutOfRange { x, y });
        }
        let page: usize = (y as usize) / 8;
        let bit: u8 = y % 8;
        let idx: usize = page * 128 + (x as usize);
        let b: u8 = self.data[idx];
        let nb: u8 = if on {
            b | (1u8 << bit)
        } else {
            b & !(1u8 << bit)
        };
        self.data[idx] = nb;
        proof {
            let gp = y as int / 8;
            let gc = x as int;
            let og = old(self).grid();
            assert(b == og[gp][gc]);
            assert forall|p: int, c: int|
                0 <= p < 8 && 0 <= c < 128 implies #[trigger] self.grid()[p][c] == og.update(
                gp,
                og[gp].update(gc, nb),
            )[p][c] by {
                lemma_page_index_bounds(p, c);
                lemma_page_index_bounds(gp, gc);
                if p * 128 + c == gp * 128 + gc {
                    lemma_page_index_injective(p, c, gp, gc);
                }
            }
            assert forall|p: int|
                0 <= p < 8 implies #[trigger] self.grid()[p] =~= og.update(
                    gp,
                    og[gp].update(gc, nb),
                )[p] by {}
            assert(self.grid() =~= og.update(gp, og[gp].update(gc, nb)));
            assert(bit_of(nb, bit) == on) by {
                if on {
                    assert((b | (1u8 << bit)) & (1u8 << bit) != 0) by (bit_vector)
                        requires
                            bit < 8,
                    ;
                } else {
                    assert((b & !(1u8 << bit)) & (1u8 << bit) == 0) by (bit_vector);
                }
            };
        }
        Ok(())
    }

    /// Atomically overwrites the whole grid with caller-supplied pages of
    /// identical shape, bypassing per-pixel drawing.
    pub fn replace_from_raw(&mut self, raw: &[[u8; 128]; 8])
        requires
            old(self).wf(),
        ensures
            final(self).wf(),
            final(self).grid() == raw.deep_view(),
    {
        let mut k: usize = 0;
        while k < 1024
            invariant
                self.data@.len() == 1024,
                k <= 1024,
                forall|j: int|
                    0 <= j < k ==> #[trigger] self.data@[j] == raw.deep_view()[j / 128][j % 128],
            decreases 1024 - k,
        {
            let p: usize = k / 128;
            let c: usize = k % 128;
            let v: u8 = raw[p][c];
            proof {
                assert(raw.deep_view()[p as int] == raw@[p as int]@);
                assert(v == raw.deep_view()[k as int / 128][k as int % 128]);
            }
            self.data[k] = v;
            k = k + 1;
        }
        proof {
            assert forall|p: int, c: int|
                0 <= p < 8 && 0 <= c < 128 implies #[trigger] self.grid()[p][c]
                    == raw.deep_view()[p][c] by {
                lemma_page_index_bounds(p, c);
                lemma_page_index_div_mod(p, c);
            }
            assert forall|p: int|
                0 <= p < 8 implies #[trigger] self.grid()[p] =~= raw.deep_view()[p] by {}
            assert(self.grid() =~= raw.deep_view());
        }
    }
}

/// A page-major index stays inside the buffer.
proof fn lemma_page_index_bounds(p: int, c: int)
    requires
        0 <= p < 8,
        0 <= c < 128,
    ensures
        0 <= p * 128 + c < 1024,
{
}

/// Distinct (page, column) pairs have distinct page-major indices.
proof fn lemma_page_index_injective(p1: int, c1: int, p2: int, c2: int)
    requires
        0 <= c1 < 128,
        0 <= c2 < 128,
        p1 * 128 + c1 == p2 * 128 + c2,
    ensures
        p1 == p2,
        c1 == c2,
{
    assert(p1 == p2 && c1 == c2) by (nonlinear_arith)
        requires
            0 <= c1 < 128,
            0 <= c2 < 128,
            p1 * 128 + c1 == p2 * 128 + c2,
    ;
}

/// Splitting a page-major index recovers the page and the column.
proof fn lemma_page_index_div_mod(p: int, c: int)
    requires
        0 <= p,
        0 <= c < 128,
    ensures
        (p * 128 + c) / 128 == p,
        (p * 128 + c) % 128 == c,
{
    assert((p * 128 + c) / 128 == p && (p * 128 + c) % 128 == c) by (nonlinear_arith)
        requires
            0 <= p,
            0 <= c < 128,
    ;
}

} // verus!
