//! The double-buffered cell grid and the diff renderer.
//!
//! A grid cell is three consecutive 64-bit words: a codepoint, a packed
//! 24-bit foreground color and a packed 24-bit background color.  Two grids
//! of fixed capacity exist side by side: the current one, which callers
//! write, and the previous one, which holds the last flushed frame.  A flush
//! walks the cells of the visible area `[0, width * height)`, produces one
//! [`CellUpdate`] for every cell whose record differs between the two grids,
//! and then promotes the current grid into the previous one, so that the
//! next flush diffs against this frame.
//!
//! A cell whose codepoint is not a Unicode scalar value cannot be displayed;
//! such a cell is skipped by the flush rather than aborting it.

use vstd::prelude::*;

use crate::color;

verus! {

/// Number of 64-bit words in each grid buffer.  The capacity is fixed once,
/// large enough for realistic terminal sizes, so that resizing the terminal
/// never reallocates mid-session.
pub const BUFFER_WORDS: usize = 2000000;

/// Number of whole cells (three words each) that fit in a grid buffer.
pub const BUFFER_CELLS: usize = BUFFER_WORDS / 3;

/// True when `w` is a Unicode scalar value, the only codepoints that decode
/// to a displayable character.
pub open spec fn valid_codepoint(w: u64) -> bool {
    w < 0xD800 || (0xE000 <= w && w <= 0x10FFFF)
}

/// Relies on `char::from_u32` from core: it returns the character with
/// scalar value `i` when `i` is a Unicode scalar value, and `None` when it
/// is a surrogate or exceeds `char::MAX`.
pub assume_specification[ char::from_u32 ](i: u32) -> (r: Option<char>)
    ensures
        r == if i < 0xD800 || (0xE000 <= i && i <= 0x10FFFF) {
            Some(i as char)
        } else {
            None::<char>
        },
;

/// One terminal draw command: move the cursor to `(x, y)`, set the two
/// colors, print the glyph.
#[derive(Clone, Copy, Debug, PartialEq, Eq, Structural)]
pub struct CellUpdate {
    pub x: u16,
    pub y: u16,
    pub glyph: char,
    pub fg_r: u8,
    pub fg_g: u8,
    pub fg_b: u8,
    pub bg_r: u8,
    pub bg_g: u8,
    pub bg_b: u8,
}

/// The current and previous grid, both of capacity [`BUFFER_WORDS`].
pub struct GridPair {
    cur: Vec<u64>,
    prev: Vec<u64>,
}

impl GridPair {
    /// The words of the current grid.
    pub closed spec fn current(self) -> Seq<u64> {
        self.cur@
    }

    /// The words of the previous (last flushed) grid.
    pub closed spec fn previous(self) -> Seq<u64> {
        self.prev@
    }

    /// Both grids hold exactly the fixed capacity.
    pub open spec fn wf(self) -> bool {
        &&& self.current().len() == BUFFER_WORDS
        &&& self.previous().len() == BUFFER_WORDS
    }

    /// Cell `i` differs between the current and the previous grid.
    pub open spec fn cell_changed(self, i: int) -> bool {
        ||| self.current()[3 * i] != self.previous()[3 * i]
        ||| self.current()[3 * i + 1] != self.previous()[3 * i + 1]
        ||| self.current()[3 * i + 2] != self.previous()[3 * i + 2]
    }

    /// The draw command for cell `i` of a grid `width` cells wide.
    pub open spec fn update_at(self, width: u16, i: int) -> CellUpdate {
        let fg = self.current()[3 * i + 1];
        let bg = self.current()[3 * i + 2];
        CellUpdate {
            x: (i % (width as int)) as u16,
            y: (i / (width as int)) as u16,
            glyph: ((self.current()[3 * i] as u32) as char),
            fg_r: color::spec_red(fg),
            fg_g: color::spec_green(fg),
            fg_b: color::spec_blue(fg),
            bg_r: color::spec_red(bg),
            bg_g: color::spec_green(bg),
            bg_b: color::spec_blue(bg),
        }
    }

    /// The draw commands for the changed cells among the first `n`, in cell
    /// order.  Cells whose codepoint is not a scalar value are skipped.
    pub open spec fn diff_upto(self, width: u16, n: int) -> Seq<CellUpdate>
        decreases n,
    {
        if n <= 0 {
            Seq::empty()
        } else {
            let rest = self.diff_upto(width, n - 1);
            if self.cell_changed(n - 1) && valid_codepoint(self.current()[3 * (n - 1)]) {
                rest.push(self.update_at(width, n - 1))
            } else {
                rest
            }
        }
    }

    /// The draw commands a flush of a `width` by `height` screen emits.
    pub open spec fn diff(self, width: u16, height: u16) -> Seq<CellUpdate> {
        self.diff_upto(width, (width as int) * (height as int))
    }

    /// How many of the first `n` cells differ between the two grids.
    pub open spec fn changed_upto(self, n: int) -> int
        decreases n,
    {
        if n <= 0 {
            0
        } else {
            self.changed_upto(n - 1) + if self.cell_changed(n - 1) {
                1int
            } else {
                0int
            }
        }
    }

    /// A fresh pair: both grids zero-filled, so the first flush is a no-op
    /// until cells are written.
    pub fn new() -> (g: GridPair)
        ensures
            g.wf(),
            forall|k: int| 0 <= k < BUFFER_WORDS ==> g.current()[k] == 0,
            g.previous() == g.current(),
    {
        let cur: Vec<u64> = vec![0u64; BUFFER_WORDS];
        let prev = cur.clone();
        proof {
            assert forall|k: int| 0 <= k < BUFFER_WORDS implies cur@[k] == 0 by {
                assert(cloned(0u64, cur@[k]));
            }
            assert forall|k: int| 0 <= k < BUFFER_WORDS implies prev@[k] == cur@[k] by {
                assert(cloned(cur@[k], prev@[k]));
            }
            assert(prev@ =~= cur@);
        }
        GridPair { cur, prev }
    }

    /// Writes the record `(codepoint, fg, bg)` into cell `index` of the
    /// current grid.  Returns whether the write landed; an index beyond the
    /// fixed capacity is rejected.
    pub fn write(&mut self, index: usize, codepoint: u64, fg: u64, bg: u64) -> (ok: bool)
        requires
            old(self).wf(),
        ensures
            final(self).wf(),
            final(self).previous() == old(self).previous(),
            ok <==> index < BUFFER_CELLS,
            ok ==> final(self).current() == old(self).current()
                .update(3 * index as int, codepoint)
                .update(3 * index as int + 1, fg)
                .update(3 * index as int + 2, bg),
            !ok ==> final(self).current() == old(self).current(),
    {
        if index >= BUFFER_CELLS {
            return false;
        }
        let base = 3 * index;
        self.cur.set(base, codepoint);
        self.cur.set(base + 1, fg);
        self.cur.set(base + 2, bg);
        true
    }

    /// The word at `k` of the current grid, or 0 beyond the capacity.
    pub fn word(&self, k: usize) -> (w: u64)
        requires
            self.wf(),
        ensures
            w == if k < BUFFER_WORDS {
                self.current()[k as int]
            } else {
                0u64
            },
    {
        if k < BUFFER_WORDS {
            self.cur[k]
        } else {
            0
        }
    }

    /// A read view of the current grid's words.
    pub fn words_ref(&self) -> (r: &Vec<u64>)
        ensures
            r@ == self.current(),
    {
        &self.cur
    }

    /// Diff-renders the visible `width` by `height` area and promotes the
    /// current grid into the previous one: the returned commands are exactly
    /// the diff of the two grids, and afterwards the grids are equal.
    pub fn flush(&mut self, width: u16, height: u16) -> (ups: Vec<CellUpdate>)
        requires
            old(self).wf(),
            3 * ((width as int) * (height as int)) <= BUFFER_WORDS,
        ensures
            final(self).wf(),
            final(self).current() == old(self).current(),
            final(self).previous() == old(self).current(),
            ups@ == old(self).diff(width, height),
    {
        let w = width as usize;
        let h = height as usize;
        let n = w * h;
        let mut ups: Vec<CellUpdate> = Vec::new();
        let mut i: usize = 0;
        while i < n
            invariant
                *self == *old(self),
                old(self).wf(),
                i <= n,
                n == (width as int) * (height as int),
                3 * n <= BUFFER_WORDS,
                w == width as usize,
                h == height as usize,
                ups@ == old(self).diff_upto(width, i as int),
            decreases n - i,
        {
            let base = 3 * i;
            let cp = self.cur[base];
            let fg = self.cur[base + 1];
            let bg = self.cur[base + 2];
            let changed = cp != self.prev[base] || fg != self.prev[base + 1] || bg != self.prev[
                base + 2];
            if changed && (cp < 0xD800 || (0xE000 <= cp && cp <= 0x10FFFF)) {
                proof {
                    assert(w > 0) by {
                        assert(i < (width as int) * (height as int));
                        assert(width as int == 0 ==> (width as int) * (height as int) == 0)
                            by (nonlinear_arith);
                    }
                    assert((i as int) / (w as int) < h as int) by (nonlinear_arith)
                        requires
                            (i as int) < (w as int) * (h as int),
                            0 < w as int,
                    ;
                }
                let x = (i % w) as u16;
                let y = (i / w) as u16;
                match char::from_u32(cp as u32) {
                    Some(glyph) => {
                        ups.push(
                            CellUpdate {
                                x,
                                y,
                                glyph,
                                fg_r: color::red_channel(fg),
                                fg_g: color::green_channel(fg),
                                fg_b: color::blue_channel(fg),
                                bg_r: color::red_channel(bg),
                                bg_g: color::green_channel(bg),
                                bg_b: color::blue_channel(bg),
                            },
                        );
                    },
                    None => {
                        proof {
                            assert(false);
                        }
                    },
                }
            }
            i = i + 1;
        }
        let promoted = self.cur.clone();
        proof {
            assert forall|k: int| 0 <= k < BUFFER_WORDS implies promoted@[k] == self.cur@[k] by {
                assert(cloned(self.cur@[k], promoted@[k]));
            }
            assert(promoted@ =~= self.cur@);
        }
        self.prev = promoted;
        ups
    }

    /// For two grids differing in exactly `changed_upto(n)` of the first `n`
    /// cells, all of them displayable, the diff holds exactly that many
    /// commands: one per changed cell, none for the rest.
    pub proof fn lemma_diff_minimality(self, width: u16, n: int)
        requires
            forall|i: int|
                0 <= i < n && self.cell_changed(i) ==> valid_codepoint(
                    #[trigger] self.current()[3 * i],
                ),
        ensures
            self.diff_upto(width, n).len() == self.changed_upto(n),
        decreases n,
    {
        if n > 0 {
            self.lemma_diff_minimality(width, n - 1);
        }
    }

    /// A flush leaves the previous grid equal to the current one, so a
    /// second flush with no intervening write finds no changed cell and
    /// emits zero commands.
    pub proof fn lemma_flush_idempotent(self, width: u16, height: u16)
        requires
            self.previous() == self.current(),
        ensures
            self.diff(width, height) == Seq::<CellUpdate>::empty(),
    {
        self.lemma_no_change_upto(width, (width as int) * (height as int));
    }

    /// With equal grids no prefix of the cells produces any command.
    proof fn lemma_no_change_upto(self, width: u16, n: int)
        requires
            self.previous() == self.current(),
        ensures
            self.diff_upto(width, n) == Seq::<CellUpdate>::empty(),
        decreases n,
    {
        if n > 0 {
            self.lemma_no_change_upto(width, n - 1);
        }
    }
}

} // verus!
