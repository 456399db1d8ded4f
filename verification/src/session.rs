//! The session object: the process-wide rendering state, explicitly owned.
//!
//! A session holds the terminal size, the optional grid pair and the frame
//! list of the last solved layout.  Every public operation of the toolkit
//! runs against a session; the surrounding program owns exactly one and
//! serializes access to it.
//!
//! Operating on a resource that does not exist yet — flushing before the
//! buffer is allocated, reading frames before a layout was solved — is a
//! defensive no-op, not an error.  Exceeding the fixed grid capacity is a
//! configuration error and is reported by a failure return instead.

use vstd::prelude::*;

use crate::layout::{Frame, StyleTree};
use crate::screen::{CellUpdate, GridPair, BUFFER_CELLS, BUFFER_WORDS};

verus! {

/// The rendering state: terminal size, grid pair, frame list.
pub struct Session {
    width: u16,
    height: u16,
    grids: Option<GridPair>,
    frames: Option<Vec<Frame>>,
}

impl Session {
    /// The terminal width in cells.
    pub closed spec fn spec_width(self) -> u16 {
        self.width
    }

    /// The terminal height in cells.
    pub closed spec fn spec_height(self) -> u16 {
        self.height
    }

    /// Whether the grid pair is allocated.
    pub closed spec fn has_buffer(self) -> bool {
        self.grids is Some
    }

    /// The allocated grid pair; meaningful under [`Self::has_buffer`].
    pub closed spec fn buffer(self) -> GridPair {
        self.grids->0
    }

    /// Whether a layout has been solved and its frames are held.
    pub closed spec fn has_frames(self) -> bool {
        self.frames is Some
    }

    /// The held frame list; meaningful under [`Self::has_frames`].
    pub closed spec fn frame_list(self) -> Seq<Frame> {
        self.frames->0@
    }

    /// The visible area fits the fixed capacity, and an allocated grid pair
    /// is well-formed.
    pub open spec fn wf(self) -> bool {
        &&& 3 * ((self.spec_width() as int) * (self.spec_height() as int)) <= BUFFER_WORDS
        &&& self.has_buffer() ==> self.buffer().wf()
    }

    /// A fresh session: no buffer, no frames, size zero.
    pub fn new() -> (s: Session)
        ensures
            s.wf(),
            !s.has_buffer(),
            !s.has_frames(),
            s.spec_width() == 0,
            s.spec_height() == 0,
    {
        Session { width: 0, height: 0, grids: None, frames: None }
    }

    /// Records the terminal size and allocates the grid pair, both grids
    /// zero-filled, so that the first flush is a no-op until cells are
    /// written.  Fails, changing nothing, when the requested area exceeds
    /// the fixed capacity.
    pub fn init_buffer(&mut self, width: u16, height: u16) -> (ok: bool)
        requires
            old(self).wf(),
        ensures
            final(self).wf(),
            ok <==> 3 * ((width as int) * (height as int)) <= BUFFER_WORDS,
            final(self).has_frames() == old(self).has_frames(),
            final(self).frame_list() == old(self).frame_list(),
            !ok ==> final(self).spec_width() == old(self).spec_width()
                && final(self).spec_height() == old(self).spec_height()
                && final(self).has_buffer() == old(self).has_buffer()
                && final(self).buffer() == old(self).buffer(),
            ok ==> final(self).spec_width() == width
                && final(self).spec_height() == height
                && final(self).has_buffer()
                && (forall|k: int|
                    0 <= k < BUFFER_WORDS ==> final(self).buffer().current()[k] == 0)
                && final(self).buffer().previous() == final(self).buffer().current(),
    {
        proof {
            assert((width as u64) * (height as u64) <= 65535 * 65535) by (nonlinear_arith)
                requires
                    width as u64 <= 65535,
                    height as u64 <= 65535,
            ;
        }
        let need = 3u64 * ((width as u64) * (height as u64));
        if need > BUFFER_WORDS as u64 {
            return false;
        }
        self.width = width;
        self.height = height;
        self.grids = Some(GridPair::new());
        true
    }

    /// Records a new terminal size without touching the grids; the larger
    /// capacity absorbs growth without reallocation.  Fails, changing
    /// nothing, when the requested area exceeds the fixed capacity.
    pub fn update_terminal_size(&mut self, width: u16, height: u16) -> (ok: bool)
        requires
            old(self).wf(),
        ensures
            final(self).wf(),
            ok <==> 3 * ((width as int) * (height as int)) <= BUFFER_WORDS,
            final(self).has_buffer() == old(self).has_buffer(),
            final(self).buffer() == old(self).buffer(),
            final(self).has_frames() == old(self).has_frames(),
            final(self).frame_list() == old(self).frame_list(),
            ok ==> final(self).spec_width() == width && final(self).spec_height() == height,
            !ok ==> final(self).spec_width() == old(self).spec_width() && final(self).spec_height()
                == old(self).spec_height(),
    {
        proof {
            assert((width as u64) * (height as u64) <= 65535 * 65535) by (nonlinear_arith)
                requires
                    width as u64 <= 65535,
                    height as u64 <= 65535,
            ;
        }
        let need = 3u64 * ((width as u64) * (height as u64));
        if need > BUFFER_WORDS as u64 {
            return false;
        }
        self.width = width;
        self.height = height;
        true
    }

    /// The recorded terminal width.
    pub fn get_width(&self) -> (w: u16)
        ensures
            w == self.spec_width(),
    {
        self.width
    }

    /// The recorded terminal height.
    pub fn get_height(&self) -> (h: u16)
        ensures
            h == self.spec_height(),
    {
        self.height
    }

    /// Writes the record `(codepoint, fg, bg)` into cell `index` of the
    /// current grid.  Returns whether the write landed: there is a buffer
    /// and the index is within its capacity.
    pub fn write(&mut self, index: usize, codepoint: u64, fg: u64, bg: u64) -> (ok: bool)
        requires
            old(self).wf(),
        ensures
            final(self).wf(),
            final(self).spec_width() == old(self).spec_width(),
            final(self).spec_height() == old(self).spec_height(),
            final(self).has_buffer() == old(self).has_buffer(),
            final(self).has_frames() == old(self).has_frames(),
            final(self).frame_list() == old(self).frame_list(),
            ok <==> old(self).has_buffer() && index < BUFFER_CELLS,
            old(self).has_buffer() ==> final(self).buffer().previous()
                == old(self).buffer().previous(),
            ok ==> final(self).buffer().current() == old(self).buffer().current().update(
                3 * index as int,
                codepoint,
            ).update(3 * index as int + 1, fg).update(3 * index as int + 2, bg),
            old(self).has_buffer() && !ok ==> final(self).buffer().current()
                == old(self).buffer().current(),
    {
        match self.grids.take() {
            None => false,
            Some(mut g) => {
                let ok = g.write(index, codepoint, fg, bg);
                self.grids = Some(g);
                ok
            },
        }
    }

    /// Diff-renders the visible area: returns one draw command per cell
    /// that changed since the last flush (skipping cells whose codepoint is
    /// not displayable) and promotes the current grid into the previous
    /// one.  Without an allocated buffer this is a no-op returning no
    /// commands.
    pub fn flush(&mut self) -> (ups: Vec<CellUpdate>)
        requires
            old(self).wf(),
        ensures
            final(self).wf(),
            final(self).spec_width() == old(self).spec_width(),
            final(self).spec_height() == old(self).spec_height(),
            final(self).has_buffer() == old(self).has_buffer(),
            final(self).has_frames() == old(self).has_frames(),
            final(self).frame_list() == old(self).frame_list(),
            !old(self).has_buffer() ==> ups@ == Seq::<CellUpdate>::empty() && final(self).buffer()
                == old(self).buffer(),
            old(self).has_buffer() ==> ups@ == old(self).buffer().diff(
                old(self).spec_width(),
                old(self).spec_height(),
            ) && final(self).buffer().current() == old(self).buffer().current()
                && final(self).buffer().previous() == old(self).buffer().current(),
    {
        match self.grids.take() {
            None => Vec::new(),
            Some(mut g) => {
                let ups = g.flush(self.width, self.height);
                self.grids = Some(g);
                ups
            },
        }
    }

    /// Releases the grid pair and the held frame list: after teardown
    /// neither resource exists until it is built again.  The recorded size
    /// stays; only an explicit resize query changes it.
    pub fn free_buffer(&mut self)
        requires
            old(self).wf(),
        ensures
            final(self).wf(),
            !final(self).has_buffer(),
            !final(self).has_frames(),
            final(self).spec_width() == old(self).spec_width(),
            final(self).spec_height() == old(self).spec_height(),
    {
        self.grids = None;
        self.frames = None;
    }

    /// The word capacity of the current grid: the fixed buffer size, or 0
    /// without an allocated buffer.
    pub fn get_buffer_len(&self) -> (n: u64)
        ensures
            n == if self.has_buffer() {
                BUFFER_WORDS as u64
            } else {
                0u64
            },
    {
        match self.grids.as_ref() {
            Some(_) => BUFFER_WORDS as u64,
            None => 0,
        }
    }

    /// The word at `idx` of the current grid, or 0 when there is no buffer
    /// or the index lies beyond its capacity.
    pub fn debug_buffer(&self, idx: u64) -> (w: u64)
        requires
            self.wf(),
        ensures
            w == if self.has_buffer() && idx < BUFFER_WORDS {
                self.buffer().current()[idx as int]
            } else {
                0u64
            },
    {
        match self.grids.as_ref() {
            None => 0,
            Some(g) => {
                if idx < BUFFER_WORDS as u64 {
                    g.word(idx as usize)
                } else {
                    0
                }
            },
        }
    }

    /// A read view of the current grid's words, for the boundary adapter.
    pub fn buffer_ref(&self) -> (r: Option<&Vec<u64>>)
        ensures
            r is Some <==> self.has_buffer(),
            r is Some ==> r->0@ == self.buffer().current(),
    {
        match self.grids.as_ref() {
            None => None,
            Some(g) => Some(g.words_ref()),
        }
    }

    /// Solves the layout tree against the constraint `(width, height)` and
    /// replaces the held frame list with the result.  A malformed arena or
    /// an empty tree fails the request and leaves any previously computed
    /// frame list untouched.
    pub fn calculate_layout(&mut self, tree: &StyleTree, width: u64, height: u64) -> (ok: bool)
        requires
            old(self).wf(),
        ensures
            final(self).wf(),
            final(self).spec_width() == old(self).spec_width(),
            final(self).spec_height() == old(self).spec_height(),
            final(self).has_buffer() == old(self).has_buffer(),
            final(self).buffer() == old(self).buffer(),
            ok <==> tree.wf() && tree.node_count() >= 1,
            ok ==> final(self).has_frames() && final(self).frame_list() == tree.spec_solve(
                width,
                height,
            ),
            !ok ==> final(self).has_frames() == old(self).has_frames() && final(self).frame_list()
                == old(self).frame_list(),
    {
        if !tree.check_wf() {
            return false;
        }
        if tree.nodes.len() == 0 {
            return false;
        }
        let frames = tree.solve(width, height);
        self.frames = Some(frames);
        true
    }

    /// How many frames the held frame list has; 0 without one.
    pub fn get_frames_len(&self) -> (n: usize)
        ensures
            n == if self.has_frames() {
                self.frame_list().len()
            } else {
                0
            },
    {
        match self.frames.as_ref() {
            Some(v) => v.len(),
            None => 0,
        }
    }

    /// The frame at `k` of the held frame list, or an all-zero frame when
    /// there is none or the index is out of range.
    pub fn frame_at(&self, k: usize) -> (f: Frame)
        ensures
            f == if self.has_frames() && k < self.frame_list().len() {
                self.frame_list()[k as int]
            } else {
                Frame { x: 0, y: 0, width: 0, height: 0 }
            },
    {
        match self.frames.as_ref() {
            None => Frame { x: 0, y: 0, width: 0, height: 0 },
            Some(v) => {
                if k < v.len() {
                    v[k]
                } else {
                    Frame { x: 0, y: 0, width: 0, height: 0 }
                }
            },
        }
    }
}

/// Flushing twice in a row emits zero commands the second time: any flush
/// leaves the previous grid equal to the current one, and this is the state
/// in which the diff of the visible area is empty.
pub proof fn lemma_second_flush_empty(s: Session)
    requires
        s.has_buffer(),
        s.buffer().previous() == s.buffer().current(),
    ensures
        s.buffer().diff(s.spec_width(), s.spec_height()) == Seq::<CellUpdate>::empty(),
{
    s.buffer().lemma_flush_idempotent(s.spec_width(), s.spec_height());
}

} // verus!
