//! Box-model layout for a tree of styled nodes.
//!
//! A layout request is a tree of nodes, each with a kind, a gap, symmetric
//! paddings, a border width and an optional text content.  `row` and
//! `column` nodes distribute their children along their main axis, separated
//! by the gap, and stretch them across the cross axis; any other kind is a
//! plain container whose children keep their own measured size.  A leaf
//! `text` or `button` node measures intrinsically: its content is as wide as
//! its character count and one row tall.  Paddings and the border expand a
//! node symmetrically on each side.
//!
//! Solving a tree against a root constraint sizes the root exactly to the
//! constraint and emits one frame (absolute position and size) per node, in
//! pre-order: a node's own frame precedes its children's, children in
//! declaration order.  All arithmetic saturates at the type bounds, so every
//! request has a defined result.
//!
//! The tree is an arena: nodes live in one vector and refer to their
//! children by index.  A child always has a smaller index than its parent,
//! so a tree is built leaf-first and its root is the last node.

use vstd::prelude::*;

verus! {

broadcast use vstd::string::axiom_spec_iter;

/// The closed set of node kinds.
#[derive(Clone, Copy, Debug, PartialEq, Eq, Structural)]
pub enum Kind {
    Row,
    Column,
    Text,
    Button,
    Generic,
}

/// The kind named by `s`: the recognized names map to their tags, and any
/// other name means a generic container.
pub open spec fn spec_kind_of(s: Seq<char>) -> Kind {
    if s == "row"@ {
        Kind::Row
    } else if s == "column"@ {
        Kind::Column
    } else if s == "text"@ {
        Kind::Text
    } else if s == "button"@ {
        Kind::Button
    } else {
        Kind::Generic
    }
}

impl Kind {
    /// True for the flex kinds, which stretch their children across the
    /// cross axis.
    pub open spec fn stretches(self) -> bool {
        self is Row || self is Column
    }

    /// True for the kinds whose text content gives a leaf its measure.
    pub open spec fn has_content(self) -> bool {
        self is Text || self is Button
    }

    /// Maps a node kind name to its tag.
    pub fn from_name(name: &str) -> (k: Kind)
        ensures
            k == spec_kind_of(name@),
    {
        let n = name.to_owned();
        if n == "row".to_owned() {
            Kind::Row
        } else if n == "column".to_owned() {
            Kind::Column
        } else if n == "text".to_owned() {
            Kind::Text
        } else if n == "button".to_owned() {
            Kind::Button
        } else {
            Kind::Generic
        }
    }
}

/// One node of a layout request.
pub struct StyleNode {
    pub kind: Kind,
    pub gap: u64,
    pub padding_x: u64,
    pub padding_y: u64,
    pub border: u64,
    pub text: String,
    pub children: Vec<usize>,
}

impl StyleNode {
    /// Left (equal to right) horizontal inset: padding plus border.
    pub open spec fn inset_x(self) -> u64 {
        self.padding_x.saturating_add(self.border)
    }

    /// Top (equal to bottom) vertical inset: padding plus border.
    pub open spec fn inset_y(self) -> u64 {
        self.padding_y.saturating_add(self.border)
    }
}

/// A node's resolved absolute position and size.
#[derive(Clone, Copy, Debug, PartialEq, Eq, Structural)]
pub struct Frame {
    pub x: u64,
    pub y: u64,
    pub width: u64,
    pub height: u64,
}

/// `n` clamped into the range of `u64`.
pub open spec fn sat_len(n: int) -> u64 {
    if n > u64::MAX {
        u64::MAX
    } else if n < 0 {
        0u64
    } else {
        n as u64
    }
}

/// A layout request: an arena of nodes whose root is the last one.
pub struct StyleTree {
    pub nodes: Vec<StyleNode>,
}

impl StyleTree {
    /// Number of nodes.
    pub open spec fn node_count(self) -> int {
        self.nodes@.len() as int
    }

    /// Every child index points below its parent, so that every path down
    /// the tree strictly descends through the arena.
    pub open spec fn wf(self) -> bool {
        forall|i: int, j: int|
            0 <= i < self.nodes@.len() && 0 <= j < self.nodes@[i].children@.len() ==> (
            #[trigger] self.nodes@[i].children@[j]) < i
    }

    /// Index of child `j` of node `i`.
    pub open spec fn kid(self, i: int, j: int) -> int {
        self.nodes@[i].children@[j] as int
    }

    /// Number of children of node `i`.
    pub open spec fn kid_count(self, i: int) -> int {
        self.nodes@[i].children@.len() as int
    }

    /// The guard under which recursion into child `j` of node `i` descends.
    pub open spec fn kid_ok(self, i: int, j: int) -> bool {
        0 <= self.kid(i, j) < i
    }

    /// Size of child `j` of node `i` along `i`'s main axis.
    pub open spec fn kid_main(self, i: int, j: int) -> u64
        decreases i, 0int, j,
    {
        if self.kid_ok(i, j) {
            if self.nodes@[i].kind is Column {
                self.intrinsic_height(self.kid(i, j))
            } else {
                self.intrinsic_width(self.kid(i, j))
            }
        } else {
            0u64
        }
    }

    /// Size of child `j` of node `i` across `i`'s main axis.
    pub open spec fn kid_cross(self, i: int, j: int) -> u64
        decreases i, 0int, j,
    {
        if self.kid_ok(i, j) {
            if self.nodes@[i].kind is Column {
                self.intrinsic_width(self.kid(i, j))
            } else {
                self.intrinsic_height(self.kid(i, j))
            }
        } else {
            0u64
        }
    }

    /// Main-axis offset of child `j` from the content origin of node `i`:
    /// the extents of the children before it, one gap after each.
    pub open spec fn child_offset(self, i: int, j: int) -> u64
        decreases i, 1int, j,
    {
        if j <= 0 {
            0u64
        } else {
            self.child_offset(i, j - 1).saturating_add(self.kid_main(i, j - 1)).saturating_add(
                self.nodes@[i].gap,
            )
        }
    }

    /// Largest cross-axis size among the first `j` children of node `i`.
    pub open spec fn cross_max(self, i: int, j: int) -> u64
        decreases i, 1int, j,
    {
        if j <= 0 {
            0u64
        } else {
            let rest = self.cross_max(i, j - 1);
            let c = self.kid_cross(i, j - 1);
            if c > rest {
                c
            } else {
                rest
            }
        }
    }

    /// Intrinsic width of node `i`: its content measure plus the horizontal
    /// insets of both sides.  A leaf's content is its character count when
    /// its kind carries text, else zero; a column's content is its widest
    /// child; any other container's content is its children laid in a row
    /// with gaps.
    pub open spec fn intrinsic_width(self, i: int) -> u64
        decreases i, 4int, 0int,
    {
        let n = self.nodes@[i];
        let edge = n.inset_x().saturating_add(n.inset_x());
        let cnt = n.children@.len() as int;
        let content = if cnt == 0 {
            if n.kind.has_content() {
                sat_len(n.text@.len() as int)
            } else {
                0u64
            }
        } else if n.kind is Column {
            self.cross_max(i, cnt)
        } else {
            self.child_offset(i, cnt - 1).saturating_add(self.kid_main(i, cnt - 1))
        };
        content.saturating_add(edge)
    }

    /// Intrinsic height of node `i`, the vertical counterpart of
    /// [`Self::intrinsic_width`]: a leaf with content is one row tall.
    pub open spec fn intrinsic_height(self, i: int) -> u64
        decreases i, 4int, 0int,
    {
        let n = self.nodes@[i];
        let edge = n.inset_y().saturating_add(n.inset_y());
        let cnt = n.children@.len() as int;
        let content = if cnt == 0 {
            if n.kind.has_content() {
                1u64
            } else {
                0u64
            }
        } else if n.kind is Column {
            self.child_offset(i, cnt - 1).saturating_add(self.kid_main(i, cnt - 1))
        } else {
            self.cross_max(i, cnt)
        };
        content.saturating_add(edge)
    }

    /// The frame of child `j` of node `i`, given node `i`'s own frame: the
    /// child sits at the content origin, advanced by its offset along the
    /// main axis; it takes its intrinsic main size, and either stretches to
    /// the parent's content size across the cross axis (flex parents) or
    /// keeps its intrinsic cross size.
    pub open spec fn child_frame(self, i: int, j: int, x: u64, y: u64, w: u64, h: u64) -> Frame
        decreases i, 2int, j,
    {
        let n = self.nodes@[i];
        let cx = x.saturating_add(n.inset_x());
        let cy = y.saturating_add(n.inset_y());
        let content_w = w.saturating_sub(n.inset_x().saturating_add(n.inset_x()));
        let content_h = h.saturating_sub(n.inset_y().saturating_add(n.inset_y()));
        let off = self.child_offset(i, j);
        if n.kind is Column {
            Frame {
                x: cx,
                y: cy.saturating_add(off),
                width: if n.kind.stretches() {
                    content_w
                } else {
                    self.kid_cross(i, j)
                },
                height: self.kid_main(i, j),
            }
        } else {
            Frame {
                x: cx.saturating_add(off),
                y: cy,
                width: self.kid_main(i, j),
                height: if n.kind.stretches() {
                    content_h
                } else {
                    self.kid_cross(i, j)
                },
            }
        }
    }

    /// The concatenated frame lists of the subtrees of children `j..` of
    /// node `i`, given node `i`'s own frame.
    pub open spec fn frames_children(self, i: int, j: int, x: u64, y: u64, w: u64, h: u64) -> Seq<
        Frame,
    >
        decreases i, 3int, self.kid_count(i) - j,
    {
        if j < 0 || j >= self.kid_count(i) || !self.kid_ok(i, j) {
            Seq::empty()
        } else {
            let f = self.child_frame(i, j, x, y, w, h);
            self.spec_frames(self.kid(i, j), f.x, f.y, f.width, f.height) + self.frames_children(
                i,
                j + 1,
                x,
                y,
                w,
                h,
            )
        }
    }

    /// The frame list of the subtree rooted at node `i`, placed at
    /// `(x, y)` with size `(w, h)`: the node's own frame first, then its
    /// children's lists in declaration order.
    pub open spec fn spec_frames(self, i: int, x: u64, y: u64, w: u64, h: u64) -> Seq<Frame>
        decreases i, 4int, 0int,
    {
        seq![Frame { x, y, width: w, height: h }] + self.frames_children(i, 0, x, y, w, h)
    }

    /// The frame list of the whole tree solved against the root constraint
    /// `(width, height)`.
    pub open spec fn spec_solve(self, width: u64, height: u64) -> Seq<Frame> {
        self.spec_frames(self.node_count() - 1, 0, 0, width, height)
    }

    /// An empty arena, ready for nodes.
    pub fn new() -> (t: StyleTree)
        ensures
            t.wf(),
            t.node_count() == 0,
    {
        StyleTree { nodes: Vec::new() }
    }

    /// Appends a node whose children, already in the arena, are the given
    /// indices, and returns its own index.  A tree is therefore built
    /// leaf-first, the root last.
    pub fn push_node(
        &mut self,
        kind: Kind,
        gap: u64,
        padding_x: u64,
        padding_y: u64,
        border: u64,
        text: &str,
        children: Vec<usize>,
    ) -> (idx: usize)
        requires
            old(self).wf(),
            forall|j: int|
                0 <= j < children@.len() ==> (#[trigger] children@[j]) < old(self).nodes@.len(),
            old(self).nodes@.len() < usize::MAX,
        ensures
            final(self).wf(),
            idx == old(self).node_count(),
            final(self).node_count() == old(self).node_count() + 1,
            final(self).nodes@[idx as int].kind == kind,
            final(self).nodes@[idx as int].gap == gap,
            final(self).nodes@[idx as int].padding_x == padding_x,
            final(self).nodes@[idx as int].padding_y == padding_y,
            final(self).nodes@[idx as int].border == border,
            final(self).nodes@[idx as int].text@ == text@,
            final(self).nodes@[idx as int].children@ == children@,
            forall|k: int|
                0 <= k < old(self).node_count() ==> final(self).nodes@[k] == old(self).nodes@[k],
    {
        let idx = self.nodes.len();
        let node = StyleNode {
            kind,
            gap,
            padding_x,
            padding_y,
            border,
            text: text.to_owned(),
            children,
        };
        self.nodes.push(node);
        proof {
            assert forall|i: int, j: int|
                0 <= i < self.nodes@.len() && 0 <= j < self.nodes@[i].children@.len() implies (
            #[trigger] self.nodes@[i].children@[j]) < i by {
                if i < idx {
                    assert(self.nodes@[i] == old(self).nodes@[i]);
                    assert(old(self).wf());
                }
            }
        }
        idx
    }

    /// Checks that every child index points below its parent.  Trees built
    /// through [`Self::push_node`] always pass; the check lets a caller
    /// accept an arena from elsewhere.
    pub fn check_wf(&self) -> (b: bool)
        ensures
            b == self.wf(),
    {
        let count = self.nodes.len();
        let mut i: usize = 0;
        while i < count
            invariant
                count == self.nodes@.len(),
                i <= count,
                forall|a: int, b: int|
                    0 <= a < i && 0 <= b < self.nodes@[a].children@.len() ==> (
                    #[trigger] self.nodes@[a].children@[b]) < a,
            decreases count - i,
        {
            let cnt = self.nodes[i].children.len();
            let mut j: usize = 0;
            while j < cnt
                invariant
                    count == self.nodes@.len(),
                    i < count,
                    cnt == self.nodes@[i as int].children@.len(),
                    j <= cnt,
                    forall|a: int, b: int|
                        0 <= a < i && 0 <= b < self.nodes@[a].children@.len() ==> (
                        #[trigger] self.nodes@[a].children@[b]) < a,
                    forall|b: int|
                        0 <= b < j ==> (#[trigger] self.nodes@[i as int].children@[b]) < i,
                decreases cnt - j,
            {
                if self.nodes[i].children[j] >= i {
                    proof {
                        assert(!self.wf());
                    }
                    return false;
                }
                j = j + 1;
            }
            i = i + 1;
        }
        true
    }

    /// Counts the characters of `s`, clamped into `u64`.
    fn char_count_sat(s: &str) -> (n: u64)
        ensures
            n == sat_len(s@.len() as int),
    {
        let mut n: u64 = 0;
        for _c in it: s.chars()
            invariant
                n == sat_len(it.index()),
                it.seq() == s@,
        {
            if n < u64::MAX {
                n = n + 1;
            }
        }
        n
    }

    /// Computes the intrinsic (content-derived) size of node `i`.
    pub fn intrinsic_size(&self, i: usize) -> (s: (u64, u64))
        requires
            self.wf(),
            i < self.nodes@.len(),
        ensures
            s.0 == self.intrinsic_width(i as int),
            s.1 == self.intrinsic_height(i as int),
        decreases i,
    {
        let node = &self.nodes[i];
        let edge_x = node.padding_x.saturating_add(node.border);
        let edge_x2 = edge_x.saturating_add(edge_x);
        let edge_y = node.padding_y.saturating_add(node.border);
        let edge_y2 = edge_y.saturating_add(edge_y);
        let vertical = node.kind == Kind::Column;
        let cnt = node.children.len();
        if cnt == 0 {
            let with_content = node.kind == Kind::Text || node.kind == Kind::Button;
            let content_w: u64 = if with_content {
                Self::char_count_sat(node.text.as_str())
            } else {
                0
            };
            let content_h: u64 = if with_content {
                1
            } else {
                0
            };
            (content_w.saturating_add(edge_x2), content_h.saturating_add(edge_y2))
        } else {
            let mut off: u64 = 0;
            let mut maxc: u64 = 0;
            let mut extent: u64 = 0;
            let mut j: usize = 0;
            while j < cnt
                invariant
                    self.wf(),
                    i < self.nodes@.len(),
                    *node == self.nodes@[i as int],
                    cnt == node.children@.len(),
                    j <= cnt,
                    vertical == (node.kind is Column),
                    off == self.child_offset(i as int, j as int),
                    maxc == self.cross_max(i as int, j as int),
                    j > 0 ==> extent == self.child_offset(i as int, j - 1).saturating_add(
                        self.kid_main(i as int, j - 1),
                    ),
                decreases cnt - j,
            {
                let c = node.children[j];
                proof {
                    assert(self.nodes@[i as int].children@[j as int] < i);
                }
                let (cw, ch) = self.intrinsic_size(c);
                let main = if vertical {
                    ch
                } else {
                    cw
                };
                let cross = if vertical {
                    cw
                } else {
                    ch
                };
                proof {
                    assert(self.kid_ok(i as int, j as int));
                    assert(main == self.kid_main(i as int, j as int));
                    assert(cross == self.kid_cross(i as int, j as int));
                }
                extent = off.saturating_add(main);
                if cross > maxc {
                    maxc = cross;
                }
                off = off.saturating_add(main).saturating_add(node.gap);
                j = j + 1;
            }
            let content_w = if vertical {
                maxc
            } else {
                extent
            };
            let content_h = if vertical {
                extent
            } else {
                maxc
            };
            (content_w.saturating_add(edge_x2), content_h.saturating_add(edge_y2))
        }
    }

    /// Appends the frame list of the subtree rooted at node `i`, placed at
    /// `(x, y)` with size `(w, h)`, to `out`.
    fn layout_into(&self, i: usize, x: u64, y: u64, w: u64, h: u64, out: &mut Vec<Frame>)
        requires
            self.wf(),
            i < self.nodes@.len(),
        ensures
            final(out)@ == old(out)@ + self.spec_frames(i as int, x, y, w, h),
        decreases i,
    {
        out.push(Frame { x, y, width: w, height: h });
        let node = &self.nodes[i];
        let edge_x = node.padding_x.saturating_add(node.border);
        let edge_y = node.padding_y.saturating_add(node.border);
        let cx = x.saturating_add(edge_x);
        let cy = y.saturating_add(edge_y);
        let content_w = w.saturating_sub(edge_x.saturating_add(edge_x));
        let content_h = h.saturating_sub(edge_y.saturating_add(edge_y));
        let vertical = node.kind == Kind::Column;
        let stretch = node.kind == Kind::Row || node.kind == Kind::Column;
        let cnt = node.children.len();
        proof {
            assert(out@ + self.frames_children(i as int, 0, x, y, w, h) =~= old(out)@
                + self.spec_frames(i as int, x, y, w, h));
        }
        let mut off: u64 = 0;
        let mut j: usize = 0;
        while j < cnt
            invariant
                self.wf(),
                i < self.nodes@.len(),
                *node == self.nodes@[i as int],
                cnt == node.children@.len(),
                j <= cnt,
                vertical == (node.kind is Column),
                stretch == node.kind.stretches(),
                edge_x == node.inset_x(),
                edge_y == node.inset_y(),
                cx == x.saturating_add(node.inset_x()),
                cy == y.saturating_add(node.inset_y()),
                content_w == w.saturating_sub(node.inset_x().saturating_add(node.inset_x())),
                content_h == h.saturating_sub(node.inset_y().saturating_add(node.inset_y())),
                off == self.child_offset(i as int, j as int),
                out@ + self.frames_children(i as int, j as int, x, y, w, h) == old(out)@
                    + self.spec_frames(i as int, x, y, w, h),
            decreases cnt - j,
        {
            let c = node.children[j];
            proof {
                assert(self.nodes@[i as int].children@[j as int] < i);
                assert(self.kid_ok(i as int, j as int));
            }
            let (iw, ih) = self.intrinsic_size(c);
            let main = if vertical {
                ih
            } else {
                iw
            };
            let fx: u64;
            let fy: u64;
            let fw: u64;
            let fh: u64;
            if vertical {
                fx = cx;
                fy = cy.saturating_add(off);
                fw = if stretch {
                    content_w
                } else {
                    iw
                };
                fh = ih;
            } else {
                fx = cx.saturating_add(off);
                fy = cy;
                fw = iw;
                fh = if stretch {
                    content_h
                } else {
                    ih
                };
            }
            proof {
                assert((Frame { x: fx, y: fy, width: fw, height: fh }) == self.child_frame(
                    i as int,
                    j as int,
                    x,
                    y,
                    w,
                    h,
                ));
            }
            let ghost out_pre = out@;
            self.layout_into(c, fx, fy, fw, fh, out);
            proof {
                let sf = self.spec_frames(self.kid(i as int, j as int), fx, fy, fw, fh);
                let fc_next = self.frames_children(i as int, j as int + 1, x, y, w, h);
                assert((out_pre + sf) + fc_next =~= out_pre + (sf + fc_next));
                assert(self.frames_children(i as int, j as int, x, y, w, h) == sf + fc_next);
            }
            off = off.saturating_add(main).saturating_add(node.gap);
            j = j + 1;
        }
        proof {
            assert(self.frames_children(i as int, cnt as int, x, y, w, h) == Seq::<Frame>::empty());
            assert(out@ + Seq::<Frame>::empty() =~= out@);
        }
    }

    /// Solves the tree against the root constraint `(width, height)`.  The
    /// root — the last node of the arena — is sized exactly to the
    /// constraint, every descendant is placed and sized by its style, and
    /// the frames come out in pre-order.
    pub fn solve(&self, width: u64, height: u64) -> (frames: Vec<Frame>)
        requires
            self.wf(),
            self.node_count() >= 1,
        ensures
            frames@ == self.spec_solve(width, height),
            frames@.len() >= 1,
            frames@[0] == (Frame { x: 0, y: 0, width, height }),
    {
        let mut out: Vec<Frame> = Vec::new();
        let root = self.nodes.len() - 1;
        self.layout_into(root, 0, 0, width, height, &mut out);
        proof {
            assert(out@ =~= self.spec_solve(width, height));
        }
        out
    }
}

/// The layout of a tree is a function of the tree and the root constraint
/// alone: two solves of identical inputs yield bit-identical frame lists.
pub proof fn lemma_solve_deterministic(
    t: StyleTree,
    width: u64,
    height: u64,
    a: Seq<Frame>,
    b: Seq<Frame>,
)
    requires
        a == t.spec_solve(width, height),
        b == t.spec_solve(width, height),
    ensures
        a == b,
{
}

/// The frame list of any subtree starts with that subtree's own frame,
/// placed and sized exactly as requested; in particular the whole tree's
/// first frame is the root at the origin with the requested size.
pub proof fn lemma_root_sizing(t: StyleTree, width: u64, height: u64)
    requires
        t.wf(),
        t.node_count() >= 1,
    ensures
        t.spec_solve(width, height).len() >= 1,
        t.spec_solve(width, height)[0] == (Frame { x: 0, y: 0, width, height }),
{
}

/// For a node with exactly two children the frame list is pre-order: the
/// node's own frame, then the whole frame list of the first child's
/// subtree, then the whole frame list of the second child's subtree.
pub proof fn lemma_preorder_two_children(t: StyleTree, i: int, x: u64, y: u64, w: u64, h: u64)
    requires
        t.wf(),
        0 <= i < t.node_count(),
        t.kid_count(i) == 2,
    ensures
        ({
            let fa = t.child_frame(i, 0, x, y, w, h);
            let fb = t.child_frame(i, 1, x, y, w, h);
            t.spec_frames(i, x, y, w, h) == seq![Frame { x, y, width: w, height: h }]
                + t.spec_frames(t.kid(i, 0), fa.x, fa.y, fa.width, fa.height) + t.spec_frames(
                t.kid(i, 1),
                fb.x,
                fb.y,
                fb.width,
                fb.height,
            )
        }),
{
    assert(t.nodes@[i].children@[0] < i);
    assert(t.nodes@[i].children@[1] < i);
    let fa = t.child_frame(i, 0, x, y, w, h);
    let fb = t.child_frame(i, 1, x, y, w, h);
    let sa = t.spec_frames(t.kid(i, 0), fa.x, fa.y, fa.width, fa.height);
    let sb = t.spec_frames(t.kid(i, 1), fb.x, fb.y, fb.width, fb.height);
    assert(t.frames_children(i, 2, x, y, w, h) == Seq::<Frame>::empty());
    assert(t.frames_children(i, 1, x, y, w, h) == sb + Seq::<Frame>::empty());
    assert(sb + Seq::<Frame>::empty() =~= sb);
    assert(t.frames_children(i, 0, x, y, w, h) == sa + sb);
    assert(seq![Frame { x, y, width: w, height: h }] + (sa + sb) =~= (seq![
        Frame { x, y, width: w, height: h },
    ] + sa) + sb);
}

/// A leaf `text` or `button` node with no padding and no border measures
/// intrinsically to its character count by one row.
pub proof fn lemma_text_intrinsic(t: StyleTree, i: int)
    requires
        t.wf(),
        0 <= i < t.node_count(),
        t.nodes@[i].kind.has_content(),
        t.nodes@[i].children@.len() == 0,
        t.nodes@[i].padding_x == 0,
        t.nodes@[i].padding_y == 0,
        t.nodes@[i].border == 0,
        t.nodes@[i].text@.len() <= u64::MAX,
    ensures
        t.intrinsic_width(i) == t.nodes@[i].text@.len(),
        t.intrinsic_height(i) == 1,
{
}

} // verus!
