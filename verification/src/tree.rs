//! The finished encoded tree and its decoder.
//!
//! A `CompactPathTree` is immutable: the root it was built from and the
//! balanced buffer of components, behind read-only accessors.  The decoder
//! replays the buffer against a cursor seeded at the root, yielding each
//! recorded absolute path once, parents strictly before children, in
//! discovery order.

use vstd::prelude::*;
use crate::encoding::Component;
use crate::encoding::ComponentView;
use crate::encoding::never_below;
use crate::encoding::net_depth;
use crate::encoding::count_names;
use crate::encoding::decoded;
use crate::encoding::lemma_never_below_mono;
use crate::encoding::lemma_decoded_len;
use crate::encoding::lemma_len_twice_names;
use crate::encoding::lemma_decoded_prepend;

verus! {

/// Copy a path, component by component.
fn clone_path(p: &Vec<String>) -> (r: Vec<String>)
    ensures
        r@ == p@,
{
    let mut r: Vec<String> = Vec::new();
    let mut i: usize = 0;
    while i < p.len()
        invariant
            i <= p.len(),
            r@ == p@.take(i as int),
        decreases p.len() - i,
    {
        r.push(p[i].clone());
        proof {
            assert(r@ =~= p@.take(i + 1));
        }
        i = i + 1;
    }
    proof {
        assert(p@.take(p.len() as int) =~= p@);
    }
    r
}

/// A compact immutable representation of the paths within a directory:
/// the root the build started from, and the encoded buffer of components
/// recorded by the walk.
#[derive(Clone, PartialEq, Eq, Debug)]
pub struct CompactPathTree {
    root: Vec<String>,
    path: Vec<Component>,
}

impl CompactPathTree {
    /// The encoded buffer, as its mathematical image.
    pub closed spec fn buf_view(self) -> Seq<ComponentView> {
        self.path.deep_view()
    }

    /// The root path, as its components' character sequences.
    pub closed spec fn root_view(self) -> Seq<Seq<char>> {
        self.root.deep_view()
    }

    /// Structural validity: scanning the buffer from the root never
    /// ascends past the root and ends back at the root level.
    pub open spec fn wf(self) -> bool {
        &&& never_below(self.buf_view(), 0)
        &&& net_depth(self.buf_view()) == 0
    }

    /// The absolute paths this tree stores, in discovery order: the result
    /// of decoding the buffer from the root.
    pub open spec fn paths(self) -> Seq<Seq<Seq<char>>> {
        decoded(self.root_view(), self.buf_view())
    }

    /// Wrap a finished, balanced buffer with its root.  Only the builder
    /// constructs trees, so every tree observable by callers is valid.
    pub(crate) fn from_parts(root: Vec<String>, path: Vec<Component>) -> (t: CompactPathTree)
        requires
            never_below(path.deep_view(), 0),
            net_depth(path.deep_view()) == 0,
        ensures
            t.wf(),
            t.buf_view() == path.deep_view(),
            t.root_view() == root.deep_view(),
    {
        CompactPathTree { root, path }
    }

    /// The underlying encoded buffer this tree is represented as, exposed
    /// for diagnostics and size measurement.
    pub fn inner(&self) -> (r: &Vec<Component>)
        ensures
            r.deep_view() == self.buf_view(),
    {
        &self.path
    }

    /// The root path this tree was constructed from.
    pub fn root(&self) -> (r: &Vec<String>)
        ensures
            r.deep_view() == self.root_view(),
    {
        &self.root
    }

    /// A fresh decoder over the paths stored in this tree.
    ///
    /// The root itself is not yielded, only its contents, parents strictly
    /// before children, in the order the build discovered them.  Each call
    /// makes an independent cursor over the same tree.
    pub fn iter(&self) -> (it: CompactPathTreeIter<'_>)
        requires
            self.wf(),
        ensures
            it.wf(),
            it.remaining() == self.paths(),
    {
        let current = clone_path(&self.root);
        proof {
            lemma_never_below_mono(self.buf_view(), 0, self.root_view().len() as int);
            assert(self.path.deep_view().skip(0) =~= self.path.deep_view());
        }
        CompactPathTreeIter { current, buf: &self.path, pos: 0 }
    }
}

/// One in-progress decode: a cursor path and a position in the buffer.
/// Forward-only and transient; several may read one tree at once.
pub struct CompactPathTreeIter<'a> {
    current: Vec<String>,
    buf: &'a Vec<Component>,
    pos: usize,
}

impl<'a> CompactPathTreeIter<'a> {
    /// The part of the buffer not yet scanned.
    pub closed spec fn rest(self) -> Seq<ComponentView> {
        self.buf.deep_view().skip(self.pos as int)
    }

    /// The cursor path, as its components' character sequences.
    pub closed spec fn cursor_view(self) -> Seq<Seq<char>> {
        self.current.deep_view()
    }

    /// The cursor is in step with the buffer: what is left to scan never
    /// pops the cursor empty.
    pub closed spec fn wf(self) -> bool {
        &&& self.pos <= self.buf@.len()
        &&& never_below(self.rest(), self.cursor_view().len() as int)
    }

    /// The paths this cursor has yet to yield.
    pub open spec fn remaining(self) -> Seq<Seq<Seq<char>>> {
        decoded(self.cursor_view(), self.rest())
    }

    /// Yield the next recorded path, or `None` once the buffer is
    /// exhausted: scan forward, popping the cursor on each `Up`, and on a
    /// `Name` push it and yield a copy of the extended cursor.
    #[verifier::loop_isolation(false)]
    pub fn next(&mut self) -> (r: Option<Vec<String>>)
        requires
            old(self).wf(),
        ensures
            final(self).wf(),
            match r {
                Some(p) => {
                    &&& old(self).remaining().len() > 0
                    &&& p.deep_view() == old(self).remaining()[0]
                    &&& final(self).remaining() == old(self).remaining().drop_first()
                },
                None => {
                    &&& old(self).remaining() == Seq::<Seq<Seq<char>>>::empty()
                    &&& final(self).remaining() == Seq::<Seq<Seq<char>>>::empty()
                },
            },
    {
        let ghost orig = self.remaining();
        let buf_ref: &Vec<Component> = self.buf;
        while self.pos < buf_ref.len()
            invariant
                self.buf == buf_ref,
                self.pos <= self.buf@.len(),
                never_below(self.rest(), self.current.deep_view().len() as int),
                decoded(self.current.deep_view(), self.rest()) == orig,
            decreases self.buf@.len() - self.pos,
        {
            let ghost cur = self.current.deep_view();
            let ghost rest = self.rest();
            proof {
                assert(rest[0] == self.buf.deep_view()[self.pos as int]);
                assert(rest.drop_first() =~= self.buf.deep_view().skip(self.pos + 1));
            }
            match &buf_ref[self.pos] {
                Component::Up => {
                    proof {
                        assert(rest[0] == ComponentView::Up);
                        assert(cur.len() >= 1);
                    }
                    self.current.pop();
                    self.pos = self.pos + 1;
                    proof {
                        assert(self.current.deep_view() =~= cur.drop_last());
                    }
                },
                Component::Name(s) => {
                    proof {
                        assert(rest[0] == ComponentView::Name(s@));
                    }
                    self.current.push(s.clone());
                    self.pos = self.pos + 1;
                    proof {
                        assert(self.current.deep_view() =~= cur.push(s@));
                    }
                    let out = clone_path(&self.current);
                    proof {
                        assert(out.deep_view() =~= self.current.deep_view());
                        assert(orig == seq![cur.push(s@)] + decoded(cur.push(s@), rest.drop_first()));
                        assert(orig.drop_first() =~= decoded(cur.push(s@), rest.drop_first()));
                    }
                    return Some(out);
                },
            }
        }
        proof {
            assert(self.rest() =~= Seq::<ComponentView>::empty());
        }
        None
    }
}

/// Law: a structurally valid tree stores exactly one path per recorded
/// entry, and its buffer holds exactly two components — one `Name`, one
/// `Up` — per recorded entry: the decoder yields half as many paths as the
/// buffer has components.
pub proof fn lemma_path_count(t: CompactPathTree)
    requires
        t.wf(),
    ensures
        t.paths().len() == count_names(t.buf_view()),
        2 * t.paths().len() == t.buf_view().len(),
{
    lemma_decoded_len(t.root_view(), t.buf_view());
    lemma_len_twice_names(t.buf_view());
}

/// Law: decoding never escapes the root.  Every path a valid tree yields
/// is the root extended by the entry's recorded relative path: the paths
/// from the root are exactly the paths decoded relative to nothing, each
/// prefixed with the root.
pub proof fn lemma_paths_extend_root(t: CompactPathTree)
    requires
        t.wf(),
    ensures
        t.paths() == decoded(Seq::empty(), t.buf_view()).map_values(
            (|p: Seq<Seq<char>>| t.root_view() + p),
        ),
{
    let root = t.root_view();
    lemma_decoded_prepend(root, Seq::empty(), t.buf_view());
    assert(root + Seq::<Seq<char>>::empty() =~= root);
}

} // verus!
