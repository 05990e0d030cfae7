//! The tree builder: appends components to the encoded buffer as a
//! depth-first walk discovers entries, consulting a `PathVisitor` for
//! inclusion and error classification.
//!
//! The caller drives the walk: it screens each entry, reports the entry's
//! type — or the error handler's verdict on a failed type query — once known,
//! descends into directories, and closes each one again.  What each policy
//! answer and handler verdict means is fixed by the decision functions
//! (`filter_step`, `visit_step`, `route_screen_verdict`, `record_entry`),
//! which take the answers as plain values.  The builder keeps the buffer
//! balanced at every step — each recorded entry contributes exactly one
//! `Name` and one `Up` — so a finished build is a structurally valid
//! encoded tree, and an abandoned one produces nothing.

use vstd::prelude::*;
use crate::encoding::Component;
use crate::encoding::ComponentView;
use crate::encoding::never_below;
use crate::encoding::net_depth;
use crate::encoding::count_names;
use crate::encoding::lemma_push_component;
use crate::errors::TreeError;
use crate::visitor::PathVisitor;
use crate::tree::CompactPathTree;

verus! {

/// The type of one filesystem entry, as reported by the entry's type query.
/// Only `Directory` entries are descended into; symbolic links are recorded
/// but never followed, even when they resolve to directories.
#[derive(Clone, Copy, PartialEq, Eq, Debug)]
pub enum EntryKind {
    File,
    Directory,
    Symlink,
    Other,
}

/// The verdict of screening one entry against the policy, before its type
/// is queried and before the buffer is touched.
#[derive(Clone, PartialEq, Eq, Debug)]
pub enum ScreenOutcome {
    /// The entry is left out: the policy filtered it out, or it raised an
    /// error the policy classified as ignorable.
    Excluded,
    /// The entry passed `filter` and `visit`; its type should now be
    /// queried and handed to `record_entry`.
    Accepted,
    /// The policy classified an error as fatal: the build must abort.
    Fatal(TreeError),
}

/// The verdict of recording one screened entry, given its type query's
/// outcome.
#[derive(Clone, PartialEq, Eq, Debug)]
pub enum RecordOutcome {
    /// The type query failed and the policy ignored the error; the buffer
    /// is untouched and the walk continues with the next sibling.
    Skipped,
    /// The entry was recorded in full; nothing more to do for it.
    File,
    /// The entry is a directory and its opening `Name` was recorded: the
    /// caller must now walk its contents and then call `ascend`, whether or
    /// not the walk inside succeeded.
    Descend,
    /// The policy classified the type query's error as fatal: the build
    /// must abort.
    Fatal(TreeError),
}

/// What the walk does next with one policy answer about an entry: include
/// it, leave it out, or consult the error handler with the answer's
/// error.
#[derive(Clone, PartialEq, Eq, Debug)]
pub enum AnswerStep {
    Include,
    Exclude,
    Consult(TreeError),
}

/// The step taken on the policy's `filter` answer, before any state is
/// touched: `Ok(true)` includes the entry, `Ok(false)` leaves it out —
/// and with it, for a directory, its entire subtree — and an error is
/// referred to the error handler.
pub fn filter_step(answer: Result<bool, TreeError>) -> (r: AnswerStep)
    ensures
        answer == Ok::<bool, TreeError>(true) ==> r == AnswerStep::Include,
        answer == Ok::<bool, TreeError>(false) ==> r == AnswerStep::Exclude,
        answer matches Err(e) ==> r == AnswerStep::Consult(e),
{
    match answer {
        Ok(true) => AnswerStep::Include,
        Ok(false) => AnswerStep::Exclude,
        Err(e) => AnswerStep::Consult(e),
    }
}

/// The step taken on the policy's `visit` answer: observation never
/// excludes an entry on its own — success keeps it included, an error is
/// referred to the error handler.
pub fn visit_step(answer: Result<(), TreeError>) -> (r: AnswerStep)
    ensures
        answer == Ok::<(), TreeError>(()) ==> r == AnswerStep::Include,
        answer matches Err(e) ==> r == AnswerStep::Consult(e),
        r != AnswerStep::Exclude,
{
    match answer {
        Ok(()) => AnswerStep::Include,
        Err(e) => AnswerStep::Consult(e),
    }
}

/// The screening decision that the error handler's verdict settles: an
/// ignored error (`None`) excludes the offending entry or listing and the
/// walk continues, a fatal one aborts the build with exactly the
/// error handler's error.  A consulted error never accepts.
pub fn route_screen_verdict(verdict: Option<TreeError>) -> (r: ScreenOutcome)
    ensures
        verdict == None::<TreeError> ==> r == ScreenOutcome::Excluded,
        verdict matches Some(f) ==> r == ScreenOutcome::Fatal(f),
        r != ScreenOutcome::Accepted,
{
    match verdict {
        None => ScreenOutcome::Excluded,
        Some(fatal) => ScreenOutcome::Fatal(fatal),
    }
}

/// Screen one entry against the policy: run `filter` and, for included
/// entries, `visit`, referring every error to `handle_error`.
///
/// This consults the policy only and mutates nothing, so an entry that is
/// excluded — or whose error is ignored — leaves no trace.  Which answers
/// come back is the policy's decision alone; what each answer means is
/// fixed by `filter_step`, `visit_step` and `route_screen_verdict`, which
/// this function only sequences.
pub fn screen_entry<V: PathVisitor>(
    visitor: &mut V,
    directory: &Vec<String>,
    name: &String,
) -> (r: ScreenOutcome) {
    match filter_step(visitor.filter(directory, name)) {
        AnswerStep::Exclude => ScreenOutcome::Excluded,
        AnswerStep::Consult(e) => route_screen_verdict(
            visitor.handle_error(e, directory, Some(name)),
        ),
        AnswerStep::Include => match visit_step(visitor.visit(directory, name)) {
            AnswerStep::Include => ScreenOutcome::Accepted,
            AnswerStep::Consult(e) => route_screen_verdict(
                visitor.handle_error(e, directory, Some(name)),
            ),
            // visit_step never takes this step
            AnswerStep::Exclude => ScreenOutcome::Excluded,
        },
    }
}

/// Route a failure of a directory listing itself through the policy, with
/// no entry at fault: an ignored error skips the directory's remaining
/// processing, a fatal one aborts the build.
///
/// Which verdict comes back is the policy's decision alone; what the
/// verdict means is fixed by `route_screen_verdict`, which this function
/// only applies.
pub fn screen_listing_error<V: PathVisitor>(
    visitor: &mut V,
    directory: &Vec<String>,
    error: TreeError,
) -> (r: ScreenOutcome)
    ensures
        r != ScreenOutcome::Accepted,
{
    route_screen_verdict(visitor.handle_error(error, directory, None))
}

/// A builder for one in-progress encoded buffer.  `depth` is the number of
/// directories entered and not yet closed; the buffer always scans without
/// ascending past the root and comes back to rest exactly `depth` levels
/// down.
pub struct TreeBuilder {
    buf: Vec<Component>,
    depth: usize,
}

impl TreeBuilder {
    /// The buffer built so far, as its mathematical image.
    pub closed spec fn buf_view(self) -> Seq<ComponentView> {
        self.buf.deep_view()
    }

    /// The number of directories entered and not yet closed.
    pub closed spec fn spec_depth(self) -> int {
        self.depth as int
    }

    /// Structural soundness: the buffer never ascends past the root, and
    /// its net descent equals the open-directory count.
    pub open spec fn wf(self) -> bool {
        &&& never_below(self.buf_view(), 0)
        &&& net_depth(self.buf_view()) == self.spec_depth()
    }

    /// Start a build with an empty buffer at the root level.
    pub fn new() -> (b: TreeBuilder)
        ensures
            b.wf(),
            b.buf_view() == Seq::<ComponentView>::empty(),
            b.spec_depth() == 0,
    {
        TreeBuilder { buf: Vec::new(), depth: 0 }
    }

    /// The number of directories entered and not yet closed.
    pub fn depth(&self) -> (d: usize)
        ensures
            d == self.spec_depth(),
    {
        self.depth
    }

    /// Record one screened entry, given the outcome of its type query: the
    /// entry's type, or — when the query failed — the error handler's
    /// verdict on the failure, which the caller obtains from the policy's
    /// `handle_error`.
    ///
    /// The type is queried before the buffer is touched, deliberately: when
    /// the query fails and the policy ignores the error (`Err(None)`), the
    /// entry is skipped with the buffer left exactly as it was, so an
    /// ignored entry leaves no partial trace; a fatal verdict
    /// (`Err(Some(..))`) aborts with exactly the error handler's error,
    /// likewise leaving no trace.  A directory gets its `Name` recorded and
    /// the caller descends; any other kind is recorded whole, as `Name`
    /// then `Up`.
    pub fn record_entry(
        &mut self,
        name: &String,
        kind: Result<EntryKind, Option<TreeError>>,
    ) -> (r: RecordOutcome)
        requires
            old(self).wf(),
            old(self).spec_depth() < usize::MAX,
        ensures
            final(self).wf(),
            kind == Ok::<EntryKind, Option<TreeError>>(EntryKind::Directory) ==> {
                &&& r == RecordOutcome::Descend
                &&& final(self).buf_view() == old(self).buf_view().push(
                    ComponentView::Name(name@),
                )
                &&& final(self).spec_depth() == old(self).spec_depth() + 1
            },
            (kind matches Ok(k) && k != EntryKind::Directory) ==> {
                &&& r == RecordOutcome::File
                &&& final(self).buf_view() == old(self).buf_view() + seq![
                    ComponentView::Name(name@),
                    ComponentView::Up,
                ]
                &&& final(self).spec_depth() == old(self).spec_depth()
            },
            kind matches Ok(_) ==> count_names(final(self).buf_view()) == count_names(
                old(self).buf_view(),
            ) + 1,
            kind matches Err(None) ==> {
                &&& *final(self) == *old(self)
                &&& r == RecordOutcome::Skipped
            },
            kind matches Err(Some(f)) ==> {
                &&& *final(self) == *old(self)
                &&& r == RecordOutcome::Fatal(f)
            },
    {
        let kind = match kind {
            Ok(k) => k,
            Err(None) => {
                return RecordOutcome::Skipped;
            },
            Err(Some(fatal)) => {
                return RecordOutcome::Fatal(fatal);
            },
        };

        let ghost before = self.buf.deep_view();
        self.buf.push(Component::Name(name.clone()));
        proof {
            assert(self.buf.deep_view() =~= before + seq![ComponentView::Name(name@)]);
            lemma_push_component(before, ComponentView::Name(name@));
        }
        match kind {
            EntryKind::Directory => {
                self.depth = self.depth + 1;
                proof {
                    assert(self.buf.deep_view() =~= before.push(ComponentView::Name(name@)));
                }
                RecordOutcome::Descend
            },
            _ => {
                let ghost opened = self.buf.deep_view();
                self.buf.push(Component::Up);
                proof {
                    assert(self.buf.deep_view() =~= opened + seq![ComponentView::Up]);
                    lemma_push_component(opened, ComponentView::Up);
                    assert(self.buf.deep_view() =~= before + seq![
                        ComponentView::Name(name@),
                        ComponentView::Up,
                    ]);
                }
                RecordOutcome::File
            },
        }
    }

    /// Close the directory entered most recently: append its `Up` marker.
    ///
    /// Called after the walk inside the directory comes back, whether it
    /// succeeded or failed, so that an enclosing ignorable classification
    /// still sees a balanced buffer.
    pub fn ascend(&mut self)
        requires
            old(self).wf(),
            old(self).spec_depth() > 0,
        ensures
            final(self).wf(),
            final(self).buf_view() == old(self).buf_view().push(ComponentView::Up),
            final(self).spec_depth() == old(self).spec_depth() - 1,
            count_names(final(self).buf_view()) == count_names(old(self).buf_view()),
    {
        let ghost before = self.buf.deep_view();
        self.buf.push(Component::Up);
        self.depth = self.depth - 1;
        proof {
            assert(self.buf.deep_view() =~= before + seq![ComponentView::Up]);
            lemma_push_component(before, ComponentView::Up);
            assert(self.buf.deep_view() =~= before.push(ComponentView::Up));
        }
    }

    /// Wrap the finished buffer and the root it was built from into an
    /// immutable encoded tree.  Only a build whose every entered directory
    /// was closed again can finish, so the result is always structurally
    /// valid: a fatally aborted build never reaches this point and leaves
    /// no tree at all.
    pub fn finish(self, root: Vec<String>) -> (t: CompactPathTree)
        requires
            self.wf(),
            self.spec_depth() == 0,
        ensures
            t.wf(),
            t.buf_view() == self.buf_view(),
            t.root_view() == root.deep_view(),
    {
        CompactPathTree::from_parts(root, self.buf)
    }
}

} // verus!
