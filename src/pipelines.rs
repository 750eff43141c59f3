//! The ordered set of render pipelines that the init hook produces.

use vstd::prelude::*;

verus! {

/// Render-pipeline handles, indexed by the position at which they were added.
pub struct PipelineSet<P> {
    handles: Vec<P>,
}

impl<P> View for PipelineSet<P> {
    type V = Seq<P>;

    closed spec fn view(&self) -> Seq<P> {
        self.handles@
    }
}

impl<P> PipelineSet<P> {
    /// An empty set.
    pub fn new() -> (r: PipelineSet<P>)
        ensures
            r@ == Seq::<P>::empty(),
    {
        PipelineSet { handles: Vec::new() }
    }

    /// The set that holds `handles`, in the order in which they were pushed.
    pub fn from_vec(handles: Vec<P>) -> (r: PipelineSet<P>)
        ensures
            r@ == handles@,
    {
        PipelineSet { handles }
    }

    /// Adds `handle` after the others: its index is the former length.
    pub fn push(&mut self, handle: P)
        ensures
            final(self)@ == old(self)@.push(handle),
    {
        self.handles.push(handle);
    }

    /// Replaces the whole set, as an explicit rebuild does.
    pub fn rebuild(&mut self, handles: Vec<P>)
        ensures
            final(self)@ == handles@,
    {
        self.handles = handles;
    }

    /// Number of handles.
    pub fn len(&self) -> (r: usize)
        ensures
            r == self@.len(),
    {
        self.handles.len()
    }

    /// The handle at `index`. An index at or past the length is a caller
    /// error, ruled out by the precondition.
    pub fn get(&self, index: usize) -> (r: &P)
        requires
            index < self@.len(),
        ensures
            *r == self@[index as int],
    {
        &self.handles[index]
    }

    /// The handle at `index`, or `None` where the set holds fewer.
    pub fn try_get(&self, index: usize) -> (r: Option<&P>)
        ensures
            index < self@.len() ==> r == Some(&self@[index as int]),
            index >= self@.len() ==> r is None,
    {
        if index < self.handles.len() {
            Some(&self.handles[index])
        } else {
            None
        }
    }
}

/// After handles were pushed in order into a set that started empty, index
/// `i` resolves to the `i`-th handle pushed, and distinct handles pushed give
/// distinct handles back.
pub proof fn lemma_indices_follow_push_order<P>(pushed: Seq<P>, i: int, j: int)
    requires
        0 <= i < pushed.len(),
        0 <= j < pushed.len(),
        i != j,
        pushed[i] != pushed[j],
    ensures
        pushes_onto(Seq::<P>::empty(), pushed)[i] == pushed[i],
        pushes_onto(Seq::<P>::empty(), pushed)[i] != pushes_onto(Seq::<P>::empty(), pushed)[j],
{
    lemma_pushes_onto_appends(Seq::<P>::empty(), pushed);
    assert(Seq::<P>::empty() + pushed =~= pushed);
}

/// The contents of a set that held `start` after `pushed` was pushed onto it,
/// one handle at a time, front first.
pub open spec fn pushes_onto<P>(start: Seq<P>, pushed: Seq<P>) -> Seq<P>
    decreases pushed.len(),
{
    if pushed.len() == 0 {
        start
    } else {
        pushes_onto(start, pushed.drop_last()).push(pushed.last())
    }
}

/// Pushing handles one by one appends them.
pub proof fn lemma_pushes_onto_appends<P>(start: Seq<P>, pushed: Seq<P>)
    ensures
        pushes_onto(start, pushed) == start + pushed,
    decreases pushed.len(),
{
    if pushed.len() > 0 {
        lemma_pushes_onto_appends(start, pushed.drop_last());
        assert(start + pushed =~= (start + pushed.drop_last()).push(pushed.last()));
    } else {
        assert(start + pushed =~= start);
    }
}

} // verus!
