//! Content updates held back while a committed render waits to be executed.
//!
//! Once a render is committed, what the next frame shows is fixed. Updates
//! that arrive before that render has run are queued here and handed out, in
//! the order of their arrival and each exactly once, right after it.

use vstd::prelude::*;

verus! {

/// An ordered queue of update batches. Its view is the sequence of batches
/// in the order of their arrival.
pub struct DrawCommandBuffer<B> {
    batches: Vec<B>,
}

impl<B> View for DrawCommandBuffer<B> {
    type V = Seq<B>;

    closed spec fn view(&self) -> Seq<B> {
        self.batches@
    }
}

/// The queue `queued` after the batches of `arrivals` have been appended one
/// by one.
pub open spec fn pushed_all<B>(queued: Seq<B>, arrivals: Seq<B>) -> Seq<B>
    decreases arrivals.len(),
{
    if arrivals.len() == 0 {
        queued
    } else {
        pushed_all(queued, arrivals.drop_last()).push(arrivals.last())
    }
}

impl<B> DrawCommandBuffer<B> {
    /// An empty queue.
    pub fn new() -> (buffer: DrawCommandBuffer<B>)
        ensures
            buffer@ == Seq::<B>::empty(),
    {
        DrawCommandBuffer { batches: Vec::new() }
    }

    /// The number of batches that wait.
    pub fn len(&self) -> (n: usize)
        ensures
            n == self@.len(),
    {
        self.batches.len()
    }

    /// Whether no batch waits.
    pub fn is_empty(&self) -> (empty: bool)
        ensures
            empty == (self@.len() == 0),
    {
        self.batches.len() == 0
    }

    /// Appends `batch` behind the batches that already wait.
    pub fn push(&mut self, batch: B)
        ensures
            final(self)@ == old(self)@.push(batch),
    {
        self.batches.push(batch);
    }

    /// Hands out all waiting batches in the order of their arrival and
    /// leaves the queue empty.
    pub fn drain(&mut self) -> (batches: Vec<B>)
        ensures
            batches@ == old(self)@,
            final(self)@ == Seq::<B>::empty(),
    {
        let mut batches: Vec<B> = Vec::new();
        std::mem::swap(&mut self.batches, &mut batches);
        batches
    }
}

/// Batches appended one by one wait behind those already queued, in the
/// order in which they were appended.
pub proof fn lemma_pushed_all_appends<B>(queued: Seq<B>, arrivals: Seq<B>)
    ensures
        pushed_all(queued, arrivals) == queued + arrivals,
    decreases arrivals.len(),
{
    if arrivals.len() == 0 {
        assert(queued + arrivals =~= queued);
    } else {
        lemma_pushed_all_appends(queued, arrivals.drop_last());
        assert(queued + arrivals =~= (queued + arrivals.drop_last()).push(arrivals.last()));
    }
}

} // verus!
