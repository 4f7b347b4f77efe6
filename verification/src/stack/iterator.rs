//! Generators as sequences.

use crate::engine::{cleared, steppable, Computation, Fin, Next, Slot};
use crate::ops::GeneratorState;
use crate::stack::generator::Gen;
use vstd::prelude::*;

verus! {

/// The item that stands for a step's product in a sequence: a yielded
/// value is the next item, and the computation's end is the end of the
/// sequence.
pub open spec fn item_of<Y>(state: GeneratorState<Y, ()>) -> Option<Y> {
    match state {
        GeneratorState::Yielded(value) => Some(value),
        GeneratorState::Complete(_) => None,
    }
}

/// Turns what a step produced into an item of a sequence, or into its end.
pub fn item<Y>(state: GeneratorState<Y, ()>) -> (item: Option<Y>)
    ensures
        item == item_of(state),
{
    match state {
        GeneratorState::Yielded(x) => Some(x),
        GeneratorState::Complete(()) => None,
    }
}

/// The values that a generator yields, as a sequence that is walked once.
pub struct IntoIter<'s, Y, F> {
    /// The generator that is walked.
    pub generator: Gen<'s, Y, (), F>,
}

/// The values that a borrowed generator yields, as a sequence that is
/// walked once.
pub struct MutIntoIter<'r, 's, Y, F> {
    /// The generator that is walked.
    pub generator: &'r mut Gen<'s, Y, (), F>,
}

impl<'s, Y, F: Computation<Slot<Y, ()>, Output = Fin<()>>> Gen<'s, Y, (), F> {
    /// Turns the generator into the sequence of the values it yields.
    #[must_use]
    pub fn into_iter(self) -> (iter: IntoIter<'s, Y, F>)
        ensures
            iter.generator == self,
    {
        IntoIter { generator: self }
    }

    /// The sequence of the values that the generator yields from here on.
    /// The generator stays with the caller, advanced by what the sequence
    /// took.
    pub fn iter_mut<'r>(&'r mut self) -> (iter: MutIntoIter<'r, 's, Y, F>)
        ensures
            *iter.generator == *old(self),
            *final(iter.generator) == *final(self),
    {
        MutIntoIter { generator: self }
    }
}

impl<'s, Y, F: Computation<Slot<Y, ()>, Output = Fin<()>>> IntoIter<'s, Y, F> {
    /// The next value that the computation yields, or `None` once it has
    /// run to its end. After `None` the sequence is spent: the computation
    /// is no longer live and its slot is closed.
    pub fn next(&mut self) -> (item: Option<Y>)
        requires
            old(self).generator.wf(),
            old(self).generator.resumable_with(()),
        ensures
            item == item_of(old(self).generator.produces(())),
            final(self).generator.wf(),
            final(self).generator.computation() == old(self).generator.computation().successor(
                Next::Resume(()),
            ),
            final(self).generator.slot() == cleared::<Y, (), Fin<()>>(
                old(self).generator.computation().outcome(Next::Resume(())),
            ),
            final(self).generator.live() == (old(self).generator.live() && item is Some),
            final(self).generator.live() ==> steppable::<Slot<Y, ()>, F>(
                final(self).generator.computation(),
            ),
    {
        item(self.generator.resume())
    }
}

impl<'r, 's, Y, F: Computation<Slot<Y, ()>, Output = Fin<()>>> MutIntoIter<'r, 's, Y, F> {
    /// The next value that the computation yields, or `None` once it has
    /// run to its end. After `None` the sequence is spent: the computation
    /// is no longer live and its slot is closed.
    pub fn next(&mut self) -> (item: Option<Y>)
        requires
            old(self).generator.wf(),
            old(self).generator.resumable_with(()),
        ensures
            item == item_of(old(self).generator.produces(())),
            final(self).generator.wf(),
            final(self).generator.computation() == old(self).generator.computation().successor(
                Next::Resume(()),
            ),
            final(self).generator.slot() == cleared::<Y, (), Fin<()>>(
                old(self).generator.computation().outcome(Next::Resume(())),
            ),
            final(self).generator.live() == (old(self).generator.live() && item is Some),
            final(self).generator.live() ==> steppable::<Slot<Y, ()>, F>(
                final(self).generator.computation(),
            ),
            *final(final(self).generator) == *final(old(self).generator),
    {
        item(self.generator.resume())
    }
}

} // verus!
