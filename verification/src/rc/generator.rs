//! The generator that owns its storage.

use crate::engine::{
    advance, cleared, steppable, steps_synchronously, surfaced, Airlock, Computation, Next, Slot,
};
use crate::ops::GeneratorState;
use vstd::prelude::*;

verus! {

/// A generator that is stepped synchronously. It owns its slot, and its
/// computation lives in an allocation of its own.
pub struct Gen<Y, R, F> {
    airlock: Slot<Y, R>,
    computation: Box<F>,
}

impl<Y, R, F: Computation<Slot<Y, R>>> Gen<Y, R, F> {
    /// The computation as it stands.
    pub closed spec fn computation(&self) -> F {
        *self.computation
    }

    /// The state of the generator's slot between two steps.
    pub closed spec fn slot(&self) -> Next<Y, R> {
        self.airlock.state()
    }

    /// True until the computation has run to its end.
    pub open spec fn live(&self) -> bool {
        self.computation().live()
    }

    /// True where the generator can be resumed with `arg`: the computation
    /// may be stepped from a slot that holds `arg`, and it suspends only
    /// where it has yielded.
    pub open spec fn resumable_with(&self, arg: R) -> bool {
        &&& self.computation().admits(Next::Resume(arg))
        &&& steps_synchronously(self.computation(), Next::Resume(arg))
    }

    /// What the next step produces when the computation is resumed with
    /// `arg`.
    pub open spec fn produces(&self, arg: R) -> GeneratorState<Y, F::Output> {
        surfaced(
            self.computation().outcome(Next::Resume(arg)),
            self.computation().slot_after(Next::Resume(arg)),
        )
    }

    /// A generator that runs `producer`, with an empty slot.
    pub fn new(producer: F) -> (gen: Self)
        ensures
            gen.computation() == producer,
            gen.slot() is Empty,
    {
        Gen { airlock: Slot::new(), computation: Box::new(producer) }
    }

    /// Resumes the computation with `arg` and returns what it produces
    /// next: the value of its next yield, or its result.
    ///
    /// `arg` becomes the result of the yield at which the computation is
    /// suspended. A computation that has not yielded yet does not see it.
    /// The slot is empty after a yield, and closed for good after the
    /// result.
    pub fn resume_with(&mut self, arg: R) -> (state: GeneratorState<Y, F::Output>)
        requires
            old(self).resumable_with(arg),
        ensures
            state == old(self).produces(arg),
            final(self).computation() == old(self).computation().successor(Next::Resume(arg)),
            final(self).slot() == cleared::<Y, R, F::Output>(
                old(self).computation().outcome(Next::Resume(arg)),
            ),
            final(self).live() == (old(self).live() && state is Yielded),
            final(self).live() ==> steppable::<Slot<Y, R>, F>(final(self).computation()),
    {
        self.airlock.replace(Next::Resume(arg));
        advance(&mut *self.computation, &mut self.airlock)
    }
}

impl<Y, F: Computation<Slot<Y, ()>>> Gen<Y, (), F> {
    /// Resumes a computation that takes no resume values and returns what
    /// it produces next.
    pub fn resume(&mut self) -> (state: GeneratorState<Y, F::Output>)
        requires
            old(self).resumable_with(()),
        ensures
            state == old(self).produces(()),
            final(self).computation() == old(self).computation().successor(Next::Resume(())),
            final(self).slot() == cleared::<Y, (), F::Output>(
                old(self).computation().outcome(Next::Resume(())),
            ),
            final(self).live() == (old(self).live() && state is Yielded),
            final(self).live() ==> steppable::<Slot<Y, ()>, F>(final(self).computation()),
    {
        self.resume_with(())
    }
}

} // verus!
