//! The generator that borrows its storage.

use crate::engine::{
    advance, cleared, steppable, steps_synchronously, surfaced, Airlock, Computation, Fin, Fin_,
    Next, Slot,
};
use crate::ops::GeneratorState;
use vstd::prelude::*;

verus! {

/// Storage for one generator: its slot, and room for its computation.
pub struct Shelf<Y, R, F> {
    airlock: Slot<Y, R>,
    computation: Option<F>,
}

impl<Y, R, F> Shelf<Y, R, F> {
    /// True of storage in which no generator has been set up.
    pub closed spec fn vacant(&self) -> bool {
        self.computation is None && self.airlock.state() is Empty
    }

    /// Storage that no generator uses yet.
    pub fn new() -> (shelf: Self)
        ensures
            shelf.vacant(),
    {
        Shelf { airlock: Slot::new(), computation: None }
    }
}

/// What a generator hands out for a step of its computation that the
/// synchronous driver reported as `state`: the terminal value is opened.
pub open spec fn opened<Y, O>(state: GeneratorState<Y, Fin<O>>) -> GeneratorState<Y, O> {
    match state {
        GeneratorState::Yielded(value) => GeneratorState::Yielded(value),
        GeneratorState::Complete(fin) => GeneratorState::Complete(fin.value()),
    }
}

/// A generator that is stepped synchronously and keeps its state in a
/// [`Shelf`] of the caller.
pub struct Gen<'s, Y, R, F> {
    state: &'s mut Shelf<Y, R, F>,
}

impl<'s, Y, R, O, F: Computation<Slot<Y, R>, Output = Fin<O>>> Gen<'s, Y, R, F> {
    /// The computation as it stands.
    pub closed spec fn computation(&self) -> F {
        self.state.computation->Some_0
    }

    /// The state of the generator's slot between two steps.
    pub closed spec fn slot(&self) -> Next<Y, R> {
        self.state.airlock.state()
    }

    /// True of a generator whose storage holds its computation. Every
    /// generator that [`Gen::new`] has made is one.
    pub closed spec fn wf(&self) -> bool {
        self.state.computation is Some
    }

    /// True until the computation has run to its end.
    pub open spec fn live(&self) -> bool {
        self.computation().live()
    }

    /// True where the generator can be resumed with `arg`: the computation
    /// may be stepped from a slot that holds `arg`, and it suspends only
    /// where it has yielded.
    pub open spec fn resumable_with(&self, arg: R) -> bool {
        &&& self.computation().admits(Next::Resume(arg))
        &&& steps_synchronously(self.computation(), Next::Resume(arg))
    }

    /// What the next step produces when the computation is resumed with
    /// `arg`.
    pub open spec fn produces(&self, arg: R) -> GeneratorState<Y, O> {
        opened(
            surfaced(
                self.computation().outcome(Next::Resume(arg)),
                self.computation().slot_after(Next::Resume(arg)),
            ),
        )
    }

    /// Sets up a generator in `shelf` that runs `producer`. The slot starts
    /// out empty, whatever the storage held before.
    pub fn new(shelf: &'s mut Shelf<Y, R, F>, producer: F) -> (gen: Self)
        ensures
            gen.wf(),
            gen.computation() == producer,
            gen.slot() is Empty,
    {
        shelf.airlock = Slot::new();
        shelf.computation = Some(producer);
        Gen { state: shelf }
    }

    /// Resumes the computation with `arg` and returns what it produces
    /// next: the value of its next yield, or its result.
    ///
    /// `arg` becomes the result of the yield at which the computation is
    /// suspended. A computation that has not yielded yet does not see it.
    /// The slot is empty after a yield, and closed for good after the
    /// result.
    pub fn resume_with(&mut self, arg: R) -> (state: GeneratorState<Y, O>)
        requires
            old(self).wf(),
            old(self).resumable_with(arg),
        ensures
            state == old(self).produces(arg),
            final(self).wf(),
            final(self).computation() == old(self).computation().successor(Next::Resume(arg)),
            final(self).slot() == cleared::<Y, R, Fin<O>>(
                old(self).computation().outcome(Next::Resume(arg)),
            ),
            final(self).live() == (old(self).live() && state is Yielded),
            final(self).live() ==> steppable::<Slot<Y, R>, F>(final(self).computation()),
    {
        self.state.airlock.replace(Next::Resume(arg));
        match &mut self.state.computation {
            Some(computation) => {
                match advance(computation, &mut self.state.airlock) {
                    GeneratorState::Yielded(value) => GeneratorState::Yielded(value),
                    GeneratorState::Complete(fin) => GeneratorState::Complete(fin.unwrap()),
                }
            },
            None => unreached(),
        }
    }
}

impl<'s, Y, O, F: Computation<Slot<Y, ()>, Output = Fin<O>>> Gen<'s, Y, (), F> {
    /// Resumes a computation that takes no resume values and returns what
    /// it produces next.
    pub fn resume(&mut self) -> (state: GeneratorState<Y, O>)
        requires
            old(self).wf(),
            old(self).resumable_with(()),
        ensures
            state == old(self).produces(()),
            final(self).wf(),
            final(self).computation() == old(self).computation().successor(Next::Resume(())),
            final(self).slot() == cleared::<Y, (), Fin<O>>(
                old(self).computation().outcome(Next::Resume(())),
            ),
            final(self).live() == (old(self).live() && state is Yielded),
            final(self).live() ==> steppable::<Slot<Y, ()>, F>(final(self).computation()),
    {
        self.resume_with(())
    }
}

} // verus!
