//! The rendezvous engine: the slot, the producer's handle on it, and the two
//! drivers.

use crate::ops::GeneratorState;
use vstd::prelude::*;

mod hidden;

verus! {

/// What the rendezvous slot holds. At most one value is pending at a time.
#[derive(Debug, PartialEq, Eq)]
pub enum Next<Y, R> {
    /// Nothing is pending.
    Empty,
    /// The computation has handed over a value that the driver has not taken.
    Yield(Y),
    /// The driver has supplied a value that the computation has not taken.
    Resume(R),
    /// The computation has finished. Nothing follows this state.
    Completed,
}

impl<Y, R> Next<Y, R> {
    /// The state with whatever value it carries forgotten.
    pub open spec fn shape(self) -> Next<(), ()> {
        match self {
            Next::Empty => Next::Empty,
            Next::Yield(_) => Next::Yield(()),
            Next::Resume(_) => Next::Resume(()),
            Next::Completed => Next::Completed,
        }
    }

    /// True where a computation may hand over a value: nothing is waiting
    /// for the driver, and the slot has not been closed.
    pub open spec fn accepts_yield(self) -> bool {
        self is Empty || self is Resume
    }

    /// Tells which state is present without taking the value out.
    pub fn without_values(&self) -> (shape: Next<(), ()>)
        ensures
            shape == self.shape(),
    {
        match self {
            Next::Empty => Next::Empty,
            Next::Yield(_) => Next::Yield(()),
            Next::Resume(_) => Next::Resume(()),
            Next::Completed => Next::Completed,
        }
    }
}

/// How a step of a suspendable unit ended.
#[derive(Debug, PartialEq, Eq)]
pub enum Poll<T> {
    /// It ran to its end with this value.
    Ready(T),
    /// It suspended and has to be stepped again.
    Pending,
}

/// A rendezvous slot shared between a driver and the computation it drives.
///
/// The two sides take turns, so a slot is only ever reached through one
/// exclusive reference at a time.
pub trait Airlock {
    /// What the computation hands to the driver.
    type Yield;

    /// What the driver hands to the computation.
    type Resume;

    /// The state the slot is in.
    spec fn state(&self) -> Next<Self::Yield, Self::Resume>;

    /// Tells which state is present and leaves the slot as it is.
    fn peek(&self) -> (shape: Next<(), ()>)
        ensures
            shape == self.state().shape(),
    ;

    /// Puts `next` into the slot and returns what was there.
    fn replace(&mut self, next: Next<Self::Yield, Self::Resume>) -> (previous: Next<
        Self::Yield,
        Self::Resume,
    >)
        ensures
            previous == old(self).state(),
            final(self).state() == next,
    ;
}

/// A slot kept in plain memory that its owner lends out.
pub struct Slot<Y, R> {
    next: Next<Y, R>,
}

impl<Y, R> Slot<Y, R> {
    /// An empty slot.
    pub fn new() -> (slot: Self)
        ensures
            slot.state() is Empty,
    {
        Slot { next: Next::Empty }
    }
}

impl<Y, R> Airlock for Slot<Y, R> {
    type Yield = Y;

    type Resume = R;

    closed spec fn state(&self) -> Next<Y, R> {
        self.next
    }

    fn peek(&self) -> (shape: Next<(), ()>) {
        self.next.without_values()
    }

    fn replace(&mut self, next: Next<Y, R>) -> (previous: Next<Y, R>) {
        let mut held = next;
        core::mem::swap(&mut self.next, &mut held);
        held
    }
}

/// The producer's handle on the slot. A computation is lent one for each
/// step it takes, and gives it up to end the sequence.
pub struct Co<'a, A: Airlock> {
    /// The slot that this handle writes to.
    pub airlock: &'a mut A,
}

/// The suspension point that follows a yield. It stays pending until the
/// driver has answered the yield with a resume value.
pub struct Barrier<'a, A: Airlock> {
    /// The slot that this suspension point waits on.
    pub airlock: &'a mut A,
}

/// The result of a computation, set apart from the values it yields. Only
/// giving up a [`Co`] makes one.
pub struct Fin<O>(O);

/// A terminal value that a driver can open. Sealed: no type outside this
/// crate can stand for one.
pub trait Fin_: hidden::Seal_ {
    /// The type of the computation's result.
    type Output;

    /// The result that is wrapped.
    spec fn value(&self) -> Self::Output;

    /// Takes the result out.
    fn unwrap(self) -> (output: Self::Output)
        ensures
            output == self.value(),
    ;
}

impl<O> Fin<O> {
    /// The terminal value that wraps `value`.
    pub closed spec fn wrapping(value: O) -> Fin<O> {
        Fin(value)
    }

    /// A terminal value holds what it was made from.
    pub proof fn wrapping_keeps_value(value: O)
        ensures
            Self::wrapping(value).value() == value,
    {
    }

    /// A terminal value is the one that wraps what it holds: two that hold
    /// the same are the same.
    pub proof fn wrapping_is_exact(self)
        ensures
            self == Self::wrapping(self.value()),
    {
    }
}

impl<O> Fin_ for Fin<O> {
    type Output = O;

    closed spec fn value(&self) -> O {
        self.0
    }

    #[inline]
    fn unwrap(self) -> (output: O) {
        self.0
    }
}

/// What a step of the computation leaves behind while it waits at `slot`:
/// a yield that nobody has answered stays where it is, and an answer is
/// taken out.
pub open spec fn awaited<Y, R>(slot: Next<Y, R>) -> Next<Y, R> {
    match slot {
        Next::Resume(_) => Next::Empty,
        _ => slot,
    }
}

/// What the computation gets from waiting at `slot`: the resume value, once
/// the driver has supplied one.
pub open spec fn resumed<Y, R>(slot: Next<Y, R>) -> Poll<R> {
    match slot {
        Next::Resume(arg) => Poll::Ready(arg),
        _ => Poll::Pending,
    }
}

impl<'a, A: Airlock> Co<'a, A> {
    /// The state of the slot as seen through this handle.
    pub open spec fn slot(&self) -> Next<A::Yield, A::Resume> {
        self.airlock.state()
    }

    /// A handle on `airlock`. Whatever is done through the handle is done
    /// to `airlock`.
    pub fn new(airlock: &'a mut A) -> (co: Self)
        ensures
            co.slot() == old(airlock).state(),
            *final(co.airlock) == *final(airlock),
    {
        Co { airlock }
    }

    /// Tells which state the slot is in and leaves it as it is.
    pub fn peek(&self) -> (shape: Next<(), ()>)
        ensures
            shape == self.slot().shape(),
    {
        self.airlock.peek()
    }

    /// Hands `value` to the driver and returns the point at which the
    /// computation has to wait for the driver's answer.
    ///
    /// A second value may not be handed over while the first is still in
    /// the slot, and none at all once the slot is closed.
    pub fn yield_<'b>(&'b mut self, value: A::Yield) -> (barrier: Barrier<'b, A>)
        requires
            old(self).slot().accepts_yield(),
        ensures
            barrier.slot() == Next::<A::Yield, A::Resume>::Yield(value),
            *final(self).airlock == *final(barrier.airlock),
            *final(final(self).airlock) == *final(old(self).airlock),
    {
        self.airlock.replace(Next::Yield(value));
        Barrier { airlock: &mut *self.airlock }
    }

    /// The point at which the computation waits since it yielded in an
    /// earlier step.
    pub fn barrier<'b>(&'b mut self) -> (barrier: Barrier<'b, A>)
        ensures
            barrier.slot() == old(self).slot(),
            *final(self).airlock == *final(barrier.airlock),
            *final(final(self).airlock) == *final(old(self).airlock),
    {
        Barrier { airlock: &mut *self.airlock }
    }

    /// Ends the sequence with `value`. The handle is used up, and the slot
    /// stays as it is.
    pub fn return_<O>(self, value: O) -> (fin: Fin<O>)
        ensures
            fin == Fin::wrapping(value),
            fin.value() == value,
            *final(self.airlock) == *old(self.airlock),
    {
        Fin(value)
    }
}

impl<'a, A: Airlock> Barrier<'a, A> {
    /// The state of the slot as seen from this suspension point.
    pub open spec fn slot(&self) -> Next<A::Yield, A::Resume> {
        self.airlock.state()
    }

    /// Looks for the driver's answer. While the yield is still in the slot
    /// the computation stays suspended; once a resume value is there, it is
    /// taken out and returned.
    pub fn poll(&mut self) -> (polled: Poll<A::Resume>)
        requires
            old(self).slot() is Yield || old(self).slot() is Resume,
        ensures
            polled == resumed(old(self).slot()),
            final(self).slot() == awaited(old(self).slot()),
            *final(final(self).airlock) == *final(old(self).airlock),
    {
        match self.airlock.peek() {
            Next::Resume(_) => {
                match self.airlock.replace(Next::Empty) {
                    Next::Resume(arg) => Poll::Ready(arg),
                    _ => unreached(),
                }
            },
            _ => Poll::Pending,
        }
    }
}

/// A suspendable unit of work that is advanced one suspension point at a
/// time. Each step is lent a handle on the slot, through which the step may
/// yield.
///
/// The spec functions are the computation's model: they describe a step
/// as a function of the computation's state and of the slot it starts
/// from, and `poll` is held to them. A computation that does not state its
/// model has the one given here, under which it is never live and admits
/// no step, so that verified code cannot step it.
pub trait Computation<A: Airlock>: Sized {
    /// The type of the computation's result.
    type Output;

    /// True while the computation has not run to its end.
    open spec fn live(&self) -> bool {
        false
    }

    /// True where the computation may be stepped from `slot`. Unless it
    /// says otherwise, a computation may be stepped while it is live, from
    /// a slot that takes a yield. One that leaves the slot alone may admit
    /// more.
    open spec fn admits(&self, slot: Next<A::Yield, A::Resume>) -> bool {
        self.live() && slot.accepts_yield()
    }

    /// How the next step ends when it starts from `slot`.
    open spec fn outcome(&self, slot: Next<A::Yield, A::Resume>) -> Poll<Self::Output> {
        Poll::Pending
    }

    /// The state in which the next step leaves the slot when it starts from
    /// `slot`.
    open spec fn slot_after(&self, slot: Next<A::Yield, A::Resume>) -> Next<A::Yield, A::Resume> {
        slot
    }

    /// The computation as the next step leaves it when it starts from
    /// `slot`.
    open spec fn successor(&self, slot: Next<A::Yield, A::Resume>) -> Self {
        *self
    }

    /// Runs the computation up to its next suspension point, or to its end.
    ///
    /// A step never closes the slot. A computation stays live until it has
    /// run to its end, and while it is live it can be stepped from every
    /// slot that takes a yield.
    fn poll(&mut self, co: Co<'_, A>) -> (polled: Poll<Self::Output>)
        requires
            old(self).admits(co.slot()),
        ensures
            polled == old(self).outcome(co.slot()),
            final(co.airlock).state() == old(self).slot_after(co.slot()),
            *final(self) == old(self).successor(co.slot()),
            !(final(co.airlock).state() is Completed),
            final(self).live() == (old(self).live() && polled is Pending),
            forall|slot: Next<A::Yield, A::Resume>|
                final(self).live() && slot.accepts_yield() ==> #[trigger] final(self).admits(slot),
    ;
}

/// True of a computation that can be stepped from every slot that takes a
/// yield, which is every slot that a driver starts a step from once it has
/// taken the last yield out or answered it.
pub open spec fn steppable<A: Airlock, F: Computation<A>>(computation: F) -> bool {
    forall|slot: Next<A::Yield, A::Resume>|
        slot.accepts_yield() ==> #[trigger] computation.admits(slot)
}

/// What the synchronous driver returns for a step that ended as `polled`
/// and left the slot in state `slot`.
pub open spec fn surfaced<Y, R, O>(polled: Poll<O>, slot: Next<Y, R>) -> GeneratorState<Y, O>
    recommends
        polled is Pending ==> slot is Yield,
{
    match polled {
        Poll::Ready(output) => GeneratorState::Complete(output),
        Poll::Pending => GeneratorState::Yielded(slot->Yield_0),
    }
}

/// What the asynchronous driver resolves to for a step that ended as
/// `polled` and left the slot in state `slot`. Without a fresh yield the
/// suspension is passed on.
pub open spec fn async_surfaced<Y, R, O>(polled: Poll<O>, slot: Next<Y, R>) -> Poll<
    GeneratorState<Y, O>,
> {
    match polled {
        Poll::Ready(output) => Poll::Ready(GeneratorState::Complete(output)),
        Poll::Pending => match slot {
            Next::Yield(value) => Poll::Ready(GeneratorState::Yielded(value)),
            _ => Poll::Pending,
        },
    }
}

/// The state in which the synchronous driver leaves the slot after a step
/// that ended as `polled`: closed once the computation is through, empty
/// once the yielded value has been taken out.
pub open spec fn cleared<Y, R, O>(polled: Poll<O>) -> Next<Y, R> {
    match polled {
        Poll::Ready(_) => Next::Completed,
        Poll::Pending => Next::Empty,
    }
}

/// The state in which the asynchronous driver leaves the slot after a step
/// that ended as `polled` and left the slot in state `slot`: closed once
/// the computation is through, empty where a yielded value has been taken
/// out, and untouched otherwise. A resume value that the computation has
/// not read yet stays where it is.
pub open spec fn async_cleared<Y, R, O>(polled: Poll<O>, slot: Next<Y, R>) -> Next<Y, R> {
    match polled {
        Poll::Ready(_) => Next::Completed,
        Poll::Pending => match slot {
            Next::Yield(_) => Next::Empty,
            _ => slot,
        },
    }
}

/// True where the synchronous driver can hand over what a step left: the
/// step ended the computation, or it suspended with a value in the slot.
pub open spec fn surfaces<Y, R, O>(polled: Poll<O>, slot: Next<Y, R>) -> bool {
    polled is Pending ==> slot is Yield
}

/// The synchronous driver's half of a step: takes out of the slot what the
/// computation's step left there.
///
/// A computation that suspended has to have yielded. One that waits for
/// anything else cannot be driven synchronously.
pub fn surface<A: Airlock, O>(polled: Poll<O>, airlock: &mut A) -> (state: GeneratorState<
    A::Yield,
    O,
>)
    requires
        surfaces(polled, old(airlock).state()),
    ensures
        state == surfaced(polled, old(airlock).state()),
        final(airlock).state() == cleared::<A::Yield, A::Resume, O>(polled),
{
    match polled {
        Poll::Pending => {
            let value = airlock.replace(Next::Empty);
            match value {
                Next::Yield(y) => GeneratorState::Yielded(y),
                _ => unreached(),
            }
        },
        Poll::Ready(value) => {
            airlock.replace(Next::Completed);
            GeneratorState::Complete(value)
        },
    }
}

/// The asynchronous driver's half of a step: takes a fresh yield out of the
/// slot, or passes the suspension on where the computation waits for
/// something else. It only looks at a slot that holds no yield, and leaves
/// it as it is.
pub fn async_surface<A: Airlock, O>(polled: Poll<O>, airlock: &mut A) -> (state: Poll<
    GeneratorState<A::Yield, O>,
>)
    requires
        polled is Pending ==> !(old(airlock).state() is Completed),
    ensures
        state == async_surfaced(polled, old(airlock).state()),
        final(airlock).state() == async_cleared(polled, old(airlock).state()),
{
    match polled {
        Poll::Pending => {
            match airlock.peek() {
                Next::Empty | Next::Resume(_) => Poll::Pending,
                Next::Yield(_) => {
                    match airlock.replace(Next::Empty) {
                        Next::Yield(y) => Poll::Ready(GeneratorState::Yielded(y)),
                        _ => unreached(),
                    }
                },
                Next::Completed => unreached(),
            }
        },
        Poll::Ready(value) => {
            airlock.replace(Next::Completed);
            Poll::Ready(GeneratorState::Complete(value))
        },
    }
}

/// True of a computation whose next step, started from `slot`, either ends
/// the computation or yields: it waits for nothing but the driver.
pub open spec fn steps_synchronously<A: Airlock, F: Computation<A>>(
    computation: F,
    slot: Next<A::Yield, A::Resume>,
) -> bool {
    surfaces(computation.outcome(slot), computation.slot_after(slot))
}

/// Steps `computation` once and returns what the step produced: the value it
/// yielded, or its result.
///
/// This is the synchronous driver. It never waits, so the computation may
/// suspend only where it has just yielded.
pub fn advance<A: Airlock, F: Computation<A>>(computation: &mut F, airlock: &mut A) -> (state:
    GeneratorState<A::Yield, F::Output>)
    requires
        old(computation).admits(old(airlock).state()),
        steps_synchronously(*old(computation), old(airlock).state()),
    ensures
        state == surfaced(
            old(computation).outcome(old(airlock).state()),
            old(computation).slot_after(old(airlock).state()),
        ),
        final(airlock).state() == cleared::<A::Yield, A::Resume, F::Output>(
            old(computation).outcome(old(airlock).state()),
        ),
        *final(computation) == old(computation).successor(old(airlock).state()),
        final(computation).live() == (old(computation).live() && state is Yielded),
        final(computation).live() ==> steppable::<A, F>(*final(computation)),
{
    let polled = computation.poll(Co::new(airlock));
    surface(polled, airlock)
}

/// The asynchronous driver at work on one step of `computation`: a suspendable
/// unit of its own, which resolves once the computation has yielded or
/// finished.
pub struct Advance<'a, F, A: Airlock> {
    /// The computation that is driven.
    pub computation: &'a mut F,
    /// The slot it yields into.
    pub airlock: &'a mut A,
}

/// Wraps `computation` and its slot as a unit that resolves to what the next
/// step of `computation` produces.
pub fn async_advance<'a, A: Airlock, F: Computation<A>>(
    computation: &'a mut F,
    airlock: &'a mut A,
) -> (unit: Advance<'a, F, A>)
    ensures
        *unit.computation == *old(computation),
        *unit.airlock == *old(airlock),
        *final(unit.computation) == *final(computation),
        *final(unit.airlock) == *final(airlock),
{
    Advance { computation, airlock }
}

impl<'a, A: Airlock, F: Computation<A>> Advance<'a, F, A> {
    /// Steps the computation once. A fresh yield or the computation's end
    /// resolves the unit; any other suspension is passed on, and the unit
    /// is to be polled again later. A slot that holds no yield stays as the
    /// step left it, so a resume value that has not been read is not lost.
    pub fn poll(&mut self) -> (polled: Poll<GeneratorState<A::Yield, F::Output>>)
        requires
            old(self).computation.admits(old(self).airlock.state()),
        ensures
            polled == async_surfaced(
                old(self).computation.outcome(old(self).airlock.state()),
                old(self).computation.slot_after(old(self).airlock.state()),
            ),
            final(self).airlock.state() == async_cleared(
                old(self).computation.outcome(old(self).airlock.state()),
                old(self).computation.slot_after(old(self).airlock.state()),
            ),
            *final(self).computation == old(self).computation.successor(old(self).airlock.state()),
            final(self).computation.live() == (old(self).computation.live()
                && old(self).computation.outcome(old(self).airlock.state()) is Pending),
            final(self).computation.live() ==> steppable::<A, F>(*final(self).computation),
            *final(final(self).computation) == *final(old(self).computation),
            *final(final(self).airlock) == *final(old(self).airlock),
    {
        let polled = self.computation.poll(Co::new(&mut *self.airlock));
        async_surface(polled, &mut *self.airlock)
    }
}

} // verus!
