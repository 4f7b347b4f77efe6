//! Computations to exercise the drivers with: two that wait for something
//! other than the driver, and one that yields.

use crate::engine::{Airlock, Co, Computation, Fin, Next, Poll};
use crate::protocol::scripted;
use vstd::prelude::*;

verus! {

/// A computation that never yields and never finishes. It leaves the slot
/// alone, so it can be stepped from any slot that has not been closed.
pub struct DummyFuture;

impl<A: Airlock> Computation<A> for DummyFuture {
    type Output = ();

    open spec fn live(&self) -> bool {
        true
    }

    open spec fn admits(&self, slot: Next<A::Yield, A::Resume>) -> bool {
        !(slot is Completed)
    }

    open spec fn outcome(&self, slot: Next<A::Yield, A::Resume>) -> Poll<()> {
        Poll::Pending
    }

    open spec fn slot_after(&self, slot: Next<A::Yield, A::Resume>) -> Next<A::Yield, A::Resume> {
        slot
    }

    open spec fn successor(&self, slot: Next<A::Yield, A::Resume>) -> Self {
        *self
    }

    fn poll(&mut self, co: Co<'_, A>) -> (polled: Poll<()>) {
        Poll::Pending
    }
}

/// A computation that suspends a number of times without yielding and then
/// finishes. It leaves the slot alone. Stepped on after it has finished,
/// it goes on counting and stays suspended.
pub struct SlowFuture {
    /// The number of steps that the computation still takes, the one that
    /// finishes it included. Below one, the computation has finished.
    pub countdown: i32,
}

impl SlowFuture {
    /// A computation that finishes at its tenth step.
    pub fn new() -> (slow: Self)
        ensures
            slow == (SlowFuture { countdown: 10 }),
    {
        Self { countdown: 10 }
    }
}

impl<A: Airlock> Computation<A> for SlowFuture {
    type Output = ();

    open spec fn live(&self) -> bool {
        self.countdown >= 1
    }

    open spec fn admits(&self, slot: Next<A::Yield, A::Resume>) -> bool {
        self.countdown > i32::MIN && !(slot is Completed)
    }

    open spec fn outcome(&self, slot: Next<A::Yield, A::Resume>) -> Poll<()> {
        if self.countdown == 1 {
            Poll::Ready(())
        } else {
            Poll::Pending
        }
    }

    open spec fn slot_after(&self, slot: Next<A::Yield, A::Resume>) -> Next<A::Yield, A::Resume> {
        slot
    }

    open spec fn successor(&self, slot: Next<A::Yield, A::Resume>) -> Self {
        SlowFuture { countdown: (self.countdown - 1) as i32 }
    }

    fn poll(&mut self, co: Co<'_, A>) -> (polled: Poll<()>) {
        self.countdown -= 1;
        if self.countdown == 0 {
            Poll::Ready(())
        } else {
            Poll::Pending
        }
    }
}

/// A computation that yields each of a list of values in turn, waits after
/// each for the driver's answer, and returns the last answer it got.
pub struct Replay<Y, R> {
    /// The values to yield, in this order.
    pub values: Vec<Y>,
    /// How many of them have been yielded.
    pub position: usize,
    /// The last answer taken from the driver.
    pub answer: Option<R>,
    /// Whether the computation has returned.
    pub done: bool,
}

impl<Y: Copy, R> Replay<Y, R> {
    /// True where the step that starts from `slot` finds the last yield
    /// unanswered, so that the computation goes on waiting.
    pub open spec fn waits(&self, slot: Next<Y, R>) -> bool {
        self.position > 0 && !(slot is Resume)
    }

    /// The last answer that the computation has once the step that starts
    /// from `slot` has looked for one.
    pub open spec fn answer_after(&self, slot: Next<Y, R>) -> Option<R> {
        if self.position > 0 && slot is Resume {
            Some(slot->Resume_0)
        } else {
            self.answer
        }
    }

    /// A computation that yields `values` from the first on.
    pub fn new(values: Vec<Y>) -> (replay: Self)
        ensures
            replay == (Replay::<Y, R> { values, position: 0, answer: None, done: false }),
    {
        Replay { values, position: 0, answer: None, done: false }
    }
}

impl<Y: Copy, R, A: Airlock<Yield = Y, Resume = R>> Computation<A> for Replay<Y, R> {
    type Output = Fin<Option<R>>;

    open spec fn live(&self) -> bool {
        !self.done && self.position <= self.values.len()
    }

    open spec fn outcome(&self, slot: Next<Y, R>) -> Poll<Fin<Option<R>>> {
        if self.waits(slot) || self.position < self.values.len() {
            Poll::Pending
        } else {
            Poll::Ready(Fin::wrapping(self.answer_after(slot)))
        }
    }

    open spec fn slot_after(&self, slot: Next<Y, R>) -> Next<Y, R> {
        if self.waits(slot) {
            slot
        } else if self.position < self.values.len() {
            Next::Yield(self.values[self.position as int])
        } else if self.position > 0 {
            Next::Empty
        } else {
            slot
        }
    }

    open spec fn successor(&self, slot: Next<Y, R>) -> Self {
        if self.waits(slot) {
            *self
        } else if self.position < self.values.len() {
            Replay {
                values: self.values,
                position: (self.position + 1) as usize,
                answer: self.answer_after(slot),
                done: false,
            }
        } else {
            Replay { values: self.values, position: self.position, answer: None, done: true }
        }
    }

    fn poll(&mut self, co: Co<'_, A>) -> (polled: Poll<Fin<Option<R>>>) {
        let mut co = co;
        if self.position > 0 {
            match co.peek() {
                Next::Resume(_) => {
                    match co.barrier().poll() {
                        Poll::Ready(arg) => {
                            self.answer = Some(arg);
                        },
                        Poll::Pending => {
                            return unreached();
                        },
                    }
                },
                _ => {
                    return Poll::Pending;
                },
            }
        }
        if self.position < self.values.len() {
            let value = self.values[self.position];
            self.position += 1;
            let _ = co.yield_(value);
            Poll::Pending
        } else {
            let mut answer = None;
            core::mem::swap(&mut self.answer, &mut answer);
            self.done = true;
            Poll::Ready(co.return_(answer))
        }
    }
}

/// What a [`Replay`] returns when it is resumed with `args` until it has
/// run to its end: the last of them, which answers its last yield. Where
/// it has nothing to yield, it returns the answer it was made with.
pub open spec fn last_answer<Y, R>(replay: Replay<Y, R>, args: Seq<R>) -> Option<R> {
    if replay.values.len() > 0 {
        Some(args.last())
    } else {
        replay.answer
    }
}

/// A [`Replay`] yields, in their order, the values that it has not yielded
/// yet, and then returns the last answer that the driver gave it.
pub proof fn replay_follows_its_values<Y: Copy, R, A: Airlock<Yield = Y, Resume = R>>(
    replay: Replay<Y, R>,
    args: Seq<R>,
)
    requires
        !replay.done,
        replay.position <= replay.values.len(),
        args.len() == replay.values.len() - replay.position + 1,
    ensures
        scripted::<A, Replay<Y, R>>(
            replay,
            replay.values@.skip(replay.position as int),
            Fin::wrapping(last_answer(replay, args)),
            args,
        ),
    decreases replay.values.len() - replay.position,
{
    let slot = Next::<Y, R>::Resume(args[0]);
    let rest = replay.values@.skip(replay.position as int);
    if replay.position < replay.values.len() {
        let next = <Replay<Y, R> as Computation<A>>::successor(&replay, slot);
        replay_follows_its_values::<Y, R, A>(next, args.skip(1));
        assert(rest.skip(1) =~= next.values@.skip(next.position as int));
        assert(args.skip(1).last() == args.last());
    } else {
        assert(rest.len() == 0);
        assert(args.last() == args[0]);
    }
}

} // verus!
