//! Generators over a computation that is boxed before it is stored.

use crate::engine::{Airlock, Co, Computation, Next, Poll, Slot};
use crate::rc::generator::Gen;
use vstd::prelude::*;

verus! {

/// A boxed computation is stepped by stepping what is in the box.
impl<A: Airlock, F: Computation<A>> Computation<A> for Box<F> {
    type Output = F::Output;

    open spec fn live(&self) -> bool {
        (**self).live()
    }

    open spec fn admits(&self, slot: Next<A::Yield, A::Resume>) -> bool {
        (**self).admits(slot)
    }

    open spec fn outcome(&self, slot: Next<A::Yield, A::Resume>) -> Poll<F::Output> {
        (**self).outcome(slot)
    }

    open spec fn slot_after(&self, slot: Next<A::Yield, A::Resume>) -> Next<A::Yield, A::Resume> {
        (**self).slot_after(slot)
    }

    open spec fn successor(&self, slot: Next<A::Yield, A::Resume>) -> Self {
        Box::new((**self).successor(slot))
    }

    fn poll(&mut self, co: Co<'_, A>) -> (polled: Poll<F::Output>) {
        (**self).poll(co)
    }
}

/// A generator whose computation is boxed, so that the generator's type
/// can be written down wherever the computation's can.
pub type GenBoxed<Y, R, F> = Gen<Y, R, Box<F>>;

impl<Y, R, F: Computation<Slot<Y, R>>> GenBoxed<Y, R, F> {
    /// A generator that runs `producer` out of a box. It behaves as
    /// [`Gen::new`] does on the boxed computation.
    pub fn new_boxed(producer: F) -> (gen: Self)
        ensures
            *gen.computation() == producer,
    {
        Self::new(Box::new(producer))
    }
}

} // verus!
