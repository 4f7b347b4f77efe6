//! The result of driving a generator by one step.

use vstd::prelude::*;

verus! {

/// What one step of a generator produced.
#[derive(Debug, PartialEq, Eq)]
pub enum GeneratorState<Y, R> {
    /// The computation suspended after handing over this value.
    Yielded(Y),
    /// The computation ran to its end with this result.
    Complete(R),
}

} // verus!
