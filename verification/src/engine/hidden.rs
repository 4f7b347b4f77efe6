//! Keeps the set of terminal value types closed.

use vstd::prelude::*;

verus! {

/// Implemented by the terminal value type of this crate and by nothing
/// else.
pub trait Seal_ {

}

impl<O> Seal_ for super::Fin<O> {

}

} // verus!
