//! Generators that own their slot and keep their computation on the heap.

mod boxed;
mod generator;

pub use boxed::GenBoxed;
pub use generator::Gen;
