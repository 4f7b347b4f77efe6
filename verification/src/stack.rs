//! Generators whose slot and computation live in storage that the caller
//! owns.

mod generator;
mod iterator;

pub use generator::{opened, Gen, Shelf};
pub use iterator::{item, item_of, IntoIter, MutIntoIter};
