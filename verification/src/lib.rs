//! A vector of bounded length that lives in storage lent by the caller.
//!
//! [`StackVec`] borrows a slice for its whole lifetime and keeps its elements
//! in it. The slice's size is the capacity; of its slots only the first
//! `len()` are live. Nothing is ever allocated.
//!
//! Contracts are stated over [`Model`]: the content of every slot and the
//! number of live ones. The facts that follow from the model alone are proved
//! in [`laws`].

pub mod iter;
pub mod laws;
pub mod model;
mod slices;
pub mod stack;

pub use crate::iter::Iter;
pub use crate::model::Model;
pub use crate::stack::StackVec;
