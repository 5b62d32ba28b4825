//! Adapters that change how a type interacts with a trait.
//!
//! The one adapter provided is [`Bow`], a clone-on-write smart pointer whose
//! owned state is a `Box<T>`: it gives `Clone` types the semantics that
//! `ToOwned` gives to `Cow`, with the owned value behind a heap allocation.

pub mod bow;
pub mod laws;

pub use bow::{clone_is_exact, Bow};
