//! Useful things that belong to no part of the schema.

pub use crate::optional::Optional;
