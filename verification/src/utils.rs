//! Helpers that the rest of the crate shares.

pub mod env;
pub mod path;
pub mod strings;
pub mod version;
