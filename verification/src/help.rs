//! What the program tells its user about setting it up.

pub mod debug;
pub mod guide;
pub mod please;
