//! Colors, terminal replies and styled text.

pub mod colors;
pub mod osc;
pub mod text;
