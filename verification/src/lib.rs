//! A shell prompt whose colors follow the terminal's background.
//!
//! The crate holds the pure part of the prompt: parsing the terminal's reply
//! to a background-color query, choosing accent colors for the color tier the
//! terminal offers, and rendering styled fragments to the shortest stream of
//! ANSI attribute escapes. Every function states what it returns, and the
//! statement is proved. Reading the terminal, the environment and the
//! repository is left to the caller, who hands the results in as plain values.

pub mod command;
pub mod gfx;
pub mod help;
pub mod init;
pub mod prompt;
pub mod repo;
pub mod utils;
