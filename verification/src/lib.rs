//! Launcher logic for opening block-explorer pages of the Flare family of
//! chains and for looking up locally stored address hints.
//!
//! Everything here works on plain values. Reading files, starting processes
//! and talking to the terminal is left to the program around this library.

pub mod chain;
pub mod cli;
pub mod error;
pub mod hints;
pub mod setup;
pub mod style;
pub mod text;
pub mod url;
