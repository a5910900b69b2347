//! A line-printing library in the spirit of the Unix `cat` utility.
//!
//! The library holds the verified heart of the tool: resolving a command
//! line into a [`config::Config`], and turning the lines of each source
//! into the lines that are printed, optionally numbered.  Opening files,
//! reading them and writing to the terminal is left to the thin program
//! around the library.

pub mod args;
pub mod config;
pub mod emit;
pub mod errors;
