use vstd::prelude::*;

verus! {

/// The closed set of failures a run can meet.
///
/// Only `Arg` is ever produced by the library itself; `Open` and `Read`
/// describe the two I/O failures the surrounding program can hit, so that
/// callers can match on the kind instead of inspecting message text.
#[derive(Debug)]
pub enum CatError {
    /// The command line could not be resolved into a configuration.
    /// `is_usage` is true for a genuine usage error (exit non-zero, message
    /// on the error stream) and false when help or version text was
    /// requested (exit zero, message on standard output).
    Arg { message: String, is_usage: bool },
    /// A source could not be opened; the run reports it and goes on.
    Open { message: String },
    /// A line could not be read from an open source; the run stops.
    Read { message: String },
}

} // verus!
