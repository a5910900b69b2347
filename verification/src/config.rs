use vstd::prelude::*;

verus! {

/// The settings of one run: which sources to read, in order, and which
/// numbering mode to apply.  A source name of `-` stands for standard input.
#[derive(Debug)]
pub struct Config {
    /// The sources to read, in the order they were given.
    pub files: Vec<String>,
    /// Number every line, starting from 0.
    pub number_lines: bool,
    /// Number lines with the per-source running counter, starting from 1.
    pub number_nonblank_lines: bool,
}

impl Config {
    /// At most one of the two numbering modes may be chosen.
    pub open spec fn wf(&self) -> bool {
        !(self.number_lines && self.number_nonblank_lines)
    }

    pub fn new(files: Vec<String>, number_lines: bool, number_nonblank_lines: bool) -> (c: Config)
        requires
            !(number_lines && number_nonblank_lines),
        ensures
            c.files == files,
            c.number_lines == number_lines,
            c.number_nonblank_lines == number_nonblank_lines,
            c.wf(),
    {
        Config { files, number_lines, number_nonblank_lines }
    }
}

} // verus!
