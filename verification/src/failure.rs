//! Why the processing of one input file failed.

use vstd::prelude::*;
use vstd::string::*;

verus! {

/// The step of processing a file at which it failed.
#[derive(Clone, Copy, Debug, PartialEq, Eq, Structural)]
pub enum Stage {
    /// The input could not be opened: it does not exist, or cannot be read.
    Open,
    /// Reading the input failed before its end was reached.
    Read,
    /// The sidecar could not be created or written.
    Write,
}

/// The failure of one input file: which file, at which step, and the details
/// that the system gave.
#[derive(Debug)]
pub struct Failure {
    pub path: String,
    pub stage: Stage,
    pub details: String,
}

/// A failure as plain text.
pub struct FailureText {
    pub path: Seq<char>,
    pub stage: Stage,
    pub details: Seq<char>,
}

impl View for Failure {
    type V = FailureText;

    open spec fn view(&self) -> FailureText {
        FailureText { path: self.path@, stage: self.stage, details: self.details@ }
    }
}

/// The line that reports a failure: it names the file and gives the details.
pub open spec fn diagnostic_of(failure: FailureText) -> Seq<char> {
    "Error processing file "@ + failure.path + ": "@ + failure.details
}

impl Failure {
    /// The failure of the file at `path`, at `stage`, with the given details.
    pub fn new(path: &str, stage: Stage, details: &str) -> (failure: Failure)
        ensures
            failure@ == (FailureText { path: path@, stage: stage, details: details@ }),
    {
        Failure { path: String::from_str(path), stage, details: String::from_str(details) }
    }

    /// The diagnostic line for this failure, without a line end.
    pub fn diagnostic(&self) -> (line: String)
        ensures
            line@ == diagnostic_of(self@),
    {
        let mut line = String::from_str("Error processing file ");
        line.append(self.path.as_str());
        line.append(": ");
        line.append(self.details.as_str());
        line
    }
}

} // verus!
