//! Log lines: a severity and a text. The caller writes them out.

use vstd::prelude::*;

verus! {

/// How severe a log line is.
#[derive(Clone, Copy, Debug, PartialEq, Eq, Structural)]
pub enum Level {
    Debug,
    Info,
    Error,
}

/// One line for the log.
#[derive(Debug, PartialEq, Eq)]
pub struct LogLine {
    pub level: Level,
    pub text: String,
}

impl LogLine {
    /// Whether this line has the given severity and text.
    pub open spec fn says(&self, level: Level, text: Seq<char>) -> bool {
        self.level == level && self.text@ == text
    }
}

} // verus!
