//! Log lines, as values: the library says what is logged, the program logs it.

use vstd::prelude::*;

verus! {

/// How loud a log line is.
#[derive(Clone, Copy, Debug, PartialEq, Eq, Structural)]
pub enum Level {
    Error,
    Info,
    Debug,
}

/// One line for the log.
#[derive(Clone, Debug, PartialEq, Eq)]
pub struct LogLine {
    pub level: Level,
    pub text: String,
}

/// A log line as a mathematical value.
pub struct LogLineView {
    pub level: Level,
    pub text: Seq<char>,
}

impl View for LogLine {
    type V = LogLineView;

    open spec fn view(&self) -> LogLineView {
        LogLineView { level: self.level, text: self.text@ }
    }
}

/// The views of a sequence of log lines.
pub open spec fn lines_view(lines: Seq<LogLine>) -> Seq<LogLineView> {
    lines.map_values(|line: LogLine| line@)
}

/// A line at the given level.
pub open spec fn line(level: Level, text: Seq<char>) -> LogLineView {
    LogLineView { level, text }
}

/// Appends a line to a journal.
pub fn note(lines: &mut Vec<LogLine>, level: Level, text: String)
    ensures
        lines_view(final(lines)@) == lines_view(old(lines)@).push(line(level, text@)),
{
    lines.push(LogLine { level, text });
}

} // verus!
