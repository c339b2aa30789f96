//! Lines handed to the logging sink.

use vstd::prelude::*;

verus! {

/// The standard stream a line is written to.
#[derive(Clone, Copy, Debug, PartialEq, Eq, Structural)]
pub enum Sink {
    /// Ordinary diagnostics.
    Stdout,
    /// Warnings and the child's error output.
    Stderr,
}

/// One line for the logging sink: its stream and its full text, prefix
/// included.
#[derive(Clone, Debug, PartialEq, Eq)]
pub struct LogLine {
    pub sink: Sink,
    pub text: String,
}

/// The mathematical content of a [`LogLine`].
pub struct LogLineView {
    pub sink: Sink,
    pub text: Seq<char>,
}

impl View for LogLine {
    type V = LogLineView;

    open spec fn view(&self) -> LogLineView {
        LogLineView { sink: self.sink, text: self.text@ }
    }
}

/// The contents of a sequence of lines, in order.
pub open spec fn line_views(lines: Seq<LogLine>) -> Seq<LogLineView> {
    lines.map_values(|line: LogLine| line@)
}

/// Prefix of every line the supervisor itself writes.
pub open spec fn supervisor_prefix() -> Seq<char> {
    "[Supervisor] "@
}

/// Prefix of the child's standard output and of its termination notice.
pub open spec fn sidecar_prefix() -> Seq<char> {
    "[Sidecar] "@
}

/// Prefix of the child's error output.
pub open spec fn sidecar_error_prefix() -> Seq<char> {
    "[Sidecar ERR] "@
}

impl LogLine {
    /// A line for the given stream.
    pub fn new(sink: Sink, text: String) -> (line: LogLine)
        ensures
            line@ == (LogLineView { sink, text: text@ }),
    {
        LogLine { sink, text }
    }
}

} // verus!
