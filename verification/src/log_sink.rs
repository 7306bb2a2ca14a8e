//! What is written to the sidecar's log: one file in the log directory, and
//! lines that each name where they came from.

use crate::path::{join, joined};
use crate::platform::Platform;
use crate::text::{decimal, decimal_text};
use vstd::prelude::*;

verus! {

/// The output stream of the sidecar a line was read from.
#[derive(Clone, Copy, Debug, PartialEq, Eq)]
pub enum Stream {
    Stdout,
    Stderr,
}

/// The name of the log file.
pub open spec fn log_file_name() -> Seq<char> {
    "server.log"@
}

/// The path of the log file in the directory `dir`.
pub open spec fn log_file_in(platform: Platform, dir: Seq<char>) -> Seq<char> {
    joined(platform, dir, log_file_name())
}

/// The tag that opens every line read from `stream`.
pub open spec fn tag(stream: Stream) -> Seq<char> {
    match stream {
        Stream::Stdout => "[STDOUT] "@,
        Stream::Stderr => "[STDERR] "@,
    }
}

/// The log line for `text` read from `stream`: tag, text, newline.
pub open spec fn line(stream: Stream, text: Seq<char>) -> Seq<char> {
    tag(stream) + text + "\n"@
}

/// The text that formatting the string `text` with `{:?}` gives: how std's
/// `Debug` shows a string.
pub uninterp spec fn quoted(text: Seq<char>) -> Seq<char>;

/// The line that records a start, given the path already quoted.
pub open spec fn startup_line_of(pid: u32, quoted_path: Seq<char>) -> Seq<char> {
    "Server started with PID: "@ + decimal(pid as nat) + " at "@ + quoted_path + "\n"@
}

/// The line that records a start that failed for `cause`.
pub open spec fn failure_line_of(cause: Seq<char>) -> Seq<char> {
    "❌ Failed to start server: "@ + cause + "\n"@
}

/// A line holds exactly one newline, its last character, whenever the text it
/// was made from holds none: what is appended for one line of output is one
/// complete line.
pub proof fn lemma_line_is_one_line(stream: Stream, text: Seq<char>)
    requires
        forall|i: int| 0 <= i < text.len() ==> text[i] != '\n',
    ensures
        line(stream, text).len() == tag(stream).len() + text.len() + 1,
        line(stream, text).last() == '\n',
        forall|i: int| 0 <= i < line(stream, text).len() - 1 ==> line(stream, text)[i] != '\n',
{
    reveal_strlit("[STDOUT] ");
    reveal_strlit("[STDERR] ");
    reveal_strlit("\n");
    let t = tag(stream);
    assert(t.len() == 9);
    assert(forall|i: int| 0 <= i < 9 ==> t[i] != '\n');
    assert forall|i: int| 0 <= i < line(stream, text).len() - 1 implies line(stream, text)[i]
        != '\n' by {
        if i >= 9 {
            assert(line(stream, text)[i] == text[i - 9]);
        } else {
            assert(line(stream, text)[i] == t[i]);
        }
    }
}

/// Gives the path of the log file in `dir`.
pub fn log_file_path(platform: Platform, dir: &str) -> (path: String)
    ensures
        path@ == log_file_in(platform, dir@),
{
    join(platform, dir, "server.log")
}

/// Formats one line of the sidecar's output for the log.
pub fn format_line(stream: Stream, text: &str) -> (out: String)
    ensures
        out@ == line(stream, text@),
{
    let mut out = match stream {
        Stream::Stdout => String::from_str("[STDOUT] "),
        Stream::Stderr => String::from_str("[STDERR] "),
    };
    out.append(text);
    out.append("\n");
    out
}

/// Formats `text` with `{:?}`, that is by the `Debug` impl of `str` in std.
/// The contract is not proved: it gives the result a name and claims nothing
/// of what the text holds, which std decides.
#[verifier::external_body]
fn quote(text: &str) -> (out: String)
    ensures
        out@ == quoted(text@),
{
    format!("{:?}", text)
}

/// Formats the line that records a start from the process id and the path as
/// it is to appear.
pub fn startup_line_with(pid: u32, quoted_path: &str) -> (out: String)
    ensures
        out@ == startup_line_of(pid, quoted_path@),
{
    let mut out = String::from_str("Server started with PID: ");
    let number = decimal_text(pid);
    out.append(number.as_str());
    out.append(" at ");
    out.append(quoted_path);
    out.append("\n");
    out
}

/// Formats the line that records a start: the process id and the quoted path
/// of the executable.
pub fn startup_line(pid: u32, path: &str) -> (out: String)
    ensures
        out@ == startup_line_of(pid, quoted(path@)),
{
    let shown = quote(path);
    startup_line_with(pid, shown.as_str())
}

/// Formats the line that records a start that failed.
pub fn failure_line(cause: &str) -> (out: String)
    ensures
        out@ == failure_line_of(cause@),
{
    let mut out = String::from_str("❌ Failed to start server: ");
    out.append(cause);
    out.append("\n");
    out
}

} // verus!
