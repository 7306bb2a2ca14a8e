//! The ways a request to the supervisor can fail, and the message each gives.

use vstd::prelude::*;

verus! {

/// A directory the host is asked for.
#[derive(Clone, Copy, Debug, PartialEq, Eq)]
pub enum Directory {
    /// The current working directory.
    Working,
    /// The directory of bundled resources.
    Resource,
    /// The application's log directory.
    Log,
    /// The application's writable data directory.
    Data,
}

/// Why a request failed. A `cause` is the host's own description of what
/// went wrong.
#[derive(Debug, PartialEq, Eq)]
pub enum SidecarError {
    /// The host could not name a directory that the start needs.
    PathUnavailable { directory: Directory, cause: String },
    /// The sidecar needs an interpreter and the probe did not find it.
    InterpreterUnavailable,
    /// The log file could not be opened.
    LogUnavailable { cause: String },
    /// The operating system did not create the process.
    SpawnFailed { cause: String },
    /// The operating system did not deliver the terminate signal.
    KillFailed { cause: String },
    /// The operating system did not answer the check for an exit.
    StatusFailed { cause: String },
    /// Another request has not finished.
    Busy,
    /// The host reported something other than what the pending step asked.
    UnexpectedEvent,
}

/// A `SidecarError` with its texts as sequences of characters.
pub enum SidecarErrorView {
    PathUnavailable { directory: Directory, cause: Seq<char> },
    InterpreterUnavailable,
    LogUnavailable { cause: Seq<char> },
    SpawnFailed { cause: Seq<char> },
    KillFailed { cause: Seq<char> },
    StatusFailed { cause: Seq<char> },
    Busy,
    UnexpectedEvent,
}

impl View for SidecarError {
    type V = SidecarErrorView;

    open spec fn view(&self) -> SidecarErrorView {
        match self {
            SidecarError::PathUnavailable { directory, cause } => SidecarErrorView::PathUnavailable {
                directory: *directory,
                cause: cause@,
            },
            SidecarError::InterpreterUnavailable => SidecarErrorView::InterpreterUnavailable,
            SidecarError::LogUnavailable { cause } => SidecarErrorView::LogUnavailable {
                cause: cause@,
            },
            SidecarError::SpawnFailed { cause } => SidecarErrorView::SpawnFailed { cause: cause@ },
            SidecarError::KillFailed { cause } => SidecarErrorView::KillFailed { cause: cause@ },
            SidecarError::StatusFailed { cause } => SidecarErrorView::StatusFailed { cause: cause@ },
            SidecarError::Busy => SidecarErrorView::Busy,
            SidecarError::UnexpectedEvent => SidecarErrorView::UnexpectedEvent,
        }
    }
}

/// What opens the message about a directory the host could not name.
pub open spec fn lookup_failed(directory: Directory) -> Seq<char> {
    match directory {
        Directory::Working => "Failed to get current directory: "@,
        Directory::Resource => "Failed to get resource directory: "@,
        Directory::Log => "Failed to get app log directory: "@,
        Directory::Data => "Failed to get app data directory: "@,
    }
}

impl SidecarErrorView {
    /// The message handed to the caller: what failed, then the cause where
    /// there is one.
    pub open spec fn message(self) -> Seq<char> {
        match self {
            SidecarErrorView::PathUnavailable { directory, cause } => lookup_failed(directory)
                + cause,
            SidecarErrorView::InterpreterUnavailable => "Failed to find the interpreter: node"@,
            SidecarErrorView::LogUnavailable { cause } => "Failed to open the log file: "@ + cause,
            SidecarErrorView::SpawnFailed { cause } => "Failed to spawn yaLLMa3API: "@ + cause,
            SidecarErrorView::KillFailed { cause } => "Failed to kill yaLLMa3API: "@ + cause,
            SidecarErrorView::StatusFailed { cause } => "Failed to check yaLLMa3API status: "@
                + cause,
            SidecarErrorView::Busy => "yaLLMa3API is busy with another request"@,
            SidecarErrorView::UnexpectedEvent => "yaLLMa3API was not waiting for this event"@,
        }
    }
}

/// Writes `cause` after `opening`.
fn with_cause(opening: &str, cause: &String) -> (text: String)
    ensures
        text@ == opening@ + cause@,
{
    let mut text = String::from_str(opening);
    text.append(cause.as_str());
    text
}

impl SidecarError {
    /// The message handed to the caller.
    pub fn message(&self) -> (text: String)
        ensures
            text@ == self@.message(),
    {
        match self {
            SidecarError::PathUnavailable { directory, cause } => {
                let opening = match directory {
                    Directory::Working => "Failed to get current directory: ",
                    Directory::Resource => "Failed to get resource directory: ",
                    Directory::Log => "Failed to get app log directory: ",
                    Directory::Data => "Failed to get app data directory: ",
                };
                with_cause(opening, cause)
            },
            SidecarError::InterpreterUnavailable => String::from_str(
                "Failed to find the interpreter: node",
            ),
            SidecarError::LogUnavailable { cause } => with_cause(
                "Failed to open the log file: ",
                cause,
            ),
            SidecarError::SpawnFailed { cause } => with_cause("Failed to spawn yaLLMa3API: ", cause),
            SidecarError::KillFailed { cause } => with_cause("Failed to kill yaLLMa3API: ", cause),
            SidecarError::StatusFailed { cause } => with_cause(
                "Failed to check yaLLMa3API status: ",
                cause,
            ),
            SidecarError::Busy => String::from_str("yaLLMa3API is busy with another request"),
            SidecarError::UnexpectedEvent => String::from_str(
                "yaLLMa3API was not waiting for this event",
            ),
        }
    }
}

} // verus!
