//! What the supervisor tells the operator, and on which stream.

use crate::decimal::{decimal, decimal_text};
use vstd::prelude::*;
use vstd::string::*;

verus! {

/// The stream that a diagnostic is written to.
#[derive(Clone, Copy, Debug, PartialEq, Eq, Structural)]
pub enum Stream {
    /// Standard output: things went as planned.
    Output,
    /// Standard error: a warning.
    Error,
}

/// One line for the operator. The caller writes `text` to `stream`, followed
/// by a line break.
#[derive(Debug)]
pub struct Diagnostic {
    pub stream: Stream,
    pub text: String,
}

/// The line that reports a successful launch, with the process ID in decimal.
pub open spec fn started_text(pid: u32) -> Seq<char> {
    "Backend started with PID: "@ + decimal(pid as nat)
}

/// The warning that reports a failed launch. It carries the reason as given
/// and says that the backend is expected to be started by hand.
pub open spec fn launch_failed_text(reason: Seq<char>) -> Seq<char> {
    "Failed to start backend: "@ + reason
        + ". Frontend will connect when backend is manually started."@
}

/// The line that confirms the termination of the backend.
pub open spec fn terminated_text() -> Seq<char> {
    "Backend process terminated."@
}

impl Diagnostic {
    /// Reports that the backend runs as process `pid`.
    pub fn started(pid: u32) -> (notice: Diagnostic)
        ensures
            notice.stream == Stream::Output,
            notice.text@ == started_text(pid),
    {
        let number: String = decimal_text(pid);
        let mut text = String::from_str("Backend started with PID: ");
        text.append(number.as_str());
        Diagnostic { stream: Stream::Output, text }
    }

    /// Warns that the backend could not be launched, for `reason`.
    pub fn launch_failed(reason: &str) -> (notice: Diagnostic)
        ensures
            notice.stream == Stream::Error,
            notice.text@ == launch_failed_text(reason@),
    {
        let mut text = String::from_str("Failed to start backend: ");
        text.append(reason);
        text.append(". Frontend will connect when backend is manually started.");
        Diagnostic { stream: Stream::Error, text }
    }

    /// Confirms that the backend was told to stop.
    pub fn terminated() -> (notice: Diagnostic)
        ensures
            notice.stream == Stream::Output,
            notice.text@ == terminated_text(),
    {
        Diagnostic { stream: Stream::Output, text: String::from_str("Backend process terminated.") }
    }
}

} // verus!
