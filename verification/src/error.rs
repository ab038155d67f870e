//! What can keep the report from being made.

use vstd::prelude::*;
use vstd::string::StringExecFns;

verus! {

/// Why no report was made.
#[derive(Debug, PartialEq, Eq)]
pub enum UptimeError {
    /// The command line does not follow the options; the text says how.
    InvalidOptions(String),
    /// No source told how long the host has been up.
    UptimeUnavailable,
}

/// An error with its text as a sequence of characters.
pub enum UptimeErrorView {
    InvalidOptions(Seq<char>),
    UptimeUnavailable,
}

impl View for UptimeError {
    type V = UptimeErrorView;

    open spec fn view(&self) -> UptimeErrorView {
        match self {
            UptimeError::InvalidOptions(text) => UptimeErrorView::InvalidOptions(text@),
            UptimeError::UptimeUnavailable => UptimeErrorView::UptimeUnavailable,
        }
    }
}

/// The message that tells of `error`.
pub open spec fn message_text(error: UptimeErrorView) -> Seq<char> {
    match error {
        UptimeErrorView::InvalidOptions(text) => "Invalid options\n"@ + text,
        UptimeErrorView::UptimeUnavailable => "could not retrieve system uptime"@,
    }
}

/// The status a process ends with after any error.
pub const FAILURE_STATUS: i32 = 1;

impl UptimeError {
    /// The message to show for this error, without a line end.
    pub fn message(&self) -> (text: String)
        ensures
            text@ == message_text(self@),
    {
        match self {
            UptimeError::InvalidOptions(detail) => {
                let mut text: String = String::from_str("Invalid options\n");
                text.append(detail.as_str());
                text
            },
            UptimeError::UptimeUnavailable => String::from_str("could not retrieve system uptime"),
        }
    }

    /// The status the process ends with after this error.
    pub fn exit_code(&self) -> (code: i32)
        ensures
            code == FAILURE_STATUS,
    {
        FAILURE_STATUS
    }
}

} // verus!
