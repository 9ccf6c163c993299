use crate::log_buffer::{joined, LogBuffer};
use vstd::prelude::*;
use vstd::string::*;

verus! {

/// Why the logs could not be read or exported.
#[derive(PartialEq, Eq, Debug)]
pub enum LogAccessError {
    /// The log buffer has not been set up yet.
    StateMissing,
    /// The lock around the log buffer could not be taken.
    LockFailed,
    /// The clipboard refused the text; holds the clipboard's own message.
    Clipboard(String),
}

pub open spec fn error_message(e: LogAccessError) -> Seq<char> {
    match e {
        LogAccessError::StateMissing => "Log state not found"@,
        LogAccessError::LockFailed => "Failed to acquire log lock"@,
        LogAccessError::Clipboard(m) => "Failed to copy to clipboard: "@ + m@,
    }
}

impl LogAccessError {
    /// The text shown to the caller for this error.
    pub fn message(&self) -> (r: String)
        ensures
            r@ == error_message(*self),
    {
        match self {
            LogAccessError::StateMissing => String::from_str("Log state not found"),
            LogAccessError::LockFailed => String::from_str("Failed to acquire log lock"),
            LogAccessError::Clipboard(m) => {
                let mut r = String::from_str("Failed to copy to clipboard: ");
                r.append(m.as_str());
                r
            },
        }
    }
}

pub open spec fn buffer_ready(state: Option<&LogBuffer>) -> bool {
    match state {
        Some(b) => b.wf(),
        None => true,
    }
}

/// The full current log text, for display or for the clipboard; an error if
/// the log buffer does not exist yet.
pub fn get_logs(state: Option<&LogBuffer>) -> (r: Result<String, LogAccessError>)
    requires
        buffer_ready(state),
    ensures
        match state {
            None => r == Err::<String, LogAccessError>(LogAccessError::StateMissing),
            Some(b) => r is Ok && r->Ok_0@ == joined(b@),
        },
{
    match state {
        None => Err(LogAccessError::StateMissing),
        Some(b) => Ok(b.snapshot()),
    }
}

} // verus!
