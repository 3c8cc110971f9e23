//! The error taxonomy of the supervisor.

use vstd::prelude::*;

verus! {

/// Why a supervised startup failed.
///
/// `Resolution` carries the name of the resource that could not be
/// located, `Launch` the operating system's explanation of the failed
/// spawn; `Timeout` means the backend never became reachable before the
/// deadline.
#[derive(Debug)]
pub enum SupervisorError {
    Resolution(String),
    Launch(String),
    Timeout,
}

impl SupervisorError {
    /// The text shown to the caller for this error.
    pub open spec fn text(&self) -> Seq<char> {
        match self {
            SupervisorError::Resolution(m) => m@,
            SupervisorError::Launch(m) => m@,
            SupervisorError::Timeout => "backend did not start within timeout"@,
        }
    }

    /// Renders the error as a plain message string.
    pub fn describe(&self) -> (r: String)
        ensures
            r@ == self.text(),
    {
        match self {
            SupervisorError::Resolution(m) => m.clone(),
            SupervisorError::Launch(m) => m.clone(),
            SupervisorError::Timeout => String::from_str("backend did not start within timeout"),
        }
    }
}

} // verus!
