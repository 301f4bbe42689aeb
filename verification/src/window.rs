//! The window-maximize command: the reply sent back to the frontend once the
//! host windowing system has been asked to maximize the window.
//!
//! The windowing call itself is performed by the host framework outside the
//! library; the library decides, from the call's outcome, what the command
//! reports. A failed call is surfaced as a recoverable error rather than
//! aborting the process.

use vstd::prelude::*;
use vstd::string::StringExecFns;

verus! {

/// The error the maximize command reports when the host windowing call fails.
#[derive(Clone, Copy, Debug, PartialEq, Eq, Structural)]
pub enum WindowError {
    MaximizeFailed,
}

impl WindowError {
    /// The user-visible description of the error.
    pub fn message(&self) -> (m: String)
        ensures
            m@ == "the window could not be maximized"@,
    {
        String::from_str("the window could not be maximized")
    }
}

/// Decide the maximize command's reply from the outcome of the host
/// windowing call: no value on success, a recoverable error on failure.
pub fn maximize_outcome(call_succeeded: bool) -> (r: Result<(), WindowError>)
    ensures
        call_succeeded ==> r == Result::<(), WindowError>::Ok(()),
        !call_succeeded ==> r == Result::<(), WindowError>::Err(WindowError::MaximizeFailed),
{
    if call_succeeded {
        Ok(())
    } else {
        Err(WindowError::MaximizeFailed)
    }
}

} // verus!
