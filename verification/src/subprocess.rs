//! A plain model of what an external command invocation came to: the caller
//! runs the command and reports back either the completion status or the
//! failure to launch the process at all.

use vstd::prelude::*;

verus! {

/// The completion status of an external process that was launched and waited
/// on. `code` is the exit code, or `None` when the process was terminated
/// abnormally (for example by a signal) and reported no code.
#[derive(Debug, Clone, Copy, PartialEq, Eq, Structural)]
pub struct ProcessStatus {
    pub code: Option<i32>,
}

impl ProcessStatus {
    /// A process succeeded exactly when it exited with code zero.
    pub open spec fn is_success(&self) -> bool {
        self.code == Some(0i32)
    }

    /// Whether the process exited with code zero.
    pub fn success(&self) -> (r: bool)
        ensures
            r == self.is_success(),
    {
        match self.code {
            Some(c) => c == 0,
            None => false,
        }
    }
}

/// What became of an attempt to launch an external process: either it was
/// launched and ran to completion with the given status, or it could not be
/// launched at all, with a description of the launch error.
#[derive(Debug, Clone, PartialEq, Eq)]
pub enum SpawnOutcome {
    Completed(ProcessStatus),
    LaunchFailed(String),
}

} // verus!
