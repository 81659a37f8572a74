//! The typed failures this library reports. Every external-process or
//! document-lookup failure is converted into one of these at the point of
//! occurrence and propagated unmodified; nothing is swallowed or retried.

use crate::subprocess::ProcessStatus;
use vstd::prelude::*;

verus! {

/// The status of a finished external command, together with a description of
/// the command that was run, kept for diagnostics.
#[derive(Debug, Clone, PartialEq, Eq)]
pub struct FlokiSubprocessExitStatus {
    pub process_description: String,
    pub exit_status: ProcessStatus,
}

/// The failures of image resolution and acquisition.
#[derive(Debug, Clone, PartialEq, Eq)]
pub enum FlokiError {
    /// The key-source document could not be parsed as a structured document.
    MalformedDocument { file: String },
    /// The dot-separated key path could not be resolved to a string scalar in
    /// the key-source document.
    FailedToFindYamlKey { key: String, file: String },
    /// The external build command exited non-zero or abnormally.
    FailedToBuildImage { image: String, exit_status: FlokiSubprocessExitStatus },
    /// The external pull command exited non-zero or abnormally.
    FailedToPullImage { image: String, exit_status: FlokiSubprocessExitStatus },
    /// The external inspect command could not even be launched; distinct from
    /// the image merely being absent, which is a normal `false` result.
    FailedToCheckForImage { image: String, error: String },
}

} // verus!
