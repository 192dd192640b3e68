//! The failure kinds of the lifecycle commands and their log texts.

use vstd::prelude::*;
use vstd::string::StringExecFns;

verus! {

/// Why a lifecycle command failed.
#[derive(Debug, PartialEq, Eq)]
pub enum SupervisorError {
    /// A start found the slot occupied.
    AlreadyRunning,
    /// A stop found the slot empty.
    NotRunning,
    /// The worker's invocation could not be resolved.
    ResolutionFailed(String),
    /// The operating system refused to spawn the worker.
    SpawnFailed(String),
    /// The termination signal could not be delivered.
    KillFailed(String),
    /// The slot's guard was poisoned: the slot's true state is unknown.
    LockCorrupted,
}

impl SupervisorError {
    /// The text shown for this failure.
    pub open spec fn message_spec(self) -> Seq<char> {
        match self {
            SupervisorError::AlreadyRunning => "Backend is already running"@,
            SupervisorError::NotRunning => "Backend is not running"@,
            SupervisorError::ResolutionFailed(reason) => "Failed to create sidecar command: "@
                + reason@,
            SupervisorError::SpawnFailed(reason) => "Failed to spawn sidecar: "@ + reason@,
            SupervisorError::KillFailed(reason) => "Failed to kill process: "@ + reason@,
            SupervisorError::LockCorrupted => "poisoned lock: another task failed inside"@,
        }
    }

    /// Whether no later lifecycle command can be trusted after this failure.
    pub open spec fn is_fatal_spec(self) -> bool {
        self is LockCorrupted
    }

    /// Renders the failure as the text that the trigger layer logs.
    pub fn message(&self) -> (text: String)
        ensures
            text@ == self.message_spec(),
    {
        match self {
            SupervisorError::AlreadyRunning => "Backend is already running".to_owned(),
            SupervisorError::NotRunning => "Backend is not running".to_owned(),
            SupervisorError::ResolutionFailed(reason) => {
                "Failed to create sidecar command: ".to_owned().concat(reason.as_str())
            },
            SupervisorError::SpawnFailed(reason) => {
                "Failed to spawn sidecar: ".to_owned().concat(reason.as_str())
            },
            SupervisorError::KillFailed(reason) => {
                "Failed to kill process: ".to_owned().concat(reason.as_str())
            },
            SupervisorError::LockCorrupted => {
                "poisoned lock: another task failed inside".to_owned()
            },
        }
    }

    /// True for the one failure after which the slot must not be used again.
    pub fn is_fatal(&self) -> (fatal: bool)
        ensures
            fatal == self.is_fatal_spec(),
    {
        match self {
            SupervisorError::LockCorrupted => true,
            _ => false,
        }
    }
}

} // verus!
