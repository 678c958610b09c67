//! The failure kinds that supervisor operations report to their caller.

use vstd::prelude::*;

verus! {

/// Every way a supervisor operation can fail. All failures are reported
/// synchronously to the caller of the triggering operation; none is retried.
#[derive(Debug)]
pub enum SupervisorError {
    /// `start` was given an empty command string.
    InvalidCommand,
    /// `install_packages` was given a package-manager name other than
    /// `"npm"` or `"yarn"`.
    InvalidPackageManager,
    /// The operating system refused to create the process; carries the OS
    /// error text.
    SpawnFailed(String),
    /// The operating-system wait-for-exit call itself errored; carries the OS
    /// error text.
    WaitFailed(String),
}

/// The descriptive message that each failure kind presents to the caller.
pub open spec fn spec_message(e: SupervisorError) -> Seq<char> {
    match e {
        SupervisorError::InvalidCommand => "Empty command"@,
        SupervisorError::InvalidPackageManager => "Invalid package manager"@,
        SupervisorError::SpawnFailed(reason) => "Failed to start process: "@ + reason@,
        SupervisorError::WaitFailed(reason) => "Failed to wait for process: "@ + reason@,
    }
}

impl SupervisorError {
    /// Renders the failure as the descriptive text handed to the caller.
    pub fn message(&self) -> (r: String)
        ensures
            r@ == spec_message(*self),
    {
        match self {
            SupervisorError::InvalidCommand => String::from_str("Empty command"),
            SupervisorError::InvalidPackageManager => String::from_str("Invalid package manager"),
            SupervisorError::SpawnFailed(reason) => String::from_str(
                "Failed to start process: ",
            ).concat(reason.as_str()),
            SupervisorError::WaitFailed(reason) => String::from_str(
                "Failed to wait for process: ",
            ).concat(reason.as_str()),
        }
    }

    /// Builds the failure that reports an OS refusal to create a process.
    pub fn spawn_failed(reason: String) -> (r: Self)
        ensures
            r == SupervisorError::SpawnFailed(reason),
    {
        SupervisorError::SpawnFailed(reason)
    }

    /// Builds the failure that reports an errored OS wait-for-exit call.
    pub fn wait_failed(reason: String) -> (r: Self)
        ensures
            r == SupervisorError::WaitFailed(reason),
    {
        SupervisorError::WaitFailed(reason)
    }
}

} // verus!
