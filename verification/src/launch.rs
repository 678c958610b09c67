//! The shell command builder: a pure transform from a working directory and a
//! raw command string to the platform-appropriate invocation.
//!
//! On Windows the system command interpreter is invoked with a single
//! "run string" flag and the raw command verbatim. On Unix-like systems the
//! interactive shell named by the `SHELL` environment variable (with a
//! Bourne-compatible fallback) runs the command behind a best-effort sourcing
//! of the user's profile and rc files, so that PATH and tool availability
//! match an interactive terminal session. The working directory is handed to
//! the spawn call, never embedded in the command string.

use vstd::prelude::*;
use crate::errors::SupervisorError;

verus! {

/// The target platform, which decides the interpreter and the wrapping of the
/// raw command.
#[derive(Clone, Copy, PartialEq, Eq, Structural, Debug)]
pub enum Platform {
    Windows,
    Unix,
}

/// The resolved, platform-specific invocation derived from a raw command
/// string: interpreter, its run-string flag, the command handed to it, and
/// the working directory for the spawn call.
pub struct LaunchSpec {
    /// The interpreter to invoke: `cmd` on Windows, the resolved shell
    /// elsewhere.
    pub program: String,
    /// The interpreter's "run the following string" flag.
    pub flag: String,
    /// The command string handed to the interpreter.
    pub command: String,
    /// The directory the child starts in, passed to the spawn call.
    pub working_dir: String,
}

/// The best-effort sourcing of the user's profile and rc files that precedes
/// the raw command on Unix-like systems; each file is guarded so that a
/// missing or failing file does not abort the command.
pub open spec fn spec_profile_prefix() -> Seq<char> {
    "source ~/.profile 2>/dev/null || true; source ~/.bashrc 2>/dev/null || true; source ~/.zshrc 2>/dev/null || true; "@
}

/// The Bourne-compatible shell used when the `SHELL` environment variable is
/// unset.
pub open spec fn spec_default_shell() -> Seq<char> {
    "/bin/bash"@
}

/// The shell a Unix-like launch resolves to: the value of the `SHELL`
/// environment variable if one was present, the default shell otherwise.
pub open spec fn spec_resolved_shell(shell_var: Option<String>) -> Seq<char> {
    match shell_var {
        Option::Some(shell) => shell@,
        Option::None => spec_default_shell(),
    }
}

/// The command a Unix-like interpreter is handed: the profile-sourcing
/// prefix followed by the raw command.
pub open spec fn spec_wrapped_command(raw: Seq<char>) -> Seq<char> {
    spec_profile_prefix() + raw
}

/// What a successfully built launch spec holds, per platform.
pub open spec fn spec_launch_ok(
    r: LaunchSpec,
    platform: Platform,
    shell_var: Option<String>,
    working_dir: Seq<char>,
    raw: Seq<char>,
) -> bool {
    &&& r.working_dir@ == working_dir
    &&& match platform {
        Platform::Windows => {
            &&& r.program@ == "cmd"@
            &&& r.flag@ == "/C"@
            &&& r.command@ == raw
        },
        Platform::Unix => {
            &&& r.program@ == spec_resolved_shell(shell_var)
            &&& r.flag@ == "-c"@
            &&& r.command@ == spec_wrapped_command(raw)
        },
    }
}

/// Builds the launch spec for a raw command. Pure: no side effects. Fails
/// exactly on an empty raw command, with `InvalidCommand`.
pub fn build_launch_spec(
    platform: Platform,
    shell_var: Option<String>,
    working_dir: String,
    raw_command: &str,
) -> (r: Result<LaunchSpec, SupervisorError>)
    ensures
        match r {
            Result::Ok(launch) => raw_command@.len() > 0 && spec_launch_ok(
                launch,
                platform,
                shell_var,
                working_dir@,
                raw_command@,
            ),
            Result::Err(e) => raw_command@.len() == 0 && e == SupervisorError::InvalidCommand,
        },
{
    if raw_command.is_empty() {
        return Result::Err(SupervisorError::InvalidCommand);
    }
    match platform {
        Platform::Windows => Result::Ok(
            LaunchSpec {
                program: String::from_str("cmd"),
                flag: String::from_str("/C"),
                command: raw_command.to_owned(),
                working_dir,
            },
        ),
        Platform::Unix => {
            let program = match shell_var {
                Option::Some(shell) => shell,
                Option::None => String::from_str("/bin/bash"),
            };
            let command = String::from_str(
                "source ~/.profile 2>/dev/null || true; source ~/.bashrc 2>/dev/null || true; source ~/.zshrc 2>/dev/null || true; ",
            ).concat(raw_command);
            Result::Ok(
                LaunchSpec { program, flag: String::from_str("-c"), command, working_dir },
            )
        },
    }
}

} // verus!
