//! The lifecycle controller: the decisions behind start, install, stop and
//! query, and the policy for failure and cleanup.
//!
//! The controller never spawns, signals or waits itself; the surrounding
//! binary does. A start or install is prepared here (validation and launch
//! spec), performed outside, and completed here (registration and buffer
//! handling) once the OS has created the process. A stop is decided here as
//! an explicit plan of steps — signal the process group, pause for the grace
//! period, escalate, reap — that the binary carries out in order.

use vstd::prelude::*;
use crate::aggregator::Aggregator;
use crate::aggregator::spec_after_append_line;
use crate::aggregator::spec_after_append_text;
use crate::aggregator::spec_snapshot;
use crate::errors::SupervisorError;
use crate::launch::LaunchSpec;
use crate::launch::Platform;
use crate::launch::build_launch_spec;
use crate::launch::spec_launch_ok;
use crate::registry::Registry;
use crate::registry::spec_take;

verus! {

/// The grace period, in milliseconds, between the graceful and the forceful
/// signal of a stop.
pub const STOP_GRACE_MILLIS: u64 = 100;

/// A termination signal, in the order of escalation.
#[derive(Clone, Copy, PartialEq, Eq, Structural, Debug)]
pub enum Signal {
    /// The graceful request to terminate.
    Term,
    /// The forceful kill that stragglers cannot ignore.
    Kill,
}

/// One step of a stop plan, carried out in order by the surrounding binary.
#[derive(Clone, Copy, PartialEq, Eq, Structural, Debug)]
pub enum StopStep {
    /// Send `signal` to the child's entire process group — addressed on
    /// Unix-like systems by the negative of the group-leader pid — so that
    /// every descendant is reached.
    SignalGroup { pid: u32, signal: Signal },
    /// Wait `millis` milliseconds before the next step.
    Pause { millis: u64 },
    /// Terminate the direct child only; descendants are not reached. The
    /// fallback where process groups are unavailable.
    KillChild { pid: u32 },
    /// Block until the child has been reaped by the OS wait-for-exit call,
    /// so that no zombie is left behind.
    Reap,
}

/// The steps that stop a registered process: on Unix-like systems a graceful
/// group signal, the fixed grace period, a forceful group signal, then the
/// reap; elsewhere a direct kill of the child, then the reap.
pub open spec fn spec_stop_plan(platform: Platform, pid: u32) -> Seq<StopStep> {
    match platform {
        Platform::Unix => seq![
            StopStep::SignalGroup { pid, signal: Signal::Term },
            StopStep::Pause { millis: STOP_GRACE_MILLIS },
            StopStep::SignalGroup { pid, signal: Signal::Kill },
            StopStep::Reap,
        ],
        Platform::Windows => seq![StopStep::KillChild { pid }, StopStep::Reap],
    }
}

/// A package-manager name the supervisor recognises.
pub open spec fn spec_is_valid_manager(manager: Seq<char>) -> bool {
    manager == "yarn"@ || manager == "npm"@
}

/// The fixed install command a recognised package manager resolves to.
pub open spec fn spec_install_command(manager: Seq<char>) -> Seq<char> {
    if manager == "yarn"@ {
        "yarn install"@
    } else {
        "npm install"@
    }
}

/// The marker line appended to a slot's buffer when an install starts,
/// identifying which manager is running.
pub open spec fn spec_install_marker(manager: Seq<char>) -> Seq<char> {
    "Running "@ + manager + " install...\n"@
}

/// The package manager a directory's lock files select: `yarn` when a
/// `yarn.lock` is present (taking precedence over any `package-lock.json`),
/// `npm` otherwise — also the default when no lock file exists.
pub open spec fn spec_detect_package_manager(has_yarn_lock: bool) -> Seq<char> {
    if has_yarn_lock {
        "yarn"@
    } else {
        "npm"@
    }
}

/// Picks the package manager from the directory's lock files, probed in
/// order: `yarn.lock` first, then `package-lock.json`, then the default.
pub fn detect_package_manager(has_yarn_lock: bool, has_package_lock: bool) -> (r: String)
    ensures
        r@ == spec_detect_package_manager(has_yarn_lock),
{
    if has_yarn_lock {
        String::from_str("yarn")
    } else if has_package_lock {
        String::from_str("npm")
    } else {
        String::from_str("npm")
    }
}

/// Resolves the fixed install command for `package_manager`, failing with
/// `InvalidPackageManager` exactly on an unrecognised name.
pub fn resolve_install_command(package_manager: &str) -> (r: Result<String, SupervisorError>)
    ensures
        match r {
            Result::Ok(command) => spec_is_valid_manager(package_manager@) && command@
                == spec_install_command(package_manager@),
            Result::Err(e) => !spec_is_valid_manager(package_manager@) && e
                == SupervisorError::InvalidPackageManager,
        },
{
    let manager = package_manager.to_owned();
    if manager == String::from_str("yarn") {
        Result::Ok(String::from_str("yarn install"))
    } else if manager == String::from_str("npm") {
        Result::Ok(String::from_str("npm install"))
    } else {
        Result::Err(SupervisorError::InvalidPackageManager)
    }
}

/// Renders the marker line that an install appends to the slot's buffer.
pub fn install_marker(package_manager: &str) -> (r: String)
    ensures
        r@ == spec_install_marker(package_manager@),
{
    String::from_str("Running ").concat(package_manager).concat(" install...\n")
}

/// Validates and builds the launch spec for a start request. Fails with
/// `InvalidCommand` exactly on an empty command; nothing is spawned,
/// registered or buffered by this step.
pub fn prepare_start(
    platform: Platform,
    shell_var: Option<String>,
    working_dir: String,
    raw_command: &str,
) -> (r: Result<LaunchSpec, SupervisorError>)
    ensures
        match r {
            Result::Ok(launch) => raw_command@.len() > 0 && spec_launch_ok(
                launch,
                platform,
                shell_var,
                working_dir@,
                raw_command@,
            ),
            Result::Err(e) => raw_command@.len() == 0 && e == SupervisorError::InvalidCommand,
        },
{
    build_launch_spec(platform, shell_var, working_dir, raw_command)
}

/// Resolves the install command for `package_manager` and builds its launch
/// spec. Fails with `InvalidPackageManager` exactly on an unrecognised
/// manager name; an install command is never empty, so no other failure
/// arises.
pub fn prepare_install(
    platform: Platform,
    shell_var: Option<String>,
    working_dir: String,
    package_manager: &str,
) -> (r: Result<LaunchSpec, SupervisorError>)
    ensures
        match r {
            Result::Ok(launch) => spec_is_valid_manager(package_manager@) && spec_launch_ok(
                launch,
                platform,
                shell_var,
                working_dir@,
                spec_install_command(package_manager@),
            ),
            Result::Err(e) => !spec_is_valid_manager(package_manager@) && e
                == SupervisorError::InvalidPackageManager,
        },
{
    let command = match resolve_install_command(package_manager) {
        Result::Ok(command) => command,
        Result::Err(e) => {
            return Result::Err(e);
        },
    };
    proof {
        reveal_strlit("yarn install");
        reveal_strlit("npm install");
    }
    match build_launch_spec(platform, shell_var, working_dir, command.as_str()) {
        Result::Ok(launch) => Result::Ok(launch),
        Result::Err(e) => {
            proof {
                assert(false);
            }
            Result::Err(e)
        },
    }
}

/// Completes a start once the OS has created the process: the slot's buffer
/// is reset to empty, then the new handle is registered. The slot must hold
/// no handle; a caller restarting a slot takes the prior handle out with
/// [`begin_stop`] first, so that no running process is silently forgotten.
pub fn complete_start(registry: &mut Registry, aggregator: &mut Aggregator, slot: usize, pid: u32)
    requires
        !old(registry)@.contains_key(slot),
    ensures
        final(aggregator)@ == old(aggregator)@.insert(slot, Seq::<char>::empty()),
        final(registry)@ == old(registry)@.insert(slot, pid),
{
    aggregator.initialize(slot);
    registry.insert(slot, pid);
}

/// Completes an install once the OS has created the process: the slot's
/// buffer is preserved — created empty if absent — and the marker line for
/// `package_manager` is appended to it, then the new handle is registered.
/// As with a start, the slot must hold no handle.
pub fn complete_install(
    registry: &mut Registry,
    aggregator: &mut Aggregator,
    slot: usize,
    pid: u32,
    package_manager: &str,
)
    requires
        !old(registry)@.contains_key(slot),
    ensures
        final(aggregator)@ == spec_after_append_text(
            old(aggregator)@,
            slot,
            spec_install_marker(package_manager@),
        ),
        final(registry)@ == old(registry)@.insert(slot, pid),
{
    let marker = install_marker(package_manager);
    aggregator.append_text(slot, marker.as_str());
    registry.insert(slot, pid);
}

/// Begins a stop: atomically takes the slot's handle out of the registry and
/// returns the plan of steps that terminates the process. A slot with no
/// handle yields no plan and the stop succeeds as a no-op.
pub fn begin_stop(registry: &mut Registry, platform: Platform, slot: usize) -> (r: Option<
    Vec<StopStep>,
>)
    ensures
        match r {
            Option::Some(plan) => old(registry)@.contains_key(slot) && plan@ == spec_stop_plan(
                platform,
                old(registry)@[slot],
            ) && final(registry)@ == old(registry)@.remove(slot),
            Option::None => !old(registry)@.contains_key(slot) && final(registry)@ == old(
                registry,
            )@,
        },
{
    match registry.remove(slot) {
        Option::Some(pid) => Option::Some(stop_plan(platform, pid)),
        Option::None => Option::None,
    }
}

/// Builds the stop plan for a taken handle.
pub fn stop_plan(platform: Platform, pid: u32) -> (r: Vec<StopStep>)
    ensures
        r@ == spec_stop_plan(platform, pid),
{
    let mut steps: Vec<StopStep> = Vec::new();
    match platform {
        Platform::Unix => {
            steps.push(StopStep::SignalGroup { pid, signal: Signal::Term });
            steps.push(StopStep::Pause { millis: STOP_GRACE_MILLIS });
            steps.push(StopStep::SignalGroup { pid, signal: Signal::Kill });
            steps.push(StopStep::Reap);
        },
        Platform::Windows => {
            steps.push(StopStep::KillChild { pid });
            steps.push(StopStep::Reap);
        },
    }
    proof {
        assert(steps@ =~= spec_stop_plan(platform, pid));
    }
    steps
}

/// Returns the output accumulated so far for `slot` — the empty text for a
/// slot never started. Never fails, never consumes the buffer, and never
/// waits for the process to produce more.
pub fn get_project_output(aggregator: &Aggregator, slot: usize) -> (r: String)
    ensures
        r@ == spec_snapshot(aggregator@, slot),
{
    aggregator.snapshot(slot)
}

/// A slot that was never started has nothing to show and nothing to stop:
/// its snapshot is the empty text, and taking its handle yields none and
/// leaves the registry as it was.
pub proof fn lemma_untouched_slot_idle(
    registry: Map<usize, u32>,
    buffers: Map<usize, Seq<char>>,
    slot: usize,
)
    requires
        !registry.contains_key(slot),
        !buffers.contains_key(slot),
    ensures
        spec_snapshot(buffers, slot) == Seq::<char>::empty(),
        spec_take(registry, slot) == (Option::<u32>::None, registry),
{
}

/// An install never clears a slot's buffer: whatever text had accumulated —
/// a previous run's marker and output included — stands unchanged as a
/// prefix, and the new marker lands after it.
pub proof fn lemma_install_preserves_buffer(
    buffers: Map<usize, Seq<char>>,
    slot: usize,
    manager: Seq<char>,
)
    ensures
        spec_snapshot(spec_after_append_text(buffers, slot, spec_install_marker(manager)), slot)
            == spec_snapshot(buffers, slot) + spec_install_marker(manager),
{
}

/// Two installs in the same slot without an intervening start: the first
/// install's marker and the output line captured after it stand in the
/// buffer, in order, before the second install's marker.
pub proof fn lemma_second_install_after_first(
    buffers: Map<usize, Seq<char>>,
    slot: usize,
    first: Seq<char>,
    line: Seq<char>,
    second: Seq<char>,
)
    ensures
        ({
            let after_first = spec_after_append_text(buffers, slot, spec_install_marker(first));
            let after_output = spec_after_append_line(after_first, slot, line);
            let after_second = spec_after_append_text(
                after_output,
                slot,
                spec_install_marker(second),
            );
            spec_snapshot(after_second, slot) == spec_snapshot(buffers, slot)
                + spec_install_marker(first) + line + seq!['\n'] + spec_install_marker(second)
        }),
{
}

/// Restarting a slot cannot silently forget a running process: the start
/// sequence first takes the prior handle out — handing it to the caller to
/// stop — and registers the new handle in a slot that then holds none.
/// Registering after the take leaves the registry exactly as a direct
/// replacement would, with nothing lost on the way.
pub proof fn lemma_restart_surrenders_prior_handle(
    registry: Map<usize, u32>,
    slot: usize,
    new_pid: u32,
)
    requires
        registry.contains_key(slot),
    ensures
        ({
            let (taken, rest) = spec_take(registry, slot);
            taken == Option::Some(registry[slot]) && !rest.contains_key(slot) && rest.insert(
                slot,
                new_pid,
            ) == registry.insert(slot, new_pid)
        }),
{
    assert(registry.remove(slot).insert(slot, new_pid) =~= registry.insert(slot, new_pid));
}

} // verus!
