use process_supervisor::aggregator::Aggregator;
use process_supervisor::errors::SupervisorError;
use process_supervisor::launch::Platform;
use process_supervisor::launch::build_launch_spec;
use process_supervisor::lifecycle::Signal;
use process_supervisor::lifecycle::StopStep;
use process_supervisor::lifecycle::begin_stop;
use process_supervisor::lifecycle::complete_install;
use process_supervisor::lifecycle::complete_start;
use process_supervisor::lifecycle::detect_package_manager;
use process_supervisor::lifecycle::get_project_output;
use process_supervisor::lifecycle::install_marker;
use process_supervisor::lifecycle::prepare_install;
use process_supervisor::lifecycle::prepare_start;
use process_supervisor::lifecycle::resolve_install_command;
use process_supervisor::lifecycle::stop_plan;
use process_supervisor::registry::Registry;

const UNIX_PREFIX: &str = "source ~/.profile 2>/dev/null || true; source ~/.bashrc 2>/dev/null || true; source ~/.zshrc 2>/dev/null || true; ";

#[test]
fn untouched_slot_reads_empty_and_stops_as_noop() {
    let mut registry = Registry::new();
    let aggregator = Aggregator::new();
    assert_eq!(get_project_output(&aggregator, 0), "");
    assert_eq!(get_project_output(&aggregator, 41), "");
    assert!(begin_stop(&mut registry, Platform::Unix, 0).is_none());
    assert!(begin_stop(&mut registry, Platform::Windows, 41).is_none());
}

#[test]
fn empty_command_is_rejected_without_any_effect() {
    let r = prepare_start(Platform::Unix, None, String::from("/work"), "");
    match r {
        Err(SupervisorError::InvalidCommand) => {}
        _ => panic!("empty command must fail with InvalidCommand"),
    }
    let r = prepare_start(Platform::Windows, None, String::from("/work"), "");
    assert!(matches!(r, Err(SupervisorError::InvalidCommand)));
}

#[test]
fn started_slot_accumulates_lines_and_snapshots_are_idempotent() {
    let mut registry = Registry::new();
    let mut aggregator = Aggregator::new();
    complete_start(&mut registry, &mut aggregator, 7, 1234);
    aggregator.append_line(7, "hello");
    assert_eq!(get_project_output(&aggregator, 7), "hello\n");
    assert_eq!(get_project_output(&aggregator, 7), "hello\n");
    aggregator.append_line(7, "world");
    assert_eq!(get_project_output(&aggregator, 7), "hello\nworld\n");
}

#[test]
fn start_resets_a_persisting_buffer() {
    let mut registry = Registry::new();
    let mut aggregator = Aggregator::new();
    complete_start(&mut registry, &mut aggregator, 2, 10);
    aggregator.append_line(2, "old run");
    assert!(begin_stop(&mut registry, Platform::Unix, 2).is_some());
    // The buffer persists after the stop, for later snapshot reads.
    assert_eq!(get_project_output(&aggregator, 2), "old run\n");
    complete_start(&mut registry, &mut aggregator, 2, 11);
    assert_eq!(get_project_output(&aggregator, 2), "");
}

#[test]
fn append_to_unknown_slot_is_silently_discarded() {
    let mut aggregator = Aggregator::new();
    aggregator.append_line(5, "stray line racing a teardown");
    assert_eq!(get_project_output(&aggregator, 5), "");
    assert!(!aggregator.contains(5));
}

#[test]
fn interleaved_appends_and_snapshots_grow_by_whole_lines() {
    let mut registry = Registry::new();
    let mut aggregator = Aggregator::new();
    complete_start(&mut registry, &mut aggregator, 1, 99);
    let mut seen = get_project_output(&aggregator, 1);
    for line in ["alpha", "beta", "gamma"] {
        aggregator.append_line(1, line);
        let now = get_project_output(&aggregator, 1);
        // Every earlier snapshot is a prefix of every later one.
        assert!(now.starts_with(&seen));
        assert!(now.ends_with('\n'));
        seen = now;
    }
    assert_eq!(seen, "alpha\nbeta\ngamma\n");
}

#[test]
fn unix_stop_plan_signals_the_whole_group_then_escalates() {
    let plan = stop_plan(Platform::Unix, 4321);
    assert_eq!(
        plan,
        vec![
            StopStep::SignalGroup { pid: 4321, signal: Signal::Term },
            StopStep::Pause { millis: 100 },
            StopStep::SignalGroup { pid: 4321, signal: Signal::Kill },
            StopStep::Reap,
        ]
    );
}

#[test]
fn windows_stop_plan_kills_the_direct_child_only() {
    let plan = stop_plan(Platform::Windows, 55);
    assert_eq!(plan, vec![StopStep::KillChild { pid: 55 }, StopStep::Reap]);
}

#[test]
fn begin_stop_takes_the_handle_and_plans_its_termination() {
    let mut registry = Registry::new();
    let mut aggregator = Aggregator::new();
    complete_start(&mut registry, &mut aggregator, 3, 777);
    let plan = begin_stop(&mut registry, Platform::Unix, 3).expect("a handle was registered");
    assert_eq!(plan[0], StopStep::SignalGroup { pid: 777, signal: Signal::Term });
    // The take was atomic: a second stop is a no-op.
    assert!(begin_stop(&mut registry, Platform::Unix, 3).is_none());
}

#[test]
fn restart_surrenders_the_prior_handle() {
    let mut registry = Registry::new();
    let mut aggregator = Aggregator::new();
    complete_start(&mut registry, &mut aggregator, 9, 100);
    // Starting the same slot again first takes the old handle out, so the
    // running process is handed back for stopping, never silently forgotten.
    let prior = begin_stop(&mut registry, Platform::Unix, 9).expect("prior handle");
    assert_eq!(prior[0], StopStep::SignalGroup { pid: 100, signal: Signal::Term });
    complete_start(&mut registry, &mut aggregator, 9, 200);
    let replaced = begin_stop(&mut registry, Platform::Unix, 9).expect("new handle");
    assert_eq!(replaced[0], StopStep::SignalGroup { pid: 200, signal: Signal::Term });
}

#[test]
fn two_installs_preserve_the_first_runs_output() {
    let mut registry = Registry::new();
    let mut aggregator = Aggregator::new();
    complete_install(&mut registry, &mut aggregator, 6, 500, "npm");
    aggregator.append_line(6, "added 12 packages");
    // The first install's process is reaped before the next one starts.
    assert!(begin_stop(&mut registry, Platform::Unix, 6).is_some());
    complete_install(&mut registry, &mut aggregator, 6, 501, "yarn");
    assert_eq!(
        get_project_output(&aggregator, 6),
        "Running npm install...\nadded 12 packages\nRunning yarn install...\n"
    );
}

#[test]
fn install_after_start_appends_to_the_preserved_buffer() {
    let mut registry = Registry::new();
    let mut aggregator = Aggregator::new();
    complete_start(&mut registry, &mut aggregator, 4, 20);
    aggregator.append_line(4, "dev server listening");
    assert!(begin_stop(&mut registry, Platform::Unix, 4).is_some());
    complete_install(&mut registry, &mut aggregator, 4, 21, "npm");
    assert_eq!(
        get_project_output(&aggregator, 4),
        "dev server listening\nRunning npm install...\n"
    );
}

#[test]
fn install_marker_text_is_exact() {
    assert_eq!(install_marker("npm"), "Running npm install...\n");
    assert_eq!(install_marker("yarn"), "Running yarn install...\n");
}

#[test]
fn detect_package_manager_honours_lock_files() {
    assert_eq!(detect_package_manager(true, false), "yarn");
    assert_eq!(detect_package_manager(false, true), "npm");
    assert_eq!(detect_package_manager(false, false), "npm");
    // yarn.lock takes precedence when both lock files exist.
    assert_eq!(detect_package_manager(true, true), "yarn");
}

#[test]
fn install_commands_resolve_exactly() {
    assert_eq!(resolve_install_command("npm").unwrap(), "npm install");
    assert_eq!(resolve_install_command("yarn").unwrap(), "yarn install");
}

#[test]
fn unknown_package_manager_is_rejected() {
    for bad in ["pnpm", "", "NPM", "yarn "] {
        match resolve_install_command(bad) {
            Err(SupervisorError::InvalidPackageManager) => {}
            _ => panic!("{bad:?} must fail with InvalidPackageManager"),
        }
        assert!(matches!(
            prepare_install(Platform::Unix, None, String::from("/p"), bad),
            Err(SupervisorError::InvalidPackageManager)
        ));
    }
}

#[test]
fn windows_launch_runs_the_raw_command_through_cmd() {
    let launch = build_launch_spec(
        Platform::Windows,
        None,
        String::from("C:\\proj"),
        "npm run dev",
    )
    .unwrap();
    assert_eq!(launch.program, "cmd");
    assert_eq!(launch.flag, "/C");
    assert_eq!(launch.command, "npm run dev");
    assert_eq!(launch.working_dir, "C:\\proj");
}

#[test]
fn unix_launch_wraps_the_command_in_the_users_shell() {
    let launch = build_launch_spec(
        Platform::Unix,
        Some(String::from("/bin/zsh")),
        String::from("/proj"),
        "npm run dev",
    )
    .unwrap();
    assert_eq!(launch.program, "/bin/zsh");
    assert_eq!(launch.flag, "-c");
    assert_eq!(launch.command, format!("{UNIX_PREFIX}npm run dev"));
    assert_eq!(launch.working_dir, "/proj");
}

#[test]
fn unix_launch_falls_back_to_bash_when_shell_is_unset() {
    let launch = build_launch_spec(Platform::Unix, None, String::from("/proj"), "make").unwrap();
    assert_eq!(launch.program, "/bin/bash");
    assert_eq!(launch.command, format!("{UNIX_PREFIX}make"));
}

#[test]
fn prepare_install_builds_the_resolved_install_command() {
    let launch = prepare_install(
        Platform::Unix,
        Some(String::from("/bin/sh")),
        String::from("/proj"),
        "yarn",
    )
    .unwrap();
    assert_eq!(launch.program, "/bin/sh");
    assert_eq!(launch.command, format!("{UNIX_PREFIX}yarn install"));

    let launch = prepare_install(Platform::Windows, None, String::from("C:\\proj"), "npm").unwrap();
    assert_eq!(launch.program, "cmd");
    assert_eq!(launch.command, "npm install");
}

#[test]
fn error_messages_are_descriptive() {
    assert_eq!(SupervisorError::InvalidCommand.message(), "Empty command");
    assert_eq!(
        SupervisorError::InvalidPackageManager.message(),
        "Invalid package manager"
    );
    assert_eq!(
        SupervisorError::spawn_failed(String::from("No such file or directory")).message(),
        "Failed to start process: No such file or directory"
    );
    assert_eq!(
        SupervisorError::wait_failed(String::from("ECHILD")).message(),
        "Failed to wait for process: ECHILD"
    );
}
