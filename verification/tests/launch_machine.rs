use smartbot_desktop::launch::{
    core_relative_dir, next_action, probe_args, probe_program, render, spawn_args,
    spawn_program, step, LaunchAction, LaunchEvent, LaunchPhase, LaunchResult, ProbeOutcome,
};

fn finish(phase: LaunchPhase) -> LaunchResult {
    match phase {
        LaunchPhase::Finished(r) => r,
        _ => panic!("run is not finished"),
    }
}

#[test]
fn successful_probe_short_circuits_the_spawn() {
    let p = step(
        LaunchPhase::Probing,
        LaunchEvent::Probed(ProbeOutcome::Responded { success: true }),
    );
    assert!(matches!(
        p,
        LaunchPhase::Finished(LaunchResult::AlreadyRunning)
    ));
    assert!(matches!(next_action(&p), LaunchAction::Stop));
    assert_eq!(render(finish(p)), Ok("Core already running".to_string()));
}

#[test]
fn failed_probe_response_leads_to_a_spawn_attempt() {
    let p = step(
        LaunchPhase::Probing,
        LaunchEvent::Probed(ProbeOutcome::Responded { success: false }),
    );
    assert!(matches!(p, LaunchPhase::Resolving));
    let p = step(p, LaunchEvent::DirResolved);
    assert!(matches!(p, LaunchPhase::Spawning));
    assert!(matches!(next_action(&p), LaunchAction::Spawn));
    let p = step(p, LaunchEvent::Spawned);
    assert!(matches!(
        p,
        LaunchPhase::Finished(LaunchResult::StartAttempted)
    ));
    assert_eq!(render(finish(p)), Ok("Attempted to start core".to_string()));
}

#[test]
fn unavailable_probe_tool_counts_as_not_running() {
    let p = step(
        LaunchPhase::Probing,
        LaunchEvent::Probed(ProbeOutcome::Unavailable),
    );
    assert!(matches!(p, LaunchPhase::Resolving));
    assert!(matches!(next_action(&p), LaunchAction::ResolveDir));
}

#[test]
fn directory_failure_renders_its_error_message() {
    let p = step(
        LaunchPhase::Probing,
        LaunchEvent::Probed(ProbeOutcome::Unavailable),
    );
    let p = step(p, LaunchEvent::DirFailed("permission denied".to_string()));
    assert!(matches!(next_action(&p), LaunchAction::Stop));
    assert_eq!(
        render(finish(p)),
        Err("Failed to get current directory: permission denied".to_string())
    );
}

#[test]
fn spawn_failure_renders_its_error_message() {
    let p = step(
        LaunchPhase::Probing,
        LaunchEvent::Probed(ProbeOutcome::Responded { success: false }),
    );
    let p = step(p, LaunchEvent::DirResolved);
    let p = step(p, LaunchEvent::SpawnFailed("No such file or directory".to_string()));
    assert_eq!(
        render(finish(p)),
        Err("Failed to start core: No such file or directory. Please ensure Python and dependencies are installed.".to_string())
    );
}

#[test]
fn mismatched_events_change_nothing() {
    let p = step(LaunchPhase::Probing, LaunchEvent::Spawned);
    assert!(matches!(p, LaunchPhase::Probing));
    let p = step(LaunchPhase::Resolving, LaunchEvent::Probed(ProbeOutcome::Unavailable));
    assert!(matches!(p, LaunchPhase::Resolving));
    let p = step(LaunchPhase::Spawning, LaunchEvent::DirResolved);
    assert!(matches!(p, LaunchPhase::Spawning));
}

#[test]
fn finished_runs_are_stable() {
    let p = LaunchPhase::Finished(LaunchResult::AlreadyRunning);
    let p = step(p, LaunchEvent::Probed(ProbeOutcome::Responded { success: false }));
    assert!(matches!(
        p,
        LaunchPhase::Finished(LaunchResult::AlreadyRunning)
    ));
    let p = step(p, LaunchEvent::DirResolved);
    assert!(matches!(
        p,
        LaunchPhase::Finished(LaunchResult::AlreadyRunning)
    ));
}

#[test]
fn each_phase_asks_for_its_own_work() {
    assert!(matches!(next_action(&LaunchPhase::Probing), LaunchAction::Probe));
    assert!(matches!(
        next_action(&LaunchPhase::Resolving),
        LaunchAction::ResolveDir
    ));
    assert!(matches!(next_action(&LaunchPhase::Spawning), LaunchAction::Spawn));
    assert!(matches!(
        next_action(&LaunchPhase::Finished(LaunchResult::StartAttempted)),
        LaunchAction::Stop
    ));
}

#[test]
fn probe_command_is_fixed() {
    assert_eq!(probe_program(), "curl");
    assert_eq!(probe_args(), vec!["-s", "http://localhost:8000/"]);
}

#[test]
fn spawn_command_is_fixed() {
    assert_eq!(spawn_program(), "python");
    assert_eq!(
        spawn_args(),
        vec![
            "-m",
            "uvicorn",
            "template.core.main:app",
            "--host",
            "127.0.0.1",
            "--port",
            "8000"
        ]
    );
    assert_eq!(core_relative_dir(), "../../../template");
}
