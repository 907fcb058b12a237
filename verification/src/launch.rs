//! Decision logic of the best-effort backend launch.
//!
//! The shell probes a fixed local endpoint once; when the probe finds the
//! backend running it stops there, and otherwise it resolves the backend's
//! directory and spawns the backend process, collapsing every failure into
//! an error message for the caller. The outside work (the probe, the
//! directory lookup, the spawn) happens beyond this library; here stands
//! the machine that decides, from each outcome, what happens next and
//! which message the caller receives.

use vstd::prelude::*;
use vstd::string::StringExecFns;

verus! {

/// What the one-shot liveness probe reported: the endpoint responded
/// (successfully or not), or the probing tool itself was unavailable.
pub enum ProbeOutcome {
    Responded { success: bool },
    Unavailable,
}

/// The final outcome of a launch run.
pub enum LaunchResult {
    /// The probe found the backend already running.
    AlreadyRunning,
    /// The backend process was spawned; nothing waits for it to be ready.
    StartAttempted,
    /// The backend's directory could not be resolved; the payload is the
    /// underlying error text.
    DirError(String),
    /// The spawn itself failed; the payload is the underlying error text.
    SpawnError(String),
}

/// Where a launch run stands. A run starts at `Probing` and moves through
/// at most `Resolving` and `Spawning` before it is `Finished`.
pub enum LaunchPhase {
    Probing,
    Resolving,
    Spawning,
    Finished(LaunchResult),
}

/// The outcome of one piece of outside work, reported back to the machine.
pub enum LaunchEvent {
    Probed(ProbeOutcome),
    DirResolved,
    DirFailed(String),
    Spawned,
    SpawnFailed(String),
}

/// The outside work the machine asks for in a given phase.
pub enum LaunchAction {
    Probe,
    ResolveDir,
    Spawn,
    Stop,
}

/// Whether the probe outcome counts as "the backend is running": only a
/// response with a success status does; a failed response and an
/// unavailable probing tool are both treated as "not running".
pub open spec fn probe_says_running(p: ProbeOutcome) -> bool {
    p matches ProbeOutcome::Responded { success } && success
}

/// The transition relation of the launch machine. An event that does not
/// belong to the current phase changes nothing; a finished run stays
/// finished.
pub open spec fn spec_step(phase: LaunchPhase, event: LaunchEvent) -> LaunchPhase {
    match phase {
        LaunchPhase::Probing => match event {
            LaunchEvent::Probed(p) => if probe_says_running(p) {
                LaunchPhase::Finished(LaunchResult::AlreadyRunning)
            } else {
                LaunchPhase::Resolving
            },
            _ => phase,
        },
        LaunchPhase::Resolving => match event {
            LaunchEvent::DirResolved => LaunchPhase::Spawning,
            LaunchEvent::DirFailed(e) => LaunchPhase::Finished(LaunchResult::DirError(e)),
            _ => phase,
        },
        LaunchPhase::Spawning => match event {
            LaunchEvent::Spawned => LaunchPhase::Finished(LaunchResult::StartAttempted),
            LaunchEvent::SpawnFailed(e) => LaunchPhase::Finished(LaunchResult::SpawnError(e)),
            _ => phase,
        },
        LaunchPhase::Finished(_) => phase,
    }
}

/// Advances the launch machine by one reported outcome.
pub fn step(phase: LaunchPhase, event: LaunchEvent) -> (next: LaunchPhase)
    ensures
        next == spec_step(phase, event),
{
    match phase {
        LaunchPhase::Probing => match event {
            LaunchEvent::Probed(ProbeOutcome::Responded { success: true }) => {
                LaunchPhase::Finished(LaunchResult::AlreadyRunning)
            },
            LaunchEvent::Probed(_) => LaunchPhase::Resolving,
            _ => LaunchPhase::Probing,
        },
        LaunchPhase::Resolving => match event {
            LaunchEvent::DirResolved => LaunchPhase::Spawning,
            LaunchEvent::DirFailed(e) => LaunchPhase::Finished(LaunchResult::DirError(e)),
            _ => LaunchPhase::Resolving,
        },
        LaunchPhase::Spawning => match event {
            LaunchEvent::Spawned => LaunchPhase::Finished(LaunchResult::StartAttempted),
            LaunchEvent::SpawnFailed(e) => LaunchPhase::Finished(LaunchResult::SpawnError(e)),
            _ => LaunchPhase::Spawning,
        },
        LaunchPhase::Finished(r) => LaunchPhase::Finished(r),
    }
}

/// The outside work owed in each phase.
pub open spec fn spec_next_action(phase: LaunchPhase) -> LaunchAction {
    match phase {
        LaunchPhase::Probing => LaunchAction::Probe,
        LaunchPhase::Resolving => LaunchAction::ResolveDir,
        LaunchPhase::Spawning => LaunchAction::Spawn,
        LaunchPhase::Finished(_) => LaunchAction::Stop,
    }
}

/// Tells the caller which piece of outside work to perform next.
pub fn next_action(phase: &LaunchPhase) -> (a: LaunchAction)
    ensures
        a == spec_next_action(*phase),
{
    match phase {
        LaunchPhase::Probing => LaunchAction::Probe,
        LaunchPhase::Resolving => LaunchAction::ResolveDir,
        LaunchPhase::Spawning => LaunchAction::Spawn,
        LaunchPhase::Finished(_) => LaunchAction::Stop,
    }
}

/// Whether an event is one that the current phase's outside work can
/// report. A finished run accepts anything (and ignores it).
pub open spec fn event_fits(phase: LaunchPhase, event: LaunchEvent) -> bool {
    match phase {
        LaunchPhase::Probing => event is Probed,
        LaunchPhase::Resolving => event is DirResolved || event is DirFailed,
        LaunchPhase::Spawning => event is Spawned || event is SpawnFailed,
        LaunchPhase::Finished(_) => true,
    }
}

/// How far a phase is from the end of the run.
pub open spec fn phase_rank(phase: LaunchPhase) -> nat {
    match phase {
        LaunchPhase::Probing => 3,
        LaunchPhase::Resolving => 2,
        LaunchPhase::Spawning => 1,
        LaunchPhase::Finished(_) => 0,
    }
}

/// An unfinished run always moves closer to the end: each fitting event
/// strictly lowers the phase rank, so the machine can never loop or get
/// stuck before it holds a final result.
pub proof fn lemma_launch_progress(phase: LaunchPhase, event: LaunchEvent)
    requires
        event_fits(phase, event),
        !(phase is Finished),
    ensures
        phase_rank(spec_step(phase, event)) < phase_rank(phase),
{
}

/// A finished run is stable: no later event changes it.
pub proof fn lemma_finished_is_stable(phase: LaunchPhase, event: LaunchEvent)
    requires
        phase is Finished,
    ensures
        spec_step(phase, event) == phase,
{
}

/// A launch run never ends in anything but a final result: after at most
/// three fitting events from the start, the machine is finished, and so
/// holds one of the four results that render as a success or error message.
pub proof fn lemma_launch_concludes(e1: LaunchEvent, e2: LaunchEvent, e3: LaunchEvent)
    requires
        event_fits(LaunchPhase::Probing, e1),
        event_fits(spec_step(LaunchPhase::Probing, e1), e2),
        event_fits(spec_step(spec_step(LaunchPhase::Probing, e1), e2), e3),
    ensures
        spec_step(spec_step(spec_step(LaunchPhase::Probing, e1), e2), e3) is Finished,
{
}

/// A successful liveness probe short-circuits the spawn attempt: the run
/// is finished at once with the already-running result, and no later event
/// can ever bring it to the spawning phase.
pub proof fn lemma_probe_success_short_circuits(event: LaunchEvent)
    ensures
        spec_step(
            LaunchPhase::Probing,
            LaunchEvent::Probed(ProbeOutcome::Responded { success: true }),
        ) == LaunchPhase::Finished(LaunchResult::AlreadyRunning),
        spec_step(LaunchPhase::Finished(LaunchResult::AlreadyRunning), event)
            == LaunchPhase::Finished(LaunchResult::AlreadyRunning),
{
}

/// The message owed for each final result: a success string for the two
/// benign outcomes, an error string that carries the underlying error text
/// for the two failures.
pub open spec fn renders_to(result: LaunchResult, out: Result<String, String>) -> bool {
    match result {
        LaunchResult::AlreadyRunning => out matches Ok(m) && m@ == "Core already running"@,
        LaunchResult::StartAttempted => out matches Ok(m) && m@ == "Attempted to start core"@,
        LaunchResult::DirError(e) => out matches Err(m) && m@
            == "Failed to get current directory: "@ + e@,
        LaunchResult::SpawnError(e) => out matches Err(m) && m@
            == "Failed to start core: "@ + e@
            + ". Please ensure Python and dependencies are installed."@,
    }
}

/// Renders a final result as the message the caller receives.
pub fn render(result: LaunchResult) -> (out: Result<String, String>)
    ensures
        renders_to(result, out),
{
    match result {
        LaunchResult::AlreadyRunning => Ok("Core already running".to_owned()),
        LaunchResult::StartAttempted => Ok("Attempted to start core".to_owned()),
        LaunchResult::DirError(e) => Err(
            "Failed to get current directory: ".to_owned().concat(e.as_str()),
        ),
        LaunchResult::SpawnError(e) => Err(
            "Failed to start core: ".to_owned().concat(e.as_str()).concat(
                ". Please ensure Python and dependencies are installed.",
            ),
        ),
    }
}

/// The program that performs the liveness probe.
pub fn probe_program() -> (s: String)
    ensures
        s@ == "curl"@,
{
    "curl".to_owned()
}

/// The probe's arguments: a silent request to the backend's fixed local
/// endpoint, whose any successful response counts as "already running".
pub fn probe_args() -> (args: Vec<String>)
    ensures
        args@.len() == 2,
        args@[0]@ == "-s"@,
        args@[1]@ == "http://localhost:8000/"@,
{
    let mut args: Vec<String> = Vec::new();
    args.push("-s".to_owned());
    args.push("http://localhost:8000/".to_owned());
    args
}

/// The backend's directory, relative to the current working directory.
pub fn core_relative_dir() -> (s: String)
    ensures
        s@ == "../../../template"@,
{
    "../../../template".to_owned()
}

/// The interpreter that runs the backend.
pub fn spawn_program() -> (s: String)
    ensures
        s@ == "python"@,
{
    "python".to_owned()
}

/// The fixed command line of the backend process: the server module to
/// run, and the loopback host and port it must listen on.
pub fn spawn_args() -> (args: Vec<String>)
    ensures
        args@.len() == 7,
        args@[0]@ == "-m"@,
        args@[1]@ == "uvicorn"@,
        args@[2]@ == "template.core.main:app"@,
        args@[3]@ == "--host"@,
        args@[4]@ == "127.0.0.1"@,
        args@[5]@ == "--port"@,
        args@[6]@ == "8000"@,
{
    let mut args: Vec<String> = Vec::new();
    args.push("-m".to_owned());
    args.push("uvicorn".to_owned());
    args.push("template.core.main:app".to_owned());
    args.push("--host".to_owned());
    args.push("127.0.0.1".to_owned());
    args.push("--port".to_owned());
    args.push("8000".to_owned());
    args
}

} // verus!
