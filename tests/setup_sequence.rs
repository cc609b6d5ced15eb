use cetiprobe::{
    advance, backend_directory, backend_launch_command, runtime_probe_command, BackendState,
    BackendSupervisor, LaunchOutcome, SetupAction, SetupEvent, SetupPhase,
};

fn drive(events: Vec<SetupEvent>) -> (BackendSupervisor, Vec<SetupAction>) {
    let mut sup = BackendSupervisor::new();
    let mut actions = Vec::new();
    for e in events {
        actions.push(sup.handle(e));
    }
    (sup, actions)
}

#[test]
fn supervisor_starts_not_attempted() {
    let sup = BackendSupervisor::new();
    assert_eq!(sup.phase, SetupPhase::Idle);
    assert_eq!(sup.backend_state(), BackendState::NotAttempted);
    assert_eq!(sup.outcome(), None);
}

#[test]
fn missing_runtime_never_spawns() {
    let (sup, actions) = drive(vec![
        SetupEvent::Begin,
        SetupEvent::RuntimeProbed(false),
        SetupEvent::DirectoryChecked(true),
        SetupEvent::Spawned,
    ]);
    assert_eq!(
        actions,
        vec![
            SetupAction::ProbeRuntime,
            SetupAction::Finish(LaunchOutcome::RuntimeMissing),
            SetupAction::Ignore,
            SetupAction::Ignore,
        ]
    );
    assert_eq!(sup.backend_state(), BackendState::LaunchFailed);
    assert_eq!(sup.outcome(), Some(LaunchOutcome::RuntimeMissing));
}

#[test]
fn missing_directory_never_spawns() {
    let (sup, actions) = drive(vec![
        SetupEvent::Begin,
        SetupEvent::RuntimeProbed(true),
        SetupEvent::DirectoryChecked(false),
        SetupEvent::Spawned,
    ]);
    assert_eq!(
        actions,
        vec![
            SetupAction::ProbeRuntime,
            SetupAction::CheckDirectory,
            SetupAction::Finish(LaunchOutcome::DirectoryMissing),
            SetupAction::Ignore,
        ]
    );
    assert_eq!(sup.backend_state(), BackendState::LaunchFailed);
}

#[test]
fn failed_spawn_leaves_no_reaper() {
    let (sup, actions) = drive(vec![
        SetupEvent::Begin,
        SetupEvent::RuntimeProbed(true),
        SetupEvent::DirectoryChecked(true),
        SetupEvent::SpawnRefused("No such file or directory".to_string()),
        SetupEvent::ReaperAttached,
    ]);
    let failed = LaunchOutcome::SpawnFailed("No such file or directory".to_string());
    assert_eq!(
        actions,
        vec![
            SetupAction::ProbeRuntime,
            SetupAction::CheckDirectory,
            SetupAction::Spawn,
            SetupAction::Finish(LaunchOutcome::SpawnFailed("No such file or directory".to_string())),
            SetupAction::Ignore,
        ]
    );
    assert_eq!(sup.outcome(), Some(failed));
    assert_eq!(sup.backend_state(), BackendState::LaunchFailed);
}

#[test]
fn successful_launch_reaps_once() {
    let (sup, actions) = drive(vec![
        SetupEvent::Begin,
        SetupEvent::RuntimeProbed(true),
        SetupEvent::DirectoryChecked(true),
        SetupEvent::Spawned,
        SetupEvent::ReaperAttached,
        SetupEvent::Spawned,
        SetupEvent::ReaperAttached,
    ]);
    assert_eq!(
        actions,
        vec![
            SetupAction::ProbeRuntime,
            SetupAction::CheckDirectory,
            SetupAction::Spawn,
            SetupAction::AttachReaper,
            SetupAction::Finish(LaunchOutcome::Started),
            SetupAction::Ignore,
            SetupAction::Ignore,
        ]
    );
    assert_eq!(sup.backend_state(), BackendState::LaunchedUnknownHealth);
}

#[test]
fn out_of_order_event_is_ignored() {
    let (next, action) = advance(SetupPhase::Idle, SetupEvent::Spawned);
    assert_eq!(next, SetupPhase::Idle);
    assert_eq!(action, SetupAction::Ignore);
    let (next, action) = advance(SetupPhase::ProbingRuntime, SetupEvent::DirectoryChecked(true));
    assert_eq!(next, SetupPhase::ProbingRuntime);
    assert_eq!(action, SetupAction::Ignore);
}

#[test]
fn outcome_messages() {
    assert_eq!(LaunchOutcome::Started.message(), "Go backend server started");
    assert_eq!(
        LaunchOutcome::RuntimeMissing.message(),
        "Warning: Go is not installed or not in PATH. Backend server will not start."
    );
    assert_eq!(
        LaunchOutcome::DirectoryMissing.message(),
        "Warning: Server directory not found. Backend server will not start."
    );
    assert_eq!(
        LaunchOutcome::SpawnFailed("permission denied".to_string()).message(),
        "Failed to start Go backend server: permission denied"
    );
}

#[test]
fn fixed_commands() {
    let probe = runtime_probe_command();
    assert_eq!(probe.program, "go");
    assert_eq!(probe.args, vec!["version".to_string()]);
    assert_eq!(probe.working_dir, None);
    let launch = backend_launch_command();
    assert_eq!(launch.program, "go");
    assert_eq!(launch.args, vec!["run".to_string(), "cmd/main.go".to_string()]);
    assert_eq!(launch.working_dir, Some("../server".to_string()));
    assert_eq!(backend_directory(), "../server");
}
