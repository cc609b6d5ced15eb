use vstd::prelude::*;

verus! {

/// How an attempt to start the backend ended.
#[derive(Debug, PartialEq, Eq)]
pub enum LaunchOutcome {
    /// The process was spawned and handed to its reaper.
    Started,
    /// The runtime could not be invoked.
    RuntimeMissing,
    /// The backend's working directory does not exist.
    DirectoryMissing,
    /// The operating system refused to create the process, for the given reason.
    SpawnFailed(String),
}

/// The backend as the shell sees it.
#[derive(PartialEq, Eq, Structural, Clone, Copy, Debug)]
pub enum BackendState {
    NotAttempted,
    LaunchFailed,
    LaunchedUnknownHealth,
}

/// Where the setup sequence stands.
#[derive(Debug, PartialEq, Eq)]
pub enum SetupPhase {
    /// Setup has not begun.
    Idle,
    /// Waiting for the runtime probe.
    ProbingRuntime,
    /// Waiting for the directory check.
    CheckingDirectory,
    /// Waiting for the spawn.
    Spawning,
    /// Waiting for the reaper to take the process.
    Reaping,
    /// Setup is over.
    Finished(LaunchOutcome),
}

/// What the host reports back to the setup sequence.
#[derive(Debug, PartialEq, Eq)]
pub enum SetupEvent {
    /// Setup is asked to run.
    Begin,
    /// The runtime's version command could (`true`) or could not be started.
    RuntimeProbed(bool),
    /// The backend directory exists (`true`) or not.
    DirectoryChecked(bool),
    /// The backend process was created.
    Spawned,
    /// The backend process could not be created, for the given reason.
    SpawnRefused(String),
    /// The reaper owns the process now.
    ReaperAttached,
}

/// What the host is asked to do next.
#[derive(Debug, PartialEq, Eq)]
pub enum SetupAction {
    /// Invoke the runtime's version command.
    ProbeRuntime,
    /// Check that the backend directory exists.
    CheckDirectory,
    /// Spawn the backend process.
    Spawn,
    /// Move the process handle into a background task that waits for it.
    AttachReaper,
    /// Setup is over with this outcome: report it.
    Finish(LaunchOutcome),
    /// The event did not fit the phase: nothing to do.
    Ignore,
}

/// One transition of the setup sequence: each check short-circuits on failure,
/// and an event that does not fit the phase changes nothing.
pub open spec fn step(phase: SetupPhase, event: SetupEvent) -> (SetupPhase, SetupAction) {
    match (phase, event) {
        (SetupPhase::Idle, SetupEvent::Begin) => (SetupPhase::ProbingRuntime, SetupAction::ProbeRuntime),
        (SetupPhase::ProbingRuntime, SetupEvent::RuntimeProbed(found)) => if found {
            (SetupPhase::CheckingDirectory, SetupAction::CheckDirectory)
        } else {
            (
                SetupPhase::Finished(LaunchOutcome::RuntimeMissing),
                SetupAction::Finish(LaunchOutcome::RuntimeMissing),
            )
        },
        (SetupPhase::CheckingDirectory, SetupEvent::DirectoryChecked(found)) => if found {
            (SetupPhase::Spawning, SetupAction::Spawn)
        } else {
            (
                SetupPhase::Finished(LaunchOutcome::DirectoryMissing),
                SetupAction::Finish(LaunchOutcome::DirectoryMissing),
            )
        },
        (SetupPhase::Spawning, SetupEvent::Spawned) => (SetupPhase::Reaping, SetupAction::AttachReaper),
        (SetupPhase::Spawning, SetupEvent::SpawnRefused(reason)) => (
            SetupPhase::Finished(LaunchOutcome::SpawnFailed(reason)),
            SetupAction::Finish(LaunchOutcome::SpawnFailed(reason)),
        ),
        (SetupPhase::Reaping, SetupEvent::ReaperAttached) => (
            SetupPhase::Finished(LaunchOutcome::Started),
            SetupAction::Finish(LaunchOutcome::Started),
        ),
        (p, _) => (p, SetupAction::Ignore),
    }
}

/// Feeds `events` to the setup sequence from `phase`: the last phase and the
/// action answered to each event.
pub open spec fn run(phase: SetupPhase, events: Seq<SetupEvent>) -> (SetupPhase, Seq<SetupAction>)
    decreases events.len(),
{
    if events.len() == 0 {
        (phase, Seq::empty())
    } else {
        let (next, action) = step(phase, events[0]);
        let (last, actions) = run(next, events.drop_first());
        (last, seq![action] + actions)
    }
}

/// The backend state that a phase shows: nothing counts as launched until
/// setup is over.
pub open spec fn state_of(phase: SetupPhase) -> BackendState {
    match phase {
        SetupPhase::Idle => BackendState::NotAttempted,
        SetupPhase::Finished(LaunchOutcome::Started) => BackendState::LaunchedUnknownHealth,
        SetupPhase::Finished(_) => BackendState::LaunchFailed,
        _ => BackendState::NotAttempted,
    }
}

impl LaunchOutcome {
    /// A copy of this outcome, reason included.
    pub fn clone_outcome(&self) -> (r: LaunchOutcome)
        ensures
            r == *self,
    {
        match self {
            LaunchOutcome::Started => LaunchOutcome::Started,
            LaunchOutcome::RuntimeMissing => LaunchOutcome::RuntimeMissing,
            LaunchOutcome::DirectoryMissing => LaunchOutcome::DirectoryMissing,
            LaunchOutcome::SpawnFailed(reason) => LaunchOutcome::SpawnFailed(reason.clone()),
        }
    }
}

/// Computes one transition of the setup sequence.
pub fn advance(phase: SetupPhase, event: SetupEvent) -> (r: (SetupPhase, SetupAction))
    ensures
        r == step(phase, event),
{
    match (phase, event) {
        (SetupPhase::Idle, SetupEvent::Begin) => (SetupPhase::ProbingRuntime, SetupAction::ProbeRuntime),
        (SetupPhase::ProbingRuntime, SetupEvent::RuntimeProbed(found)) => {
            if found {
                (SetupPhase::CheckingDirectory, SetupAction::CheckDirectory)
            } else {
                (
                    SetupPhase::Finished(LaunchOutcome::RuntimeMissing),
                    SetupAction::Finish(LaunchOutcome::RuntimeMissing),
                )
            }
        },
        (SetupPhase::CheckingDirectory, SetupEvent::DirectoryChecked(found)) => {
            if found {
                (SetupPhase::Spawning, SetupAction::Spawn)
            } else {
                (
                    SetupPhase::Finished(LaunchOutcome::DirectoryMissing),
                    SetupAction::Finish(LaunchOutcome::DirectoryMissing),
                )
            }
        },
        (SetupPhase::Spawning, SetupEvent::Spawned) => (SetupPhase::Reaping, SetupAction::AttachReaper),
        (SetupPhase::Spawning, SetupEvent::SpawnRefused(reason)) => {
            let copy = reason.clone();
            (
                SetupPhase::Finished(LaunchOutcome::SpawnFailed(reason)),
                SetupAction::Finish(LaunchOutcome::SpawnFailed(copy)),
            )
        },
        (SetupPhase::Reaping, SetupEvent::ReaperAttached) => (
            SetupPhase::Finished(LaunchOutcome::Started),
            SetupAction::Finish(LaunchOutcome::Started),
        ),
        (p, _) => (p, SetupAction::Ignore),
    }
}


/// Drives the setup sequence for one shell: the host reports each outcome and
/// performs the action it gets back.
pub struct BackendSupervisor {
    pub phase: SetupPhase,
}

impl BackendSupervisor {
    /// A supervisor before setup.
    pub fn new() -> (r: BackendSupervisor)
        ensures
            r.phase == SetupPhase::Idle,
    {
        BackendSupervisor { phase: SetupPhase::Idle }
    }

    /// Takes in one event and returns the action the host performs next.
    pub fn handle(&mut self, event: SetupEvent) -> (r: SetupAction)
        ensures
            (final(self).phase, r) == step(old(self).phase, event),
    {
        let mut current = SetupPhase::Idle;
        core::mem::swap(&mut current, &mut self.phase);
        let (next, action) = advance(current, event);
        self.phase = next;
        action
    }

    /// The backend state that setup has reached so far.
    pub fn backend_state(&self) -> (r: BackendState)
        ensures
            r == state_of(self.phase),
    {
        match &self.phase {
            SetupPhase::Idle => BackendState::NotAttempted,
            SetupPhase::Finished(LaunchOutcome::Started) => BackendState::LaunchedUnknownHealth,
            SetupPhase::Finished(_) => BackendState::LaunchFailed,
            _ => BackendState::NotAttempted,
        }
    }

    /// How setup ended, once it has.
    pub fn outcome(&self) -> (r: Option<LaunchOutcome>)
        ensures
            r == (match self.phase {
                SetupPhase::Finished(o) => Some(o),
                _ => None::<LaunchOutcome>,
            }),
    {
        match &self.phase {
            SetupPhase::Finished(o) => Some(o.clone_outcome()),
            _ => None,
        }
    }
}

/// Running one event and then the rest.
proof fn lemma_run_cons(phase: SetupPhase, e: SetupEvent, rest: Seq<SetupEvent>)
    ensures
        run(phase, seq![e] + rest) == (
            run(step(phase, e).0, rest).0,
            seq![step(phase, e).1] + run(step(phase, e).0, rest).1,
        ),
{
    let evs = seq![e] + rest;
    assert(evs.drop_first() =~= rest);
    assert(evs[0] == e);
}

/// Running two sequences of events one after the other.
proof fn lemma_run_append(phase: SetupPhase, a: Seq<SetupEvent>, b: Seq<SetupEvent>)
    ensures
        run(phase, a + b) == (
            run(run(phase, a).0, b).0,
            run(phase, a).1 + run(run(phase, a).0, b).1,
        ),
    decreases a.len(),
{
    if a.len() == 0 {
        assert(a + b =~= b);
        assert(run(phase, a).1 + run(run(phase, a).0, b).1 =~= run(phase, b).1);
    } else {
        let next = step(phase, a[0]).0;
        lemma_run_append(next, a.drop_first(), b);
        assert((a + b).drop_first() =~= a.drop_first() + b);
        assert(run(phase, a + b).1 =~= run(phase, a).1 + run(run(phase, a).0, b).1);
    }
}

/// The phases from which no process can be spawned any more.
pub open spec fn past_spawn(phase: SetupPhase) -> bool {
    phase is Spawning || phase is Reaping || phase is Finished
}

/// Once setup is over, every further event is ignored.
pub proof fn lemma_finished_is_final(o: LaunchOutcome, events: Seq<SetupEvent>)
    ensures
        run(SetupPhase::Finished(o), events).0 == SetupPhase::Finished(o),
        run(SetupPhase::Finished(o), events).1.len() == events.len(),
        forall|i: int|
            0 <= i < events.len() ==> run(SetupPhase::Finished(o), events).1[i] is Ignore,
    decreases events.len(),
{
    if events.len() > 0 {
        lemma_finished_is_final(o, events.drop_first());
    }
}

/// After a spawn was asked for, no second spawn is asked for; after a reaper
/// was asked for, no second reaper is.
proof fn lemma_no_repeat(phase: SetupPhase, events: Seq<SetupEvent>)
    ensures
        run(phase, events).1.len() == events.len(),
        past_spawn(phase) ==> forall|i: int|
            0 <= i < events.len() ==> !(run(phase, events).1[i] is Spawn),
        (phase is Reaping || phase is Finished) ==> forall|i: int|
            0 <= i < events.len() ==> !(run(phase, events).1[i] is AttachReaper),
    decreases events.len(),
{
    if events.len() > 0 {
        lemma_no_repeat(step(phase, events[0]).0, events.drop_first());
    }
}

/// Over any sequence of events, the backend is spawned at most once, it is
/// handed to at most one reaper, and a reaper is asked for only in answer to
/// a spawn that succeeded: a failed spawn never leaves a reaper behind.
pub proof fn lemma_single_spawn_single_reaper(phase: SetupPhase, events: Seq<SetupEvent>)
    ensures
        forall|i: int, j: int|
            0 <= i < j < events.len() ==> !(run(phase, events).1[i] is Spawn && run(
                phase,
                events,
            ).1[j] is Spawn),
        forall|i: int, j: int|
            0 <= i < j < events.len() ==> !(run(phase, events).1[i] is AttachReaper && run(
                phase,
                events,
            ).1[j] is AttachReaper),
        forall|i: int|
            0 <= i < events.len() && run(phase, events).1[i] is AttachReaper ==> events[i]
                is Spawned,
    decreases events.len(),
{
    if events.len() > 0 {
        let rest = events.drop_first();
        let next = step(phase, events[0]).0;
        lemma_single_spawn_single_reaper(next, rest);
        lemma_no_repeat(next, rest);
        let acts = run(phase, events).1;
        let tail = run(next, rest).1;
        assert(acts =~= seq![step(phase, events[0]).1] + tail);
        assert forall|i: int| 0 < i < events.len() implies acts[i] == tail[i - 1]
            && events[i] == rest[i - 1] by {}
    }
}

/// Where the backend directory is missing, setup ends with that outcome and
/// nothing is ever spawned or reaped, whatever events follow.
pub proof fn lemma_directory_missing_never_launches(rest: Seq<SetupEvent>)
    ensures
        ({
            let (last, actions) = run(
                SetupPhase::Idle,
                seq![
                    SetupEvent::Begin,
                    SetupEvent::RuntimeProbed(true),
                    SetupEvent::DirectoryChecked(false),
                ] + rest,
            );
            &&& last == SetupPhase::Finished(LaunchOutcome::DirectoryMissing)
            &&& forall|i: int|
                0 <= i < actions.len() ==> !(actions[i] is Spawn) && !(actions[i] is AttachReaper)
        }),
{
    let o = LaunchOutcome::DirectoryMissing;
    let head = seq![
        SetupEvent::Begin,
        SetupEvent::RuntimeProbed(true),
        SetupEvent::DirectoryChecked(false),
    ];
    reveal_with_fuel(run, 4);
    assert(run(SetupPhase::Idle, head).1 =~= seq![
        SetupAction::ProbeRuntime,
        SetupAction::CheckDirectory,
        SetupAction::Finish(o),
    ]);
    lemma_run_append(SetupPhase::Idle, head, rest);
    lemma_finished_is_final(o, rest);
}

/// Where the spawn fails, setup ends with that failure and its reason, the
/// spawn was asked for once, and no reaper is ever asked for, whatever events
/// follow.
pub proof fn lemma_spawn_failure_leaves_no_reaper(reason: String, rest: Seq<SetupEvent>)
    ensures
        ({
            let (last, actions) = run(
                SetupPhase::Idle,
                seq![
                    SetupEvent::Begin,
                    SetupEvent::RuntimeProbed(true),
                    SetupEvent::DirectoryChecked(true),
                    SetupEvent::SpawnRefused(reason),
                ] + rest,
            );
            &&& last == SetupPhase::Finished(LaunchOutcome::SpawnFailed(reason))
            &&& forall|i: int| 0 <= i < actions.len() ==> (actions[i] is Spawn <==> i == 2)
            &&& forall|i: int| 0 <= i < actions.len() ==> !(actions[i] is AttachReaper)
        }),
{
    let o = LaunchOutcome::SpawnFailed(reason);
    let head = seq![
        SetupEvent::Begin,
        SetupEvent::RuntimeProbed(true),
        SetupEvent::DirectoryChecked(true),
        SetupEvent::SpawnRefused(reason),
    ];
    reveal_with_fuel(run, 5);
    assert(run(SetupPhase::Idle, head).1 =~= seq![
        SetupAction::ProbeRuntime,
        SetupAction::CheckDirectory,
        SetupAction::Spawn,
        SetupAction::Finish(o),
    ]);
    lemma_run_append(SetupPhase::Idle, head, rest);
    lemma_finished_is_final(o, rest);
}

/// Where every step succeeds, setup ends with the backend started, after
/// exactly one spawn and exactly one reaper, whatever events follow.
pub proof fn lemma_successful_launch(rest: Seq<SetupEvent>)
    ensures
        ({
            let (last, actions) = run(
                SetupPhase::Idle,
                seq![
                    SetupEvent::Begin,
                    SetupEvent::RuntimeProbed(true),
                    SetupEvent::DirectoryChecked(true),
                    SetupEvent::Spawned,
                    SetupEvent::ReaperAttached,
                ] + rest,
            );
            &&& last == SetupPhase::Finished(LaunchOutcome::Started)
            &&& state_of(last) == BackendState::LaunchedUnknownHealth
            &&& forall|i: int| 0 <= i < actions.len() ==> (actions[i] is Spawn <==> i == 2)
            &&& forall|i: int| 0 <= i < actions.len() ==> (actions[i] is AttachReaper <==> i == 3)
        }),
{
    let o = LaunchOutcome::Started;
    let head = seq![
        SetupEvent::Begin,
        SetupEvent::RuntimeProbed(true),
        SetupEvent::DirectoryChecked(true),
        SetupEvent::Spawned,
        SetupEvent::ReaperAttached,
    ];
    reveal_with_fuel(run, 6);
    assert(run(SetupPhase::Idle, head).1 =~= seq![
        SetupAction::ProbeRuntime,
        SetupAction::CheckDirectory,
        SetupAction::Spawn,
        SetupAction::AttachReaper,
        SetupAction::Finish(o),
    ]);
    lemma_run_append(SetupPhase::Idle, head, rest);
    lemma_finished_is_final(o, rest);
}

/// Where the runtime is missing, setup ends with that outcome and nothing is
/// ever spawned or reaped, whatever events follow.
pub proof fn lemma_runtime_missing_never_launches(rest: Seq<SetupEvent>)
    ensures
        ({
            let (last, actions) = run(
                SetupPhase::Idle,
                seq![SetupEvent::Begin, SetupEvent::RuntimeProbed(false)] + rest,
            );
            &&& last == SetupPhase::Finished(LaunchOutcome::RuntimeMissing)
            &&& forall|i: int|
                0 <= i < actions.len() ==> !(actions[i] is Spawn) && !(actions[i] is AttachReaper)
        }),
{
    let o = LaunchOutcome::RuntimeMissing;
    let tail = seq![SetupEvent::RuntimeProbed(false)] + rest;
    assert(seq![SetupEvent::Begin, SetupEvent::RuntimeProbed(false)] + rest =~= seq![
        SetupEvent::Begin,
    ] + tail);
    lemma_run_cons(SetupPhase::Idle, SetupEvent::Begin, tail);
    lemma_run_cons(SetupPhase::ProbingRuntime, SetupEvent::RuntimeProbed(false), rest);
    lemma_finished_is_final(o, rest);
    let actions = run(SetupPhase::Idle, seq![SetupEvent::Begin] + tail).1;
    assert forall|i: int| 2 <= i < actions.len() implies actions[i] == run(
        SetupPhase::Finished(o),
        rest,
    ).1[i - 2] by {}
}

} // verus!
