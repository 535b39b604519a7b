//! The launch attempt as a state machine.
//!
//! The orchestrator decides; the host acts. Each step takes what the host
//! reports and answers with the next phase and with what the host is to do
//! next. The phases follow one another in a fixed order, and the first failure
//! ends the attempt.

use vstd::prelude::*;
use crate::auth::{AuthMethod, AuthMethodView};
use crate::config::{
    build_config,
    configuration,
    ClientConfig,
    ClientConfigView,
    ExtraArgs,
    ExtraArgsView,
};
use crate::error::PipelineError;
use crate::session::{
    create_session,
    handle_of,
    launch,
    launched_from,
    session_of,
    ClientSession,
    ClientSessionView,
    LaunchParameters,
    LaunchParametersView,
    Prerequisites,
    ProcessHandle,
    ProcessHandleView,
    SpawnOutcome,
};
use crate::store::{StoreContents, VersionStore};
use crate::version::{resolution, resolve_version};

verus! {

/// What the player asks for: who plays, which version under which base
/// directory, with which runtime and how much memory.
#[derive(Debug, PartialEq, Eq)]
pub struct LaunchRequest {
    /// How the player is identified.
    pub auth: AuthMethod,
    /// The directory under which installed versions live.
    pub base_dir: String,
    /// The identifier of the version to launch.
    pub version_id: String,
    /// The path of the runtime executable.
    pub java_path: String,
    /// The memory limit in megabytes.
    pub max_mem_mb: i32,
    /// What the launch adds beyond these.
    pub extra_args: ExtraArgs,
}

/// The mathematical value of a [`LaunchRequest`].
pub struct LaunchRequestView {
    pub auth: AuthMethodView,
    pub base_dir: Seq<char>,
    pub version_id: Seq<char>,
    pub java_path: Seq<char>,
    pub max_mem_mb: int,
    pub extra_args: ExtraArgsView,
}

impl View for LaunchRequest {
    type V = LaunchRequestView;

    open spec fn view(&self) -> LaunchRequestView {
        LaunchRequestView {
            auth: self.auth@,
            base_dir: self.base_dir@,
            version_id: self.version_id@,
            java_path: self.java_path@,
            max_mem_mb: self.max_mem_mb as int,
            extra_args: self.extra_args@,
        }
    }
}

/// Where a launch attempt stands.
#[derive(Debug, PartialEq, Eq)]
pub enum Phase {
    /// Nothing has been asked for yet.
    Idle,
    /// The version store is being read for the requested version.
    Resolving(LaunchRequest),
    /// The version is resolved and the configuration is built.
    Configured(ClientConfig),
    /// The session is prepared and the process is being spawned.
    SessionReady(ClientSession),
    /// The process runs and is being handed to the host.
    Launched,
    /// The process was handed over. Nothing follows.
    Done,
    /// A step failed. Nothing follows.
    Failed(PipelineError),
}

/// The mathematical value of a [`Phase`].
pub enum PhaseView {
    Idle,
    Resolving(LaunchRequestView),
    Configured(ClientConfigView),
    SessionReady(ClientSessionView),
    Launched,
    Done,
    Failed(PipelineError),
}

impl View for Phase {
    type V = PhaseView;

    open spec fn view(&self) -> PhaseView {
        match self {
            Phase::Idle => PhaseView::Idle,
            Phase::Resolving(request) => PhaseView::Resolving(request@),
            Phase::Configured(config) => PhaseView::Configured(config@),
            Phase::SessionReady(session) => PhaseView::SessionReady(session@),
            Phase::Launched => PhaseView::Launched,
            Phase::Done => PhaseView::Done,
            Phase::Failed(error) => PhaseView::Failed(*error),
        }
    }
}

impl PhaseView {
    /// The place of a phase in the order of an attempt that succeeds. A
    /// failed attempt has left that order, and ranks with its end.
    pub open spec fn rank(self) -> int {
        match self {
            PhaseView::Idle => 0,
            PhaseView::Resolving(_) => 1,
            PhaseView::Configured(_) => 2,
            PhaseView::SessionReady(_) => 3,
            PhaseView::Launched => 4,
            PhaseView::Done => 5,
            PhaseView::Failed(_) => 5,
        }
    }

    /// The attempt is over.
    pub open spec fn is_terminal(self) -> bool {
        self is Done || self is Failed
    }

    /// An attempt is in flight: it was begun and is not over.
    pub open spec fn is_busy(self) -> bool {
        !(self is Idle) && !self.is_terminal()
    }
}

/// What the host reports to the orchestrator.
#[derive(Debug)]
pub enum Event {
    /// The player asked for a launch.
    Activate(LaunchRequest),
    /// The version store was read; this is what it holds.
    StoreRead(VersionStore),
    /// The prerequisites of the session were looked for.
    PrerequisitesChecked(Prerequisites),
    /// The spawn of the game process came to an end.
    SpawnFinished(SpawnOutcome),
    /// The host has taken over the process.
    HandedOver,
}

/// The mathematical value of an [`Event`].
pub enum EventView {
    Activate(LaunchRequestView),
    StoreRead(StoreContents),
    PrerequisitesChecked(Prerequisites),
    SpawnFinished(SpawnOutcome),
    HandedOver,
}

impl View for Event {
    type V = EventView;

    open spec fn view(&self) -> EventView {
        match self {
            Event::Activate(request) => EventView::Activate(request@),
            Event::StoreRead(store) => EventView::StoreRead(store@),
            Event::PrerequisitesChecked(found) => EventView::PrerequisitesChecked(*found),
            Event::SpawnFinished(outcome) => EventView::SpawnFinished(*outcome),
            Event::HandedOver => EventView::HandedOver,
        }
    }
}

/// What the orchestrator asks of the host.
#[derive(Debug, PartialEq, Eq)]
pub enum Action {
    /// Read the version store for this version and report what it holds.
    ReadStore { base_dir: String, version_id: String },
    /// Look for the prerequisites of a session: this runtime, and write
    /// access to this working directory.
    CheckPrerequisites { java_path: String, working_dir: String },
    /// Spawn the game process with these parameters.
    Spawn(LaunchParameters),
    /// The process runs: take it over.
    TakeOver(ProcessHandle),
    /// The attempt is complete: leave.
    ExitHost,
    /// The attempt failed: tell the player.
    Report(PipelineError),
    /// Nothing is to be done.
    Nothing,
}

/// The mathematical value of an [`Action`].
pub enum ActionView {
    ReadStore { base_dir: Seq<char>, version_id: Seq<char> },
    CheckPrerequisites { java_path: Seq<char>, working_dir: Seq<char> },
    Spawn(LaunchParametersView),
    TakeOver(ProcessHandleView),
    ExitHost,
    Report(PipelineError),
    Nothing,
}

impl View for Action {
    type V = ActionView;

    open spec fn view(&self) -> ActionView {
        match self {
            Action::ReadStore { base_dir, version_id } => ActionView::ReadStore {
                base_dir: base_dir@,
                version_id: version_id@,
            },
            Action::CheckPrerequisites { java_path, working_dir } => {
                ActionView::CheckPrerequisites { java_path: java_path@, working_dir: working_dir@ }
            },
            Action::Spawn(parameters) => ActionView::Spawn(parameters@),
            Action::TakeOver(handle) => ActionView::TakeOver(handle@),
            Action::ExitHost => ActionView::ExitHost,
            Action::Report(error) => ActionView::Report(*error),
            Action::Nothing => ActionView::Nothing,
        }
    }
}

/// The configuration that a request yields against the contents of a store:
/// the version is resolved, and the configuration is built from it.
pub open spec fn configured(request: LaunchRequestView, contents: StoreContents) -> Result<
    ClientConfigView,
    PipelineError,
> {
    match resolution(contents, request.base_dir, request.version_id) {
        Ok(version) => configuration(
            request.auth,
            version,
            request.java_path,
            request.max_mem_mb,
            request.extra_args,
        ),
        Err(error) => Err(error),
    }
}

/// Where a failed step leaves the attempt, and what the host is told.
pub open spec fn failure(error: PipelineError) -> (PhaseView, ActionView) {
    (PhaseView::Failed(error), ActionView::Report(error))
}

/// The step of the state machine: the phase that follows `phase` on `event`,
/// and what the host is to do. An event that the phase does not wait for
/// changes nothing.
pub open spec fn transition(phase: PhaseView, event: EventView) -> (PhaseView, ActionView) {
    match (phase, event) {
        (PhaseView::Idle, EventView::Activate(request)) => (
            PhaseView::Resolving(request),
            ActionView::ReadStore { base_dir: request.base_dir, version_id: request.version_id },
        ),
        (PhaseView::Resolving(request), EventView::StoreRead(contents)) => match configured(
            request,
            contents,
        ) {
            Ok(config) => (
                PhaseView::Configured(config),
                ActionView::CheckPrerequisites {
                    java_path: config.java_path,
                    working_dir: config.version.base_dir,
                },
            ),
            Err(error) => failure(error),
        },
        (PhaseView::Configured(config), EventView::PrerequisitesChecked(found)) => match session_of(
            config,
            found,
        ) {
            Ok(session) => (
                PhaseView::SessionReady(session),
                ActionView::Spawn(session.parameters),
            ),
            Err(error) => failure(error),
        },
        (PhaseView::SessionReady(session), EventView::SpawnFinished(outcome)) => match handle_of(
            session,
            outcome,
        ) {
            Ok(handle) => (PhaseView::Launched, ActionView::TakeOver(handle)),
            Err(error) => failure(error),
        },
        (PhaseView::Launched, EventView::HandedOver) => (PhaseView::Done, ActionView::ExitHost),
        _ => (phase, ActionView::Nothing),
    }
}

/// The orchestrator of one launch attempt. It starts idle and moves only by
/// [`LaunchOrchestrator::step`].
#[derive(Debug)]
pub struct LaunchOrchestrator {
    phase: Phase,
}

impl View for LaunchOrchestrator {
    type V = PhaseView;

    closed spec fn view(&self) -> PhaseView {
        self.phase@
    }
}

impl LaunchOrchestrator {
    /// An orchestrator that waits to be asked.
    pub fn new() -> (orchestrator: Self)
        ensures
            orchestrator@ == PhaseView::Idle,
    {
        LaunchOrchestrator { phase: Phase::Idle }
    }

    /// Where the attempt stands.
    pub fn phase(&self) -> (phase: &Phase)
        ensures
            phase@ == self@,
    {
        &self.phase
    }

    /// Whether an attempt is in flight. While it is, a further request to
    /// launch is not taken up.
    pub fn is_busy(&self) -> (busy: bool)
        ensures
            busy == self@.is_busy(),
    {
        match &self.phase {
            Phase::Idle => false,
            Phase::Done => false,
            Phase::Failed(_) => false,
            _ => true,
        }
    }

    /// Whether the attempt is over.
    pub fn is_terminal(&self) -> (over: bool)
        ensures
            over == self@.is_terminal(),
    {
        match &self.phase {
            Phase::Done => true,
            Phase::Failed(_) => true,
            _ => false,
        }
    }

    /// Takes up what the host reports: the orchestrator in its next phase,
    /// and what the host is to do next.
    pub fn step(self, event: Event) -> (next: (LaunchOrchestrator, Action))
        ensures
            (next.0@, next.1@) == transition(self@, event@),
    {
        match self.phase {
            Phase::Idle => match event {
                Event::Activate(request) => {
                    let action = Action::ReadStore {
                        base_dir: request.base_dir.clone(),
                        version_id: request.version_id.clone(),
                    };
                    (LaunchOrchestrator { phase: Phase::Resolving(request) }, action)
                },
                _ => (LaunchOrchestrator { phase: Phase::Idle }, Action::Nothing),
            },
            Phase::Resolving(request) => match event {
                Event::StoreRead(store) => {
                    match resolve_version(
                        &store,
                        request.base_dir.as_str(),
                        request.version_id.as_str(),
                    ) {
                        Ok(version) => match build_config(
                            request.auth,
                            version,
                            request.java_path,
                            request.max_mem_mb,
                            request.extra_args,
                        ) {
                            Ok(config) => {
                                let action = Action::CheckPrerequisites {
                                    java_path: config.java_path().clone(),
                                    working_dir: config.version_info().base_dir().clone(),
                                };
                                (LaunchOrchestrator { phase: Phase::Configured(config) }, action)
                            },
                            Err(error) => Self::fail(error),
                        },
                        Err(error) => Self::fail(error),
                    }
                },
                _ => (LaunchOrchestrator { phase: Phase::Resolving(request) }, Action::Nothing),
            },
            Phase::Configured(config) => match event {
                Event::PrerequisitesChecked(found) => match create_session(config, found) {
                    Ok(session) => {
                        let action = Action::Spawn(session.parameters().clone());
                        (LaunchOrchestrator { phase: Phase::SessionReady(session) }, action)
                    },
                    Err(error) => Self::fail(error),
                },
                _ => (LaunchOrchestrator { phase: Phase::Configured(config) }, Action::Nothing),
            },
            Phase::SessionReady(session) => match event {
                Event::SpawnFinished(outcome) => match launch(session, outcome) {
                    Ok(handle) => (
                        LaunchOrchestrator { phase: Phase::Launched },
                        Action::TakeOver(handle),
                    ),
                    Err(error) => Self::fail(error),
                },
                _ => (LaunchOrchestrator { phase: Phase::SessionReady(session) }, Action::Nothing),
            },
            Phase::Launched => match event {
                Event::HandedOver => (LaunchOrchestrator { phase: Phase::Done }, Action::ExitHost),
                _ => (LaunchOrchestrator { phase: Phase::Launched }, Action::Nothing),
            },
            Phase::Done => (LaunchOrchestrator { phase: Phase::Done }, Action::Nothing),
            Phase::Failed(error) => (
                LaunchOrchestrator { phase: Phase::Failed(error) },
                Action::Nothing,
            ),
        }
    }

    fn fail(error: PipelineError) -> (next: (LaunchOrchestrator, Action))
        ensures
            (next.0@, next.1@) == failure(error),
    {
        (LaunchOrchestrator { phase: Phase::Failed(error) }, Action::Report(error))
    }
}

/// What a whole attempt yields, given the request and everything that the
/// host is going to find: the steps in their order, the first error if one
/// fails.
pub open spec fn attempt(
    request: LaunchRequestView,
    contents: StoreContents,
    found: Prerequisites,
    outcome: SpawnOutcome,
) -> Result<ProcessHandleView, PipelineError> {
    match configured(request, contents) {
        Ok(config) => launched_from(config, found, outcome),
        Err(error) => Err(error),
    }
}

/// The phase that a run of events leads to from `phase`, and what the host
/// was asked to do on each of them.
pub open spec fn run(phase: PhaseView, events: Seq<EventView>) -> (PhaseView, Seq<ActionView>)
    decreases events.len(),
{
    if events.len() == 0 {
        (phase, Seq::empty())
    } else {
        let (next, action) = transition(phase, events[0]);
        let (last, actions) = run(next, events.drop_first());
        (last, seq![action] + actions)
    }
}

/// The events of an attempt in which the host does as it is asked, each time
/// reporting what it found.
pub open spec fn reports(
    request: LaunchRequestView,
    contents: StoreContents,
    found: Prerequisites,
    outcome: SpawnOutcome,
) -> Seq<EventView> {
    seq![
        EventView::Activate(request),
        EventView::StoreRead(contents),
        EventView::PrerequisitesChecked(found),
        EventView::SpawnFinished(outcome),
        EventView::HandedOver,
    ]
}

/// No transition skips a phase. A step leaves the phase as it is, moves to
/// the phase that follows it in the order, or, from a phase in which a step
/// of the attempt is under way, to failure.
pub proof fn transitions_follow_the_order(phase: PhaseView, event: EventView)
    ensures
        ({
            let next = transition(phase, event).0;
            ||| next == phase
            ||| !(next is Failed) && next.rank() == phase.rank() + 1
            ||| next is Failed && (phase is Resolving || phase is Configured
                || phase is SessionReady)
        }),
{
}

/// The attempt ends where it is over: a finished or failed orchestrator stays
/// as it is on every event, and asks nothing more of the host.
pub proof fn terminal_phases_are_final(phase: PhaseView, event: EventView)
    requires
        phase.is_terminal(),
    ensures
        transition(phase, event) == (phase, ActionView::Nothing),
{
}

/// An attempt never goes back: whatever the host reports, and however much of
/// it, the orchestrator ends in the phase it was in or in a later one. One
/// that has left the idle phase does not return to it.
pub proof fn an_attempt_never_goes_back(phase: PhaseView, events: Seq<EventView>)
    ensures
        run(phase, events).0.rank() >= phase.rank(),
        !(phase is Idle) ==> !(run(phase, events).0 is Idle),
    decreases events.len(),
{
    if events.len() > 0 {
        transitions_follow_the_order(phase, events[0]);
        an_attempt_never_goes_back(transition(phase, events[0]).0, events.drop_first());
    }
}

/// Nothing follows the end: whatever the host goes on to report to a finished
/// or failed orchestrator, the phase stays and no step is asked for.
pub proof fn nothing_follows_the_end(phase: PhaseView, events: Seq<EventView>)
    requires
        phase.is_terminal(),
    ensures
        run(phase, events).0 == phase,
        run(phase, events).1.len() == events.len(),
        forall|i: int|
            0 <= i < events.len() ==> #[trigger] run(phase, events).1[i] == ActionView::Nothing,
    decreases events.len(),
{
    if events.len() > 0 {
        terminal_phases_are_final(phase, events[0]);
        nothing_follows_the_end(phase, events.drop_first());
    }
}

/// At most one attempt is in flight: a request to launch is taken up by an
/// idle orchestrator only.
pub proof fn activation_is_guarded(phase: PhaseView, request: LaunchRequestView)
    ensures
        phase is Idle ==> transition(phase, EventView::Activate(request)).0 == PhaseView::Resolving(
            request,
        ),
        !(phase is Idle) ==> transition(phase, EventView::Activate(request)) == (
            phase,
            ActionView::Nothing,
        ),
{
}

/// Every failure is reported, and nothing else is: the host is asked to
/// report an error exactly on the step that moves the attempt to failure
/// with that error.
pub proof fn failures_are_reported(phase: PhaseView, event: EventView, error: PipelineError)
    ensures
        transition(phase, event).1 == ActionView::Report(error) <==> !(phase is Failed)
            && transition(phase, event).0 == PhaseView::Failed(error),
{
}

/// The steps run strictly in sequence. Where the host does as it is asked, an
/// attempt that succeeds passes through every phase and ends with the process
/// handed over; one that fails ends at the first failing step with its error
/// reported, and no later step is asked for.
pub proof fn attempt_runs_in_sequence(
    request: LaunchRequestView,
    contents: StoreContents,
    found: Prerequisites,
    outcome: SpawnOutcome,
)
    ensures
        ({
            let (last, actions) = run(PhaseView::Idle, reports(request, contents, found, outcome));
            let read = ActionView::ReadStore {
                base_dir: request.base_dir,
                version_id: request.version_id,
            };
            match configured(request, contents) {
                Err(error) => last == PhaseView::Failed(error) && actions == seq![
                    read,
                    ActionView::Report(error),
                    ActionView::Nothing,
                    ActionView::Nothing,
                    ActionView::Nothing,
                ],
                Ok(config) => {
                    let check = ActionView::CheckPrerequisites {
                        java_path: config.java_path,
                        working_dir: config.version.base_dir,
                    };
                    match session_of(config, found) {
                        Err(error) => last == PhaseView::Failed(error) && actions == seq![
                            read,
                            check,
                            ActionView::Report(error),
                            ActionView::Nothing,
                            ActionView::Nothing,
                        ],
                        Ok(session) => {
                            let spawn = ActionView::Spawn(session.parameters);
                            match handle_of(session, outcome) {
                                Err(error) => last == PhaseView::Failed(error) && actions == seq![
                                    read,
                                    check,
                                    spawn,
                                    ActionView::Report(error),
                                    ActionView::Nothing,
                                ],
                                Ok(handle) => last == PhaseView::Done && actions == seq![
                                    read,
                                    check,
                                    spawn,
                                    ActionView::TakeOver(handle),
                                    ActionView::ExitHost,
                                ],
                            }
                        },
                    }
                },
            }
        }),
        match attempt(request, contents, found, outcome) {
            Ok(_) => run(PhaseView::Idle, reports(request, contents, found, outcome)).0
                == PhaseView::Done,
            Err(error) => run(PhaseView::Idle, reports(request, contents, found, outcome)).0
                == PhaseView::Failed(error),
        },
{
    reveal_with_fuel(run, 6);
}

} // verus!
