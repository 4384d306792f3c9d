//! Runs of the save pipeline, and what holds of every run.
//!
//! A run is the pipeline fed with a sequence of events, whatever they are. The
//! laws below are stated over runs: that every run ends, that it releases its
//! resources once, that no attempt is made beyond its bound.

use vstd::prelude::*;
use crate::backoff::RetryPolicy;
use crate::error::{InteractionStep, SaveError};
use crate::extract::data_url_decoding;
use crate::launcher::candidate_port;
use crate::pipeline::{ActionModel, EventModel, Phase, SaveConfig, Stage, step_spec};

verus! {

/// What kind of action an action is, whatever it carries.
#[derive(Clone, Copy, Debug, PartialEq, Eq, Structural)]
pub enum ActionKind {
    /// Start the driver.
    SpawnDriver,
    /// Wait.
    Sleep,
    /// Open a session.
    OpenSession,
    /// Render the chart.
    RenderPage,
    /// Load the document.
    Navigate,
    /// Look for an element.
    Find,
    /// Click an element.
    Click,
    /// Read the link's target.
    ReadTarget,
    /// Write the image.
    WriteImage,
    /// Close the page handle.
    CloseHandle,
    /// Kill the driver.
    KillDriver,
    /// Return the result.
    Finish,
}

impl ActionModel {
    /// The kind of the action.
    pub open spec fn kind(self) -> ActionKind {
        match self {
            ActionModel::SpawnDriver { .. } => ActionKind::SpawnDriver,
            ActionModel::Sleep { .. } => ActionKind::Sleep,
            ActionModel::OpenSession { .. } => ActionKind::OpenSession,
            ActionModel::RenderPage => ActionKind::RenderPage,
            ActionModel::Navigate { .. } => ActionKind::Navigate,
            ActionModel::Find(_) => ActionKind::Find,
            ActionModel::Click => ActionKind::Click,
            ActionModel::ReadTarget => ActionKind::ReadTarget,
            ActionModel::WriteImage { .. } => ActionKind::WriteImage,
            ActionModel::CloseHandle => ActionKind::CloseHandle,
            ActionModel::KillDriver => ActionKind::KillDriver,
            ActionModel::Finish(_) => ActionKind::Finish,
        }
    }
}

/// The stage that the pipeline is in after it took `events`, one by one, from `start`.
pub open spec fn run(config: SaveConfig, start: Stage, events: Seq<EventModel>) -> Stage
    decreases events.len(),
{
    if events.len() == 0 {
        start
    } else {
        step_spec(config, run(config, start, events.drop_last()), events.last()).0
    }
}

/// The actions that the pipeline chose while it took `events`, one by one, from
/// `start`: one action for each event.
pub open spec fn actions(config: SaveConfig, start: Stage, events: Seq<EventModel>) -> Seq<
    ActionModel,
>
    decreases events.len(),
{
    if events.len() == 0 {
        Seq::empty()
    } else {
        actions(config, start, events.drop_last()).push(
            step_spec(config, run(config, start, events.drop_last()), events.last()).1,
        )
    }
}

/// How many of `actions` are of the given kind.
pub open spec fn count(actions: Seq<ActionModel>, kind: ActionKind) -> nat
    decreases actions.len(),
{
    if actions.len() == 0 {
        0
    } else {
        count(actions.drop_last(), kind) + if actions.last().kind() == kind {
            1nat
        } else {
            0nat
        }
    }
}

/// How many attempts a policy still allows after `failures` failed ones.
pub open spec fn tries_left(policy: RetryPolicy, failures: u8) -> nat {
    if failures < policy.max_attempts {
        (policy.max_attempts - failures) as nat
    } else {
        0
    }
}

/// A bound on the events that the pipeline can still take before it is closed.
pub open spec fn steps_left(config: SaveConfig, stage: Stage) -> nat {
    let polls = 2 * config.poll.max_attempts as nat;
    let sessions = 2 * config.connect.max_attempts as nat;
    match stage {
        Stage::Closed(_) => 0,
        Stage::KillingDriver(_) => 1,
        Stage::ClosingHandle(_) => 2,
        Stage::Writing => 3,
        Stage::ReadingTarget => 4,
        Stage::RelocatingLink => 5,
        Stage::ClickingLink => 6,
        Stage::FindingLink => 7,
        Stage::OpeningDisclosure => 8,
        Stage::FindingDisclosure { failures } => 9 + 2 * tries_left(config.poll, failures),
        Stage::FindBackoff { failures } => 10 + 2 * tries_left(config.poll, failures),
        Stage::Navigating => 10 + polls,
        Stage::Rendering => 11 + polls,
        Stage::Connecting { failures, .. } => 12 + polls + 2 * tries_left(config.connect, failures),
        Stage::ConnectBackoff { failures, .. } => 13 + polls + 2 * tries_left(
            config.connect,
            failures,
        ),
        Stage::Launching { failures, .. } => 13 + polls + sessions + 2 * tries_left(
            config.launch.retry,
            failures,
        ),
        Stage::LaunchBackoff { failures } => 14 + polls + sessions + 2 * tries_left(
            config.launch.retry,
            failures,
        ),
        Stage::Idle => 15 + polls + sessions + 2 * config.launch.retry.max_attempts as nat,
    }
}

/// The most events that a save operation takes before it is closed.
pub open spec fn step_bound(config: SaveConfig) -> nat {
    steps_left(config, Stage::Idle)
}

/// The place of a phase in the order of a save operation.
pub open spec fn phase_rank(phase: Phase) -> nat {
    match phase {
        Phase::Idle => 0,
        Phase::Launching => 1,
        Phase::Connecting => 2,
        Phase::Navigating => 3,
        Phase::Interacting => 4,
        Phase::Extracting => 5,
        Phase::Writing => 6,
        Phase::Closed => 7,
    }
}

/// Whether the pipeline is releasing its resources, or has released them.
pub open spec fn releasing(stage: Stage) -> bool {
    stage.phase() == Phase::Closed
}

/// The result that a stage of the closing phase carries.
pub open spec fn result_of(stage: Stage) -> Option<Result<(), SaveError>> {
    match stage {
        Stage::ClosingHandle(result) | Stage::KillingDriver(result) | Stage::Closed(result) => Some(
            result,
        ),
        _ => None,
    }
}

/// Every step brings the pipeline nearer to its end: the bound on the events
/// still to come falls with each event, until the pipeline is closed.
pub proof fn lemma_step_progress(config: SaveConfig, stage: Stage, event: EventModel)
    ensures
        !(stage is Closed) ==> steps_left(config, step_spec(config, stage, event).0) < steps_left(
            config,
            stage,
        ),
        stage is Closed ==> step_spec(config, stage, event).0 == stage,
{
}

/// A step stays in its phase, moves on to a later one, or begins the release.
/// The result, once one is set, is never changed.
pub proof fn lemma_step_order(config: SaveConfig, stage: Stage, event: EventModel)
    ensures
        phase_rank(stage.phase()) <= phase_rank(step_spec(config, stage, event).0.phase()),
        releasing(stage) ==> result_of(step_spec(config, stage, event).0) == result_of(stage),
{
}

/// Each failure names the phase in which it came: when a step begins the
/// release, the result it sets is the error of the phase that the pipeline was
/// in, or of the next phase where that one allows no attempt at all, and success
/// only where the image was written.
pub proof fn lemma_failure_names_phase(config: SaveConfig, stage: Stage, event: EventModel)
    requires
        !releasing(stage),
        releasing(step_spec(config, stage, event).0),
    ensures
        step_spec(config, stage, event) == (
            Stage::ClosingHandle(result_of(step_spec(config, stage, event).0)->0),
            ActionModel::CloseHandle,
        ),
        ({
            let result = result_of(step_spec(config, stage, event).0)->0;
            match stage.phase() {
                Phase::Idle => result == Err::<(), SaveError>(SaveError::LaunchFailure),
                Phase::Launching => result == Err::<(), SaveError>(SaveError::LaunchFailure) || (
                config.connect.max_attempts == 0 && result == Err::<(), SaveError>(
                    SaveError::ConnectionFailure,
                )),
                Phase::Connecting => result == Err::<(), SaveError>(SaveError::ConnectionFailure),
                Phase::Navigating => result == Err::<(), SaveError>(SaveError::IoFailure) || result
                    == Err::<(), SaveError>(
                    SaveError::InteractionFailure(InteractionStep::Navigate),
                ) || (config.poll.max_attempts == 0 && result == Err::<(), SaveError>(
                    SaveError::InteractionFailure(InteractionStep::FindDisclosure),
                )),
                Phase::Interacting => result is Err && result->Err_0 is InteractionFailure
                    && result->Err_0->InteractionFailure_0 != InteractionStep::Navigate
                    && result->Err_0->InteractionFailure_0 != InteractionStep::ReadTarget,
                Phase::Extracting => result == Err::<(), SaveError>(
                    SaveError::InteractionFailure(InteractionStep::ReadTarget),
                ) || (result is Err && result->Err_0 is DecodeFailure),
                Phase::Writing => result == Ok::<(), SaveError>(()) || result == Err::<
                    (),
                    SaveError,
                >(SaveError::IoFailure),
                Phase::Closed => false,
            }
        }),
{
}

/// A run in two parts is the run of the second part from where the first ended.
pub proof fn lemma_run_split(
    config: SaveConfig,
    start: Stage,
    first: Seq<EventModel>,
    second: Seq<EventModel>,
)
    ensures
        run(config, start, first + second) == run(config, run(config, start, first), second),
        actions(config, start, first + second) == actions(config, start, first) + actions(
            config,
            run(config, start, first),
            second,
        ),
    decreases second.len(),
{
    if second.len() == 0 {
        assert(first + second =~= first);
        assert(actions(config, start, first) + Seq::<ActionModel>::empty() =~= actions(
            config,
            start,
            first,
        ));
    } else {
        lemma_run_split(config, start, first, second.drop_last());
        assert((first + second).drop_last() =~= first + second.drop_last());
        assert((first + second).last() == second.last());
        let middle = run(config, start, first);
        let chosen = step_spec(config, run(config, middle, second.drop_last()), second.last()).1;
        assert((actions(config, start, first) + actions(config, middle, second.drop_last())).push(
            chosen,
        ) =~= actions(config, start, first) + actions(config, middle, second.drop_last()).push(
            chosen,
        ));
    }
}

/// One action is chosen for each event.
pub proof fn lemma_actions_len(config: SaveConfig, start: Stage, events: Seq<EventModel>)
    ensures
        actions(config, start, events).len() == events.len(),
    decreases events.len(),
{
    if events.len() > 0 {
        lemma_actions_len(config, start, events.drop_last());
    }
}

/// How a run, and a count over its actions, grow with the last event.
proof fn lemma_last_step(
    config: SaveConfig,
    start: Stage,
    events: Seq<EventModel>,
    kind: ActionKind,
)
    requires
        events.len() > 0,
    ensures
        ({
            let before = run(config, start, events.drop_last());
            let next = step_spec(config, before, events.last());
            &&& run(config, start, events) == next.0
            &&& count(actions(config, start, events), kind) == count(
                actions(config, start, events.drop_last()),
                kind,
            ) + (if next.1.kind() == kind {
                1nat
            } else {
                0nat
            })
        }),
{
    let acts = actions(config, start, events);
    assert(acts.drop_last() =~= actions(config, start, events.drop_last()));
}

/// No save operation hangs: whatever the events are, the pipeline is closed once
/// it has taken as many events as its bound says, and it stays closed.
pub proof fn lemma_run_ends(config: SaveConfig, start: Stage, events: Seq<EventModel>)
    ensures
        run(config, start, events) is Closed || steps_left(config, run(config, start, events))
            + events.len() <= steps_left(config, start),
        events.len() >= steps_left(config, start) ==> run(config, start, events) is Closed,
    decreases events.len(),
{
    if events.len() > 0 {
        lemma_run_ends(config, start, events.drop_last());
        lemma_step_progress(config, run(config, start, events.drop_last()), events.last());
    }
}

/// How often the page handle was closed and the driver was killed, by the stage
/// that a run has reached: not before the release begins, and once each in its
/// course, the handle first.
pub open spec fn released(stage: Stage, closed: nat, killed: nat) -> bool {
    match stage {
        Stage::ClosingHandle(_) => closed == 1 && killed == 0,
        Stage::KillingDriver(_) | Stage::Closed(_) => closed == 1 && killed == 1,
        _ => closed == 0 && killed == 0,
    }
}

/// A step keeps the count of the releasing actions as the stage says.
proof fn lemma_released_step(
    config: SaveConfig,
    stage: Stage,
    event: EventModel,
    closed: nat,
    killed: nat,
)
    requires
        released(stage, closed, killed),
    ensures
        ({
            let next = step_spec(config, stage, event);
            released(
                next.0,
                closed + (if next.1.kind() == ActionKind::CloseHandle {
                    1nat
                } else {
                    0nat
                }),
                killed + (if next.1.kind() == ActionKind::KillDriver {
                    1nat
                } else {
                    0nat
                }),
            )
        }),
{
}

/// Every run releases its resources once: the page handle is closed once and
/// the driver is killed once, in that order, whichever step failed before, and
/// nothing is released before the release begins.
pub proof fn lemma_released_once(config: SaveConfig, events: Seq<EventModel>)
    ensures
        released(
            run(config, Stage::Idle, events),
            count(actions(config, Stage::Idle, events), ActionKind::CloseHandle),
            count(actions(config, Stage::Idle, events), ActionKind::KillDriver),
        ),
    decreases events.len(),
{
    if events.len() > 0 {
        let before = events.drop_last();
        lemma_released_once(config, before);
        lemma_last_step(config, Stage::Idle, events, ActionKind::CloseHandle);
        lemma_last_step(config, Stage::Idle, events, ActionKind::KillDriver);
        lemma_released_step(
            config,
            run(config, Stage::Idle, before),
            events.last(),
            count(actions(config, Stage::Idle, before), ActionKind::CloseHandle),
            count(actions(config, Stage::Idle, before), ActionKind::KillDriver),
        );
    }
}

/// A save operation that has taken as many events as its bound says is closed,
/// and has by then closed the page handle once and killed the driver once.
pub proof fn lemma_teardown_always_runs(config: SaveConfig, events: Seq<EventModel>)
    requires
        events.len() >= step_bound(config),
    ensures
        run(config, Stage::Idle, events) is Closed,
        count(actions(config, Stage::Idle, events), ActionKind::CloseHandle) == 1,
        count(actions(config, Stage::Idle, events), ActionKind::KillDriver) == 1,
{
    lemma_run_ends(config, Stage::Idle, events);
    lemma_released_once(config, events);
}

/// The launcher and the session client keep to their bounds: in any run the
/// driver is started at most as often as the launcher's policy allows, and a
/// session is asked for at most as often as the session client's policy allows.
pub proof fn lemma_attempts_bounded(config: SaveConfig, events: Seq<EventModel>)
    ensures
        count(actions(config, Stage::Idle, events), ActionKind::SpawnDriver)
            <= config.launch.retry.max_attempts,
        count(actions(config, Stage::Idle, events), ActionKind::OpenSession)
            <= config.connect.max_attempts,
{
    lemma_attempts_counted(config, events);
}

/// How often the driver was started and a session was asked for, by the stage
/// that a run has reached: each failed attempt and the one under way count once,
/// and neither count exceeds its bound.
pub open spec fn attempted(config: SaveConfig, stage: Stage, spawned: nat, asked: nat) -> bool {
    match stage {
        Stage::Idle => spawned == 0 && asked == 0,
        Stage::Launching { failures, .. } => spawned == failures + 1 && asked == 0 && failures
            < config.launch.retry.max_attempts,
        Stage::LaunchBackoff { failures } => spawned == failures && asked == 0 && failures
            < config.launch.retry.max_attempts,
        Stage::Connecting { failures, .. } => spawned <= config.launch.retry.max_attempts && asked
            == failures + 1 && failures < config.connect.max_attempts,
        Stage::ConnectBackoff { failures, .. } => spawned <= config.launch.retry.max_attempts
            && asked == failures && failures < config.connect.max_attempts,
        _ => spawned <= config.launch.retry.max_attempts && asked <= config.connect.max_attempts,
    }
}

/// A step keeps the count of the attempts as the stage says.
proof fn lemma_attempted_step(
    config: SaveConfig,
    stage: Stage,
    event: EventModel,
    spawned: nat,
    asked: nat,
)
    requires
        attempted(config, stage, spawned, asked),
    ensures
        ({
            let next = step_spec(config, stage, event);
            attempted(
                config,
                next.0,
                spawned + (if next.1.kind() == ActionKind::SpawnDriver {
                    1nat
                } else {
                    0nat
                }),
                asked + (if next.1.kind() == ActionKind::OpenSession {
                    1nat
                } else {
                    0nat
                }),
            )
        }),
{
}

/// In any run the attempts are counted by the stage that the run has reached.
pub proof fn lemma_attempts_counted(config: SaveConfig, events: Seq<EventModel>)
    ensures
        attempted(
            config,
            run(config, Stage::Idle, events),
            count(actions(config, Stage::Idle, events), ActionKind::SpawnDriver),
            count(actions(config, Stage::Idle, events), ActionKind::OpenSession),
        ),
    decreases events.len(),
{
    if events.len() > 0 {
        let before = events.drop_last();
        lemma_attempts_counted(config, before);
        lemma_last_step(config, Stage::Idle, events, ActionKind::SpawnDriver);
        lemma_last_step(config, Stage::Idle, events, ActionKind::OpenSession);
        lemma_attempted_step(
            config,
            run(config, Stage::Idle, before),
            events.last(),
            count(actions(config, Stage::Idle, before), ActionKind::SpawnDriver),
            count(actions(config, Stage::Idle, before), ActionKind::OpenSession),
        );
    }
}

/// Whether the ports that a stage holds are the launcher's: the port of an
/// attempt to start the driver is the candidate port of that attempt, and the
/// port at which a session is asked for is the port of an attempt that the
/// launcher made.
pub open spec fn ports_kept(config: SaveConfig, stage: Stage) -> bool {
    match stage {
        Stage::Launching { failures, port } => failures < config.launch.retry.max_attempts
            && candidate_port(config.launch.start_port, failures) == Some(port),
        Stage::Connecting { port, .. } | Stage::ConnectBackoff { port, .. } => exists|tried: u8|
            tried < config.launch.retry.max_attempts && #[trigger] candidate_port(
                config.launch.start_port,
                tried,
            ) == Some(port),
        _ => true,
    }
}

/// A step keeps the ports as the launcher chose them.
proof fn lemma_ports_step(config: SaveConfig, stage: Stage, event: EventModel)
    requires
        ports_kept(config, stage),
    ensures
        ports_kept(config, step_spec(config, stage, event).0),
        (step_spec(config, stage, event).1 matches ActionModel::OpenSession { port }
            ==> exists|tried: u8|
            tried < config.launch.retry.max_attempts && #[trigger] candidate_port(
                config.launch.start_port,
                tried,
            ) == Some(port)),
{
}

/// The session is asked for where the driver was started: in any run, the port
/// of each attempt to start the driver is the candidate port of that attempt,
/// and the port of each request for a session is the port of the attempt at
/// which the driver started.
pub proof fn lemma_ports_kept(config: SaveConfig, events: Seq<EventModel>)
    ensures
        ports_kept(config, run(config, Stage::Idle, events)),
    decreases events.len(),
{
    if events.len() > 0 {
        lemma_ports_kept(config, events.drop_last());
        lemma_ports_step(config, run(config, Stage::Idle, events.drop_last()), events.last());
    }
}

/// Whether, in the run of `events`, no attempt to start the driver succeeds:
/// whenever an event answers such an attempt, it is not `Done`.
pub open spec fn spawn_always_fails(config: SaveConfig, events: Seq<EventModel>) -> bool {
    forall|i: int|
        0 <= i < events.len() && run(config, Stage::Idle, events.take(i)) is Launching ==> !(
        #[trigger] events[i] is Done)
}

/// Whether the launcher has a port for each attempt that its policy allows.
pub open spec fn ports_exist(config: SaveConfig) -> bool {
    forall|failures: u8|
        failures < config.launch.retry.max_attempts ==> (#[trigger] candidate_port(
            config.launch.start_port,
            failures,
        )) is Some
}

/// What holds of a run in which the driver never starts, of the stage it has
/// reached and of how often the driver was started and a session asked for.
pub open spec fn launch_failing(config: SaveConfig, stage: Stage, spawned: nat, asked: nat) -> bool {
    &&& asked == 0
    &&& match stage {
        Stage::Idle => spawned == 0,
        Stage::Launching { failures, .. } => spawned == failures + 1 && failures
            < config.launch.retry.max_attempts,
        Stage::LaunchBackoff { failures } => spawned == failures && failures
            < config.launch.retry.max_attempts,
        Stage::ClosingHandle(result) | Stage::KillingDriver(result) | Stage::Closed(result) => {
            &&& result == Err::<(), SaveError>(SaveError::LaunchFailure)
            &&& spawned <= config.launch.retry.max_attempts
            &&& ports_exist(config) ==> spawned == config.launch.retry.max_attempts
        },
        _ => false,
    }
}

/// A step of a run in which the driver never starts keeps the run as such a run is.
proof fn lemma_launch_failing_step(
    config: SaveConfig,
    stage: Stage,
    event: EventModel,
    spawned: nat,
    asked: nat,
)
    requires
        launch_failing(config, stage, spawned, asked),
        stage is Launching ==> !(event is Done),
    ensures
        ({
            let next = step_spec(config, stage, event);
            launch_failing(
                config,
                next.0,
                spawned + (if next.1.kind() == ActionKind::SpawnDriver {
                    1nat
                } else {
                    0nat
                }),
                asked + (if next.1.kind() == ActionKind::OpenSession {
                    1nat
                } else {
                    0nat
                }),
            )
        }),
{
    match stage {
        Stage::Idle => {
            if config.launch.retry.allows(0) {
                assert(ports_exist(config) ==> candidate_port(config.launch.start_port, 0) is Some);
            }
        },
        Stage::LaunchBackoff { failures } => {
            assert(ports_exist(config) ==> candidate_port(config.launch.start_port, failures)
                is Some);
        },
        _ => {},
    }
}

/// With a driver that never starts, the operation fails with `LaunchFailure`:
/// the run never leaves the launcher but to release and close, no session is
/// asked for, and once the release has begun the driver was started exactly as
/// often as the policy allows, where there is a port for each attempt.
pub proof fn lemma_launch_failure(config: SaveConfig, events: Seq<EventModel>)
    requires
        spawn_always_fails(config, events),
    ensures
        launch_failing(
            config,
            run(config, Stage::Idle, events),
            count(actions(config, Stage::Idle, events), ActionKind::SpawnDriver),
            count(actions(config, Stage::Idle, events), ActionKind::OpenSession),
        ),
    decreases events.len(),
{
    if events.len() > 0 {
        let before = events.drop_last();
        assert forall|i: int|
            0 <= i < before.len() && run(config, Stage::Idle, before.take(i)) is Launching implies !(
            #[trigger] before[i] is Done) by {
            assert(before.take(i) =~= events.take(i));
            assert(before[i] == events[i]);
        }
        lemma_launch_failure(config, before);
        assert(events.take(events.len() - 1) =~= before);
        assert(run(config, Stage::Idle, before) is Launching ==> !(events[events.len() - 1]
            is Done));
        lemma_last_step(config, Stage::Idle, events, ActionKind::SpawnDriver);
        lemma_last_step(config, Stage::Idle, events, ActionKind::OpenSession);
        lemma_launch_failing_step(
            config,
            run(config, Stage::Idle, before),
            events.last(),
            count(actions(config, Stage::Idle, before), ActionKind::SpawnDriver),
            count(actions(config, Stage::Idle, before), ActionKind::OpenSession),
        );
    }
}

/// With a driver that never starts, the operation is over after as many events
/// as the bound says, and its result is `LaunchFailure`.
pub proof fn lemma_launch_failure_ends(config: SaveConfig, events: Seq<EventModel>)
    requires
        spawn_always_fails(config, events),
        events.len() >= step_bound(config),
    ensures
        run(config, Stage::Idle, events) == Stage::Closed(Err(SaveError::LaunchFailure)),
        count(actions(config, Stage::Idle, events), ActionKind::SpawnDriver)
            <= config.launch.retry.max_attempts,
        count(actions(config, Stage::Idle, events), ActionKind::KillDriver) == 1,
{
    lemma_run_ends(config, Stage::Idle, events);
    lemma_launch_failure(config, events);
    lemma_attempts_bounded(config, events);
    lemma_released_once(config, events);
}

/// The events of `failures` attempts that fail, each followed by the end of the
/// wait that follows it.
pub open spec fn refusals(failures: nat) -> Seq<EventModel>
    decreases failures,
{
    if failures == 0 {
        Seq::empty()
    } else {
        refusals((failures - 1) as nat).push(EventModel::Failed).push(EventModel::Done)
    }
}

/// A session that is refused `failures` times is asked for again each time, as
/// long as the policy allows one more attempt: after the refusals the attempt
/// number `failures + 1` is under way. Each refusal was answered by the wait that
/// the policy gives and then by one more request to the driver at the same port.
pub proof fn lemma_session_retried(config: SaveConfig, port: u64, failures: nat)
    requires
        failures < config.connect.max_attempts,
    ensures
        run(config, Stage::Connecting { failures: 0, port }, refusals(failures))
            == (Stage::Connecting { failures: failures as u8, port }),
        actions(config, Stage::Connecting { failures: 0, port }, refusals(failures)).len() == 2
            * failures,
        forall|i: int|
            0 <= i < failures ==> (#[trigger] actions(
                config,
                Stage::Connecting { failures: 0, port },
                refusals(failures),
            )[2 * i]) == (ActionModel::Sleep { millis: config.connect.backoff.delay(i as u8) }),
        forall|i: int|
            0 <= i < failures ==> (#[trigger] actions(
                config,
                Stage::Connecting { failures: 0, port },
                refusals(failures),
            )[2 * i + 1]) == (ActionModel::OpenSession { port }),
        count(
            actions(config, Stage::Connecting { failures: 0, port }, refusals(failures)),
            ActionKind::OpenSession,
        ) == failures,
    decreases failures,
{
    let start = Stage::Connecting { failures: 0, port };
    if failures > 0 {
        let earlier = refusals((failures - 1) as nat);
        lemma_session_retried(config, port, (failures - 1) as nat);
        let refused = earlier.push(EventModel::Failed);
        assert(refused.drop_last() =~= earlier);
        assert(refusals(failures).drop_last() =~= refused);
        lemma_last_step(config, start, refused, ActionKind::OpenSession);
        lemma_last_step(config, start, refusals(failures), ActionKind::OpenSession);
        assert(run(config, start, refused) == (Stage::ConnectBackoff {
            failures: failures as u8,
            port,
        }));
        let before = actions(config, start, earlier);
        let waits = actions(config, start, refused);
        let acts = actions(config, start, refusals(failures));
        assert(waits == before.push(
            ActionModel::Sleep { millis: config.connect.backoff.delay((failures - 1) as u8) },
        ));
        assert(acts == waits.push(ActionModel::OpenSession { port }));
        assert forall|i: int| 0 <= i < failures implies (#[trigger] acts[2 * i])
            == (ActionModel::Sleep { millis: config.connect.backoff.delay(i as u8) }) by {
            if i < failures - 1 {
                assert(acts[2 * i] == before[2 * i]);
            }
        }
        assert forall|i: int| 0 <= i < failures implies (#[trigger] acts[2 * i + 1])
            == (ActionModel::OpenSession { port }) by {
            if i < failures - 1 {
                assert(acts[2 * i + 1] == before[2 * i + 1]);
            }
        }
    }
}

/// A driver that is ready only at attempt number `failures + 1`, within the
/// bound, gets its session at that attempt: after the refusals and the one
/// success the chart is being rendered, and nothing has failed.
pub proof fn lemma_session_opens(config: SaveConfig, port: u64, failures: nat)
    requires
        failures < config.connect.max_attempts,
    ensures
        run(
            config,
            Stage::Connecting { failures: 0, port },
            refusals(failures).push(EventModel::Done),
        ) == Stage::Rendering,
        actions(
            config,
            Stage::Connecting { failures: 0, port },
            refusals(failures).push(EventModel::Done),
        ).last() == ActionModel::RenderPage,
        count(
            actions(
                config,
                Stage::Connecting { failures: 0, port },
                refusals(failures).push(EventModel::Done),
            ),
            ActionKind::OpenSession,
        ) == failures,
{
    let start = Stage::Connecting { failures: 0, port };
    let events = refusals(failures).push(EventModel::Done);
    lemma_session_retried(config, port, failures);
    assert(events.drop_last() =~= refusals(failures));
    assert(actions(config, start, events).drop_last() =~= actions(
        config,
        start,
        refusals(failures),
    ));
}

/// From the start: where the driver starts at its first attempt, which binds the
/// starting port, and is ready for a session only at attempt number
/// `failures + 1`, within the bound, the session opens at that attempt and the
/// chart is rendered next.
pub proof fn lemma_session_opens_after_launch(config: SaveConfig, failures: nat)
    requires
        config.launch.retry.allows(0),
        failures < config.connect.max_attempts,
    ensures
        run(
            config,
            Stage::Idle,
            seq![EventModel::Start, EventModel::Done] + refusals(failures).push(EventModel::Done),
        ) == Stage::Rendering,
        run(config, Stage::Idle, seq![EventModel::Start]) == (Stage::Launching {
            failures: 0,
            port: config.launch.start_port,
        }),
        run(config, Stage::Idle, seq![EventModel::Start, EventModel::Done]) == (Stage::Connecting {
            failures: 0,
            port: config.launch.start_port,
        }),
{
    let port = config.launch.start_port;
    let launch = seq![EventModel::Start, EventModel::Done];
    let first = seq![EventModel::Start];
    assert(launch.drop_last() =~= first);
    assert(first.drop_last() =~= Seq::<EventModel>::empty());
    assert(run(config, Stage::Idle, first.drop_last()) == Stage::Idle);
    assert(first.last() == EventModel::Start);
    assert(run(config, Stage::Idle, first) == (Stage::Launching { failures: 0, port }));
    assert(launch.last() == EventModel::Done);
    assert(run(config, Stage::Idle, launch) == (Stage::Connecting { failures: 0, port }));
    lemma_run_split(config, Stage::Idle, launch, refusals(failures).push(EventModel::Done));
    lemma_session_opens(config, port, failures);
}

/// How often the image was written, by the stage that a run has reached: not
/// before the writing phase, once when the image is being written, once where
/// the run succeeds, and not at all where it fails with anything but an I/O
/// failure.
pub open spec fn written(stage: Stage, writes: nat) -> bool {
    match stage {
        Stage::Writing => writes == 1,
        Stage::ClosingHandle(result) | Stage::KillingDriver(result) | Stage::Closed(result) => {
            &&& writes <= 1
            &&& result is Ok ==> writes == 1
            &&& result is Err && result->Err_0 != SaveError::IoFailure ==> writes == 0
        },
        _ => writes == 0,
    }
}

/// A step keeps the count of the writing actions as the stage says.
proof fn lemma_written_step(config: SaveConfig, stage: Stage, event: EventModel, writes: nat)
    requires
        written(stage, writes),
    ensures
        ({
            let next = step_spec(config, stage, event);
            written(
                next.0,
                writes + (if next.1.kind() == ActionKind::WriteImage {
                    1nat
                } else {
                    0nat
                }),
            )
        }),
{
}

/// The image is written at most once, and only as the last step before the
/// release: nothing is written before the writing phase, a run that succeeds has
/// written once, and a run that fails with anything but an I/O failure has
/// written nothing.
pub proof fn lemma_written_once(config: SaveConfig, events: Seq<EventModel>)
    ensures
        written(
            run(config, Stage::Idle, events),
            count(actions(config, Stage::Idle, events), ActionKind::WriteImage),
        ),
    decreases events.len(),
{
    if events.len() > 0 {
        let before = events.drop_last();
        lemma_written_once(config, before);
        lemma_last_step(config, Stage::Idle, events, ActionKind::WriteImage);
        lemma_written_step(
            config,
            run(config, Stage::Idle, before),
            events.last(),
            count(actions(config, Stage::Idle, before), ActionKind::WriteImage),
        );
    }
}

/// What is written is what was decoded: when the target of the export link
/// arrives and decodes to `bytes`, the next action writes exactly `bytes`; when it
/// does not decode, the release begins with the decode failure and nothing is
/// written.
pub proof fn lemma_written_bytes(config: SaveConfig, href: Seq<char>)
    ensures
        (data_url_decoding(href) matches Ok(bytes) ==> step_spec(
            config,
            Stage::ReadingTarget,
            EventModel::Text(href),
        ) == (Stage::Writing, ActionModel::WriteImage { bytes })),
        (data_url_decoding(href) matches Err(fault) ==> step_spec(
            config,
            Stage::ReadingTarget,
            EventModel::Text(href),
        ) == (
            Stage::ClosingHandle(Err(SaveError::DecodeFailure(fault))),
            ActionModel::CloseHandle,
        )),
{
}

/// The image is written only when it was decoded: a step chooses to write only
/// when the target of the export link arrives and decodes, and then it writes
/// the decoded bytes. No other stage and no other event lead to a write.
pub proof fn lemma_write_chosen(config: SaveConfig, stage: Stage, event: EventModel)
    ensures
        step_spec(config, stage, event).1 is WriteImage <==> stage is ReadingTarget && event
            is Text && data_url_decoding(event->Text_0) is Ok,
        step_spec(config, stage, event).1 is WriteImage ==> step_spec(config, stage, event) == (
            Stage::Writing,
            ActionModel::WriteImage { bytes: data_url_decoding(event->Text_0)->Ok_0 },
        ),
        step_spec(config, stage, event).0 is Writing <==> step_spec(config, stage, event).1
            is WriteImage,
{
}

/// Whether the run of `events` has at some point been writing the image.
pub open spec fn reached_writing(config: SaveConfig, events: Seq<EventModel>) -> bool
    decreases events.len(),
{
    if events.len() == 0 {
        false
    } else {
        reached_writing(config, events.drop_last()) || run(config, Stage::Idle, events) is Writing
    }
}

/// A run has written the image exactly if it has reached the writing stage: a
/// run that fails earlier, while the chart is rendered or later, has written
/// nothing, whatever the error is called.
pub proof fn lemma_written_if_reached(config: SaveConfig, events: Seq<EventModel>)
    ensures
        count(actions(config, Stage::Idle, events), ActionKind::WriteImage) == (if reached_writing(
            config,
            events,
        ) {
            1nat
        } else {
            0nat
        }),
        phase_rank(run(config, Stage::Idle, events).phase()) < phase_rank(Phase::Writing)
            ==> !reached_writing(config, events),
        run(config, Stage::Idle, events) is Writing ==> reached_writing(config, events),
    decreases events.len(),
{
    if events.len() > 0 {
        let before = events.drop_last();
        lemma_written_if_reached(config, before);
        lemma_last_step(config, Stage::Idle, events, ActionKind::WriteImage);
        lemma_write_chosen(config, run(config, Stage::Idle, before), events.last());
        lemma_step_order(config, run(config, Stage::Idle, before), events.last());
    }
}

/// A failure before the writing phase leaves no image behind: where a step
/// begins the release from a stage before the writing phase, the run has
/// written nothing.
pub proof fn lemma_failure_before_writing(config: SaveConfig, events: Seq<EventModel>)
    requires
        events.len() > 0,
        phase_rank(run(config, Stage::Idle, events.drop_last()).phase()) < phase_rank(
            Phase::Writing,
        ),
        releasing(run(config, Stage::Idle, events)),
    ensures
        count(actions(config, Stage::Idle, events), ActionKind::WriteImage) == 0,
{
    lemma_written_once(config, events.drop_last());
    lemma_last_step(config, Stage::Idle, events, ActionKind::WriteImage);
}

} // verus!
