//! The supervisor of hardware sessions, as a state machine.
//!
//! It opens the FIFO connection, runs a session, and after the session
//! either closes the connection and resets the FIFOs for the next controller
//! or, for a recalibration pause, follows the handshake with `gc`: it
//! removes its ready file, closes the session's connection, waits for the
//! node-idle acknowledgement, sleeps for the pause, resets the FIFOs,
//! recreates its ready file, and releases the pause flag. The application
//! performs each action and reports its outcome.
use vstd::prelude::*;
use crate::workflow::SessionOutcome;

verus! {

/// Delay before retrying after the FIFOs could not be reset or opened, in
/// milliseconds.
pub const SESSION_RETRY_DELAY_MS: u64 = 500;
/// Delay between two sessions, in milliseconds.
pub const SESSION_RESTART_DELAY_MS: u64 = 250;

/// What follows the closing of a session's FIFO connection.
#[derive(Debug, Clone, Copy, PartialEq, Eq, Structural)]
pub enum AfterClose {
    /// The session ended without a pause: sleep, then reset the FIFOs.
    Restart,
    /// The recalibration has begun: wait for the idle acknowledgement.
    AwaitNodeIdle { duration_ms: u64 },
    /// The recalibration could not begin: release the pause flag and stop.
    ReleaseAndStop,
}

/// Where the supervisor stands; each stage has one pending action.
#[derive(Debug, Clone, Copy, PartialEq, Eq, Structural)]
pub enum SupervisorStage {
    /// Recreate the FIFOs before the next connection.
    ResetFifos,
    /// Open the FIFO connection for a session.
    OpenConnection,
    /// Run a hardware session.
    RunSession,
    /// Close the FIFO connection of the session that ended.
    CloseConnection { after: AfterClose },
    /// Remove the stale idle acknowledgement and the ready file.
    BeginRecalibration { duration_ms: u64 },
    /// Wait for the idle acknowledgement of `gc`.
    WaitNodeIdle { duration_ms: u64 },
    /// Sleep for the pause.
    PauseSleep { duration_ms: u64 },
    /// Recreate the FIFOs after the pause.
    ResetAfterPause,
    /// Recreate the ready file.
    CreateReady,
    /// Release the pause flag, then stop (`exit`) or go on.
    CompletePause { exit: bool },
    /// Sleep before retrying to reset or open the FIFOs.
    RetrySleep,
    /// Sleep before the next session, then reset the FIFOs or not.
    RestartSleep { reset_required: bool },
    /// The supervisor has stopped.
    Stopped,
}

/// An action for the application to perform.
#[derive(Debug, Clone, Copy, PartialEq, Eq, Structural)]
pub enum SupervisorAction {
    ResetFifos,
    OpenConnection,
    RunSession,
    CloseConnection,
    BeginRecalibration,
    WaitNodeIdle,
    /// Sleep for the given number of milliseconds.
    Sleep { ms: u64 },
    CreateReady,
    CompletePause,
    Stop,
}

/// How opening the FIFO connection went.
#[derive(Debug, Clone, Copy, PartialEq, Eq, Structural)]
pub enum OpenOutcome {
    Opened,
    /// A FIFO could not be opened.
    OpenFailed,
    /// The writers could not take the FIFOs.
    InitializeFailed,
}

/// The outcome of an action.
#[derive(Debug, Clone, Copy, PartialEq, Eq, Structural)]
pub enum SupervisorEvent {
    FifosReset { ok: bool },
    ConnectionOpened { outcome: OpenOutcome },
    SessionEnded { outcome: SessionOutcome },
    ConnectionClosed,
    RecalibrationBegun { ok: bool },
    NodeIdle { ok: bool },
    Slept,
    ReadyCreated { ok: bool },
    PauseCompleted,
}

/// The action that a stage waits for.
pub open spec fn supervisor_action(stage: SupervisorStage) -> SupervisorAction {
    match stage {
        SupervisorStage::ResetFifos => SupervisorAction::ResetFifos,
        SupervisorStage::OpenConnection => SupervisorAction::OpenConnection,
        SupervisorStage::RunSession => SupervisorAction::RunSession,
        SupervisorStage::CloseConnection { .. } => SupervisorAction::CloseConnection,
        SupervisorStage::BeginRecalibration { .. } => SupervisorAction::BeginRecalibration,
        SupervisorStage::WaitNodeIdle { .. } => SupervisorAction::WaitNodeIdle,
        SupervisorStage::PauseSleep { duration_ms } => SupervisorAction::Sleep { ms: duration_ms },
        SupervisorStage::ResetAfterPause => SupervisorAction::ResetFifos,
        SupervisorStage::CreateReady => SupervisorAction::CreateReady,
        SupervisorStage::CompletePause { .. } => SupervisorAction::CompletePause,
        SupervisorStage::RetrySleep => SupervisorAction::Sleep { ms: SESSION_RETRY_DELAY_MS },
        SupervisorStage::RestartSleep { .. } => SupervisorAction::Sleep { ms: SESSION_RESTART_DELAY_MS },
        SupervisorStage::Stopped => SupervisorAction::Stop,
    }
}

/// The stage that follows the closing of a connection.
pub open spec fn after_close(after: AfterClose) -> SupervisorStage {
    match after {
        AfterClose::Restart => SupervisorStage::RestartSleep { reset_required: true },
        AfterClose::AwaitNodeIdle { duration_ms } => SupervisorStage::WaitNodeIdle { duration_ms },
        AfterClose::ReleaseAndStop => SupervisorStage::CompletePause { exit: true },
    }
}

/// The stage after an event. An event that does not answer the pending
/// action leaves the stage as it is.
pub open spec fn next_supervisor_stage(stage: SupervisorStage, e: SupervisorEvent) -> SupervisorStage {
    match (stage, e) {
        (SupervisorStage::ResetFifos, SupervisorEvent::FifosReset { ok }) => if ok {
            SupervisorStage::OpenConnection
        } else {
            SupervisorStage::RetrySleep
        },
        (SupervisorStage::OpenConnection, SupervisorEvent::ConnectionOpened { outcome }) => match outcome {
            OpenOutcome::Opened => SupervisorStage::RunSession,
            OpenOutcome::OpenFailed => SupervisorStage::RetrySleep,
            OpenOutcome::InitializeFailed => SupervisorStage::Stopped,
        },
        (SupervisorStage::RunSession, SupervisorEvent::SessionEnded { outcome }) => match outcome {
            SessionOutcome::PauseRequested { duration_ms } => SupervisorStage::BeginRecalibration { duration_ms },
            _ => SupervisorStage::CloseConnection { after: AfterClose::Restart },
        },
        (SupervisorStage::BeginRecalibration { duration_ms }, SupervisorEvent::RecalibrationBegun { ok }) => if ok {
            SupervisorStage::CloseConnection { after: AfterClose::AwaitNodeIdle { duration_ms } }
        } else {
            SupervisorStage::CloseConnection { after: AfterClose::ReleaseAndStop }
        },
        (SupervisorStage::CloseConnection { after }, SupervisorEvent::ConnectionClosed) => after_close(after),
        (SupervisorStage::WaitNodeIdle { duration_ms }, SupervisorEvent::NodeIdle { ok }) => if ok {
            SupervisorStage::PauseSleep { duration_ms }
        } else {
            SupervisorStage::CompletePause { exit: true }
        },
        (SupervisorStage::PauseSleep { .. }, SupervisorEvent::Slept) => SupervisorStage::ResetAfterPause,
        (SupervisorStage::ResetAfterPause, SupervisorEvent::FifosReset { ok }) => if ok {
            SupervisorStage::CreateReady
        } else {
            SupervisorStage::CompletePause { exit: true }
        },
        (SupervisorStage::CreateReady, SupervisorEvent::ReadyCreated { ok }) => SupervisorStage::CompletePause {
            exit: !ok,
        },
        (SupervisorStage::CompletePause { exit }, SupervisorEvent::PauseCompleted) => if exit {
            SupervisorStage::Stopped
        } else {
            SupervisorStage::RestartSleep { reset_required: false }
        },
        (SupervisorStage::RetrySleep, SupervisorEvent::Slept) => SupervisorStage::ResetFifos,
        (SupervisorStage::RestartSleep { reset_required }, SupervisorEvent::Slept) => if reset_required {
            SupervisorStage::ResetFifos
        } else {
            SupervisorStage::OpenConnection
        },
        _ => stage,
    }
}

/// Whether a stage belongs to a recalibration pause (the pause flag is held).
pub open spec fn in_recalibration(stage: SupervisorStage) -> bool {
    match stage {
        SupervisorStage::BeginRecalibration { .. } | SupervisorStage::WaitNodeIdle { .. }
        | SupervisorStage::PauseSleep { .. } | SupervisorStage::ResetAfterPause
        | SupervisorStage::CreateReady | SupervisorStage::CompletePause { .. } => true,
        SupervisorStage::CloseConnection { after } => !(after is Restart),
        _ => false,
    }
}

/// The supervisor's state.
#[derive(Debug, Clone, Copy, PartialEq, Eq, Structural)]
pub struct Supervisor {
    pub stage: SupervisorStage,
}

impl Supervisor {
    /// A supervisor whose FIFOs are ready to be opened.
    pub fn new() -> (s: Self)
        ensures
            s.stage == SupervisorStage::OpenConnection,
    {
        Supervisor { stage: SupervisorStage::OpenConnection }
    }

    /// The action that the supervisor waits for.
    pub fn pending_action(&self) -> (action: SupervisorAction)
        ensures
            action == supervisor_action(self.stage),
    {
        match self.stage {
            SupervisorStage::ResetFifos => SupervisorAction::ResetFifos,
            SupervisorStage::OpenConnection => SupervisorAction::OpenConnection,
            SupervisorStage::RunSession => SupervisorAction::RunSession,
            SupervisorStage::CloseConnection { .. } => SupervisorAction::CloseConnection,
            SupervisorStage::BeginRecalibration { .. } => SupervisorAction::BeginRecalibration,
            SupervisorStage::WaitNodeIdle { .. } => SupervisorAction::WaitNodeIdle,
            SupervisorStage::PauseSleep { duration_ms } => SupervisorAction::Sleep { ms: duration_ms },
            SupervisorStage::ResetAfterPause => SupervisorAction::ResetFifos,
            SupervisorStage::CreateReady => SupervisorAction::CreateReady,
            SupervisorStage::CompletePause { .. } => SupervisorAction::CompletePause,
            SupervisorStage::RetrySleep => SupervisorAction::Sleep { ms: SESSION_RETRY_DELAY_MS },
            SupervisorStage::RestartSleep { .. } => SupervisorAction::Sleep { ms: SESSION_RESTART_DELAY_MS },
            SupervisorStage::Stopped => SupervisorAction::Stop,
        }
    }

    /// Takes the outcome of the pending action and returns the next action.
    pub fn step(&mut self, event: SupervisorEvent) -> (action: SupervisorAction)
        ensures
            final(self).stage == next_supervisor_stage(old(self).stage, event),
            action == supervisor_action(final(self).stage),
    {
        let next = match (self.stage, event) {
            (SupervisorStage::ResetFifos, SupervisorEvent::FifosReset { ok }) => if ok {
                SupervisorStage::OpenConnection
            } else {
                SupervisorStage::RetrySleep
            },
            (SupervisorStage::OpenConnection, SupervisorEvent::ConnectionOpened { outcome }) => match outcome {
                OpenOutcome::Opened => SupervisorStage::RunSession,
                OpenOutcome::OpenFailed => SupervisorStage::RetrySleep,
                OpenOutcome::InitializeFailed => SupervisorStage::Stopped,
            },
            (SupervisorStage::RunSession, SupervisorEvent::SessionEnded { outcome }) => match outcome {
                SessionOutcome::PauseRequested { duration_ms } => SupervisorStage::BeginRecalibration {
                    duration_ms,
                },
                _ => SupervisorStage::CloseConnection { after: AfterClose::Restart },
            },
            (
                SupervisorStage::BeginRecalibration { duration_ms },
                SupervisorEvent::RecalibrationBegun { ok },
            ) => if ok {
                SupervisorStage::CloseConnection { after: AfterClose::AwaitNodeIdle { duration_ms } }
            } else {
                SupervisorStage::CloseConnection { after: AfterClose::ReleaseAndStop }
            },
            (SupervisorStage::CloseConnection { after }, SupervisorEvent::ConnectionClosed) => match after {
                AfterClose::Restart => SupervisorStage::RestartSleep { reset_required: true },
                AfterClose::AwaitNodeIdle { duration_ms } => SupervisorStage::WaitNodeIdle { duration_ms },
                AfterClose::ReleaseAndStop => SupervisorStage::CompletePause { exit: true },
            },
            (SupervisorStage::WaitNodeIdle { duration_ms }, SupervisorEvent::NodeIdle { ok }) => if ok {
                SupervisorStage::PauseSleep { duration_ms }
            } else {
                SupervisorStage::CompletePause { exit: true }
            },
            (SupervisorStage::PauseSleep { .. }, SupervisorEvent::Slept) => SupervisorStage::ResetAfterPause,
            (SupervisorStage::ResetAfterPause, SupervisorEvent::FifosReset { ok }) => if ok {
                SupervisorStage::CreateReady
            } else {
                SupervisorStage::CompletePause { exit: true }
            },
            (SupervisorStage::CreateReady, SupervisorEvent::ReadyCreated { ok }) => SupervisorStage::CompletePause {
                exit: !ok,
            },
            (SupervisorStage::CompletePause { exit }, SupervisorEvent::PauseCompleted) => if exit {
                SupervisorStage::Stopped
            } else {
                SupervisorStage::RestartSleep { reset_required: false }
            },
            (SupervisorStage::RetrySleep, SupervisorEvent::Slept) => SupervisorStage::ResetFifos,
            (SupervisorStage::RestartSleep { reset_required }, SupervisorEvent::Slept) => if reset_required {
                SupervisorStage::ResetFifos
            } else {
                SupervisorStage::OpenConnection
            },
            _ => self.stage,
        };
        self.stage = next;
        self.pending_action()
    }
}

/// A recalibration pause always releases the pause flag: no step leaves a
/// recalibration stage except through the release of the flag.
pub proof fn law_recalibration_releases_pause_flag(stage: SupervisorStage, e: SupervisorEvent)
    requires
        in_recalibration(stage),
    ensures
        in_recalibration(next_supervisor_stage(stage, e)) || stage is CompletePause,
{
}

/// After a recalibration the supervisor goes on only once its ready file was
/// recreated: the flag is released to go on only after `CreateReady`
/// succeeded, and a session is then reopened on the FIFOs that the pause
/// recreated.
pub proof fn law_ready_file_precedes_next_session(stage: SupervisorStage, e: SupervisorEvent)
    ensures
        next_supervisor_stage(stage, e) == (SupervisorStage::CompletePause { exit: false }) && stage
            != next_supervisor_stage(stage, e) ==> stage == SupervisorStage::CreateReady && e == (
        SupervisorEvent::ReadyCreated { ok: true }),
        stage == (SupervisorStage::CompletePause { exit: false }) ==> next_supervisor_stage(
            stage,
            SupervisorEvent::PauseCompleted,
        ) == (SupervisorStage::RestartSleep { reset_required: false }),
{
}

/// A session that ends other than by a pause leaves FIFOs that must be reset
/// before a controller can attach again.
pub proof fn law_fifos_reset_after_session(outcome: SessionOutcome)
    requires
        !(outcome is PauseRequested),
    ensures
        next_supervisor_stage(SupervisorStage::RunSession, SupervisorEvent::SessionEnded { outcome })
            == (SupervisorStage::CloseConnection { after: AfterClose::Restart }),
        next_supervisor_stage(
            next_supervisor_stage(
                SupervisorStage::CloseConnection { after: AfterClose::Restart },
                SupervisorEvent::ConnectionClosed,
            ),
            SupervisorEvent::Slept,
        ) == SupervisorStage::ResetFifos,
{
}

/// A recalibration removes the ready file before the session's FIFOs are
/// closed: a session that ends for a pause goes first to the removal of the
/// ready file, and its connection is closed only once that was done,
/// whatever came of it. A connection is closed after nothing else than a
/// session that ended or the start of a recalibration; the pause flag is
/// then released whether the recalibration could begin or not.
pub proof fn law_ready_file_removed_before_fifos_close(
    duration_ms: u64,
    begun: bool,
    stage: SupervisorStage,
    e: SupervisorEvent,
)
    ensures
        next_supervisor_stage(
            SupervisorStage::RunSession,
            SupervisorEvent::SessionEnded { outcome: SessionOutcome::PauseRequested { duration_ms } },
        ) == (SupervisorStage::BeginRecalibration { duration_ms }),
        next_supervisor_stage(
            SupervisorStage::BeginRecalibration { duration_ms },
            SupervisorEvent::RecalibrationBegun { ok: begun },
        ) == (SupervisorStage::CloseConnection {
            after: if begun { AfterClose::AwaitNodeIdle { duration_ms } } else { AfterClose::ReleaseAndStop },
        }),
        next_supervisor_stage(stage, e) is CloseConnection && !(stage is CloseConnection) ==> (
            stage == SupervisorStage::RunSession && (e matches SupervisorEvent::SessionEnded { outcome }
                && !(outcome is PauseRequested))) || (stage is BeginRecalibration && e is RecalibrationBegun),
        next_supervisor_stage(
            SupervisorStage::CloseConnection { after: AfterClose::ReleaseAndStop },
            SupervisorEvent::ConnectionClosed,
        ) == (SupervisorStage::CompletePause { exit: true }),
{
}

} // verus!
