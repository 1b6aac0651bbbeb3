//! The hardware session of a simulator, as a state machine.
//!
//! The session waits for the controller's commands on the MMIO registers,
//! starts a generation session on a rising edge of the generation start
//! register and then exchanges batches with the controller over the FIFOs:
//! Bob (the detector) sends the GCR records of a batch, reads the GC values
//! that the controller echoes and sends his settings; Alice (the source)
//! reads a batch of GC values and sends her settings for it. A pending
//! recalibration pause is checked before every exchange. The machine decides;
//! the application performs each action and reports its outcome as an event.
use vstd::prelude::*;
use crate::mmio::{edge_command, is_binary, Command};
use crate::simulation::SimulatorMode;

verus! {

/// The number of GC values in a batch read from the controller.
pub const GC_BATCH_LEN: usize = 1024;

/// Why a session failed.
#[derive(Debug, Clone, Copy, PartialEq, Eq, Structural)]
pub enum WorkflowFailure {
    /// The simulator could not start a session.
    StartSession,
    /// The simulator could not stop its session.
    StopSession,
    /// The FIFO writers could not be stopped.
    StopWriter,
    /// The GCR records could not be handed to the writer.
    WriteGcr,
    /// The settings could not be handed to the writer.
    WriteAngles,
    /// The controller's GC batch did not hold 1024 values.
    GcBatchSize,
}

/// How a session ended.
#[derive(Debug, Clone, Copy, PartialEq, Eq, Structural)]
pub enum SessionOutcome {
    /// The controller sent a stop command.
    Stopped,
    /// A FIFO peer detached during generation.
    PeersDetached,
    /// A recalibration pause of the given duration was requested.
    PauseRequested { duration_ms: u64 },
    /// The session failed.
    Failed { failure: WorkflowFailure },
}

/// Where a session stands; each stage has one pending action.
#[derive(Debug, Clone, Copy, PartialEq, Eq, Structural)]
pub enum Stage {
    /// Waiting for a command: check for a pause.
    AwaitPause,
    /// Waiting for a command: read the registers.
    AwaitRegisters,
    /// Waiting for a command: sleep for the polling interval.
    AwaitSleep,
    /// A start edge was seen: start the simulator's session.
    Starting,
    /// Bob: check for a pause before the next batch.
    DetectorPauseBeforeBatch,
    /// Bob: generate the next batch.
    DetectorBatch,
    /// Bob: send the batch's GCR records.
    DetectorGcr,
    /// Bob: check for a pause before reading the echo.
    DetectorPauseBeforeEcho,
    /// Bob: read the GC values that the controller echoes.
    DetectorEcho,
    /// Bob: check for a pause before sending the settings.
    DetectorPauseBeforeAngles,
    /// Bob: send the batch's settings.
    DetectorAngles,
    /// Alice: check for a pause before reading GC values.
    SourcePauseBeforeGc,
    /// Alice: read a batch of GC values from the controller.
    SourceGc,
    /// Alice: check for a pause before the next batch.
    SourcePauseBeforeBatch,
    /// Alice: generate the next batch.
    SourceBatch,
    /// Alice: check for a pause before sending the settings.
    SourcePauseBeforeAngles,
    /// Alice: send the batch's settings.
    SourceAngles,
    /// Stop the simulator's session, then the writers, then end with the
    /// outcome.
    StoppingSession { outcome: SessionOutcome },
    /// Stop the writers, then end with the outcome.
    StoppingWriter { outcome: SessionOutcome },
    /// Stop the simulator's session whatever comes of it, then end with the
    /// outcome.
    AbandoningSession { outcome: SessionOutcome },
    /// The session has ended.
    Finished { outcome: SessionOutcome },
}

/// An action for the application to perform.
#[derive(Debug, Clone, Copy, PartialEq, Eq, Structural)]
pub enum ReaderAction {
    /// Look for a pending runtime command.
    CheckPause,
    /// Read the init/reset and generation start registers.
    ReadRegisters,
    /// Sleep for the polling interval.
    Sleep,
    StartSession,
    GenerateBatch,
    /// Hand the GCR records of the current batch to the writer.
    WriteGcr,
    /// Read a batch of 16-byte GC records from the controller.
    ReadGcBatch,
    /// Hand the settings of the current batch, in the role's encoding, to
    /// the writer.
    WriteAngles,
    StopSession,
    StopWriter,
    /// End the session with the outcome.
    Exit { outcome: SessionOutcome },
}

/// The outcome of an action.
#[derive(Debug, Clone, Copy, PartialEq, Eq, Structural)]
pub enum ReaderEvent {
    /// A recalibration pause of the given duration is pending, or none.
    PauseChecked { pause_ms: Option<u64> },
    /// The register readings (`None` when a read failed).
    Registers { init_reset: Option<u32>, generation_start: Option<u32> },
    Slept,
    SessionStarted { ok: bool },
    BatchGenerated { ok: bool },
    Written { ok: bool },
    /// The number of GC values read, or `None` when the read failed.
    GcBatchRead { count: Option<usize> },
    SessionStopped { ok: bool },
    WriterStopped { ok: bool },
}

/// The state of a hardware session.
#[derive(Debug, Clone, Copy, PartialEq, Eq, Structural)]
pub struct ReaderState {
    pub mode: SimulatorMode,
    pub stage: Stage,
    /// Last known value of the generation start register.
    pub last_command_trigger_value: u32,
    /// Last known value of the init/reset register.
    pub last_init_reset_value: u32,
    /// Whether the simulator's session was started and not stopped since.
    pub session_started: bool,
}

/// The action that a stage waits for.
pub open spec fn stage_action(stage: Stage) -> ReaderAction {
    match stage {
        Stage::AwaitPause => ReaderAction::CheckPause,
        Stage::AwaitRegisters => ReaderAction::ReadRegisters,
        Stage::AwaitSleep => ReaderAction::Sleep,
        Stage::Starting => ReaderAction::StartSession,
        Stage::DetectorPauseBeforeBatch => ReaderAction::CheckPause,
        Stage::DetectorBatch => ReaderAction::GenerateBatch,
        Stage::DetectorGcr => ReaderAction::WriteGcr,
        Stage::DetectorPauseBeforeEcho => ReaderAction::CheckPause,
        Stage::DetectorEcho => ReaderAction::ReadGcBatch,
        Stage::DetectorPauseBeforeAngles => ReaderAction::CheckPause,
        Stage::DetectorAngles => ReaderAction::WriteAngles,
        Stage::SourcePauseBeforeGc => ReaderAction::CheckPause,
        Stage::SourceGc => ReaderAction::ReadGcBatch,
        Stage::SourcePauseBeforeBatch => ReaderAction::CheckPause,
        Stage::SourceBatch => ReaderAction::GenerateBatch,
        Stage::SourcePauseBeforeAngles => ReaderAction::CheckPause,
        Stage::SourceAngles => ReaderAction::WriteAngles,
        Stage::StoppingSession { .. } => ReaderAction::StopSession,
        Stage::StoppingWriter { .. } => ReaderAction::StopWriter,
        Stage::AbandoningSession { .. } => ReaderAction::StopSession,
        Stage::Finished { outcome } => ReaderAction::Exit { outcome },
    }
}

/// The first stage of a generation round in a role.
pub open spec fn round_start(mode: SimulatorMode) -> Stage {
    match mode {
        SimulatorMode::Detector => Stage::DetectorPauseBeforeBatch,
        SimulatorMode::Source => Stage::SourcePauseBeforeGc,
    }
}

/// The stage after a pause check: stopping for the pause, or `next`.
pub open spec fn after_pause_check(pause_ms: Option<u64>, next: Stage) -> Stage {
    match pause_ms {
        Some(d) => Stage::StoppingSession { outcome: SessionOutcome::PauseRequested { duration_ms: d } },
        None => next,
    }
}

/// The stage after a GC batch was read: stopping when the read failed,
/// abandoning the session when the batch is not full, `next` otherwise.
pub open spec fn after_gc_read(count: Option<usize>, next: Stage) -> Stage {
    match count {
        None => Stage::StoppingSession { outcome: SessionOutcome::PeersDetached },
        Some(n) => if n == GC_BATCH_LEN {
            next
        } else {
            Stage::AbandoningSession {
                outcome: SessionOutcome::Failed { failure: WorkflowFailure::GcBatchSize },
            }
        },
    }
}

/// The last known value of a binary register after an optional reading.
pub open spec fn register_after(last: u32, reading: Option<u32>) -> u32 {
    match reading {
        Some(v) => if is_binary(v) { v } else { last },
        None => last,
    }
}

/// The command that an optional reading of the generation start register
/// signals.
pub open spec fn reading_command(last: u32, reading: Option<u32>) -> Option<Command> {
    match reading {
        Some(v) => edge_command(last, v),
        None => None,
    }
}

/// The state of a session after an event. An event that does not answer
/// the pending action leaves the state as it is.
pub open spec fn next_state(s: ReaderState, e: ReaderEvent) -> ReaderState {
    match (s.stage, e) {
        (Stage::AwaitPause, ReaderEvent::PauseChecked { pause_ms }) => ReaderState {
            stage: after_pause_check(pause_ms, Stage::AwaitRegisters),
            ..s
        },
        (Stage::AwaitRegisters, ReaderEvent::Registers { init_reset, generation_start }) => {
            let command = reading_command(s.last_command_trigger_value, generation_start);
            ReaderState {
                stage: match command {
                    Some(Command::Start) => Stage::Starting,
                    Some(Command::Stop) => Stage::StoppingSession { outcome: SessionOutcome::Stopped },
                    None => Stage::AwaitSleep,
                },
                last_command_trigger_value: register_after(s.last_command_trigger_value, generation_start),
                last_init_reset_value: register_after(s.last_init_reset_value, init_reset),
                ..s
            }
        },
        (Stage::AwaitSleep, ReaderEvent::Slept) => ReaderState { stage: Stage::AwaitPause, ..s },
        (Stage::Starting, ReaderEvent::SessionStarted { ok }) => if ok {
            ReaderState { stage: round_start(s.mode), session_started: true, ..s }
        } else {
            ReaderState {
                stage: Stage::Finished { outcome: SessionOutcome::Failed { failure: WorkflowFailure::StartSession } },
                ..s
            }
        },
        (Stage::DetectorPauseBeforeBatch, ReaderEvent::PauseChecked { pause_ms }) => ReaderState {
            stage: after_pause_check(pause_ms, Stage::DetectorBatch),
            ..s
        },
        (Stage::DetectorBatch, ReaderEvent::BatchGenerated { ok }) => ReaderState {
            stage: if ok {
                Stage::DetectorGcr
            } else {
                Stage::StoppingSession { outcome: SessionOutcome::PeersDetached }
            },
            ..s
        },
        (Stage::DetectorGcr, ReaderEvent::Written { ok }) => ReaderState {
            stage: if ok {
                Stage::DetectorPauseBeforeEcho
            } else {
                Stage::Finished { outcome: SessionOutcome::Failed { failure: WorkflowFailure::WriteGcr } }
            },
            ..s
        },
        (Stage::DetectorPauseBeforeEcho, ReaderEvent::PauseChecked { pause_ms }) => ReaderState {
            stage: after_pause_check(pause_ms, Stage::DetectorEcho),
            ..s
        },
        (Stage::DetectorEcho, ReaderEvent::GcBatchRead { count }) => ReaderState {
            stage: after_gc_read(count, Stage::DetectorPauseBeforeAngles),
            ..s
        },
        (Stage::DetectorPauseBeforeAngles, ReaderEvent::PauseChecked { pause_ms }) => ReaderState {
            stage: after_pause_check(pause_ms, Stage::DetectorAngles),
            ..s
        },
        (Stage::DetectorAngles, ReaderEvent::Written { ok }) => ReaderState {
            stage: if ok {
                Stage::DetectorPauseBeforeBatch
            } else {
                Stage::Finished { outcome: SessionOutcome::Failed { failure: WorkflowFailure::WriteAngles } }
            },
            ..s
        },
        (Stage::SourcePauseBeforeGc, ReaderEvent::PauseChecked { pause_ms }) => ReaderState {
            stage: after_pause_check(pause_ms, Stage::SourceGc),
            ..s
        },
        (Stage::SourceGc, ReaderEvent::GcBatchRead { count }) => ReaderState {
            stage: after_gc_read(count, Stage::SourcePauseBeforeBatch),
            ..s
        },
        (Stage::SourcePauseBeforeBatch, ReaderEvent::PauseChecked { pause_ms }) => ReaderState {
            stage: after_pause_check(pause_ms, Stage::SourceBatch),
            ..s
        },
        (Stage::SourceBatch, ReaderEvent::BatchGenerated { ok }) => ReaderState {
            stage: if ok {
                Stage::SourcePauseBeforeAngles
            } else {
                Stage::StoppingSession { outcome: SessionOutcome::PeersDetached }
            },
            ..s
        },
        (Stage::SourcePauseBeforeAngles, ReaderEvent::PauseChecked { pause_ms }) => ReaderState {
            stage: after_pause_check(pause_ms, Stage::SourceAngles),
            ..s
        },
        (Stage::SourceAngles, ReaderEvent::Written { ok }) => ReaderState {
            stage: if ok {
                Stage::SourcePauseBeforeGc
            } else {
                Stage::Finished { outcome: SessionOutcome::Failed { failure: WorkflowFailure::WriteAngles } }
            },
            ..s
        },
        (Stage::StoppingSession { outcome }, ReaderEvent::SessionStopped { ok }) => if ok {
            ReaderState { stage: Stage::StoppingWriter { outcome }, session_started: false, ..s }
        } else {
            ReaderState {
                stage: Stage::Finished { outcome: SessionOutcome::Failed { failure: WorkflowFailure::StopSession } },
                ..s
            }
        },
        (Stage::StoppingWriter { outcome }, ReaderEvent::WriterStopped { ok }) => ReaderState {
            stage: Stage::Finished {
                outcome: if ok {
                    outcome
                } else {
                    SessionOutcome::Failed { failure: WorkflowFailure::StopWriter }
                },
            },
            ..s
        },
        (Stage::AbandoningSession { outcome }, ReaderEvent::SessionStopped { .. }) => ReaderState {
            stage: Stage::Finished { outcome },
            session_started: false,
            ..s
        },
        _ => s,
    }
}

/// Whether a stage lies inside a generation round.
pub open spec fn in_generation(stage: Stage) -> bool {
    match stage {
        Stage::DetectorPauseBeforeBatch | Stage::DetectorBatch | Stage::DetectorGcr
        | Stage::DetectorPauseBeforeEcho | Stage::DetectorEcho | Stage::DetectorPauseBeforeAngles
        | Stage::DetectorAngles => true,
        Stage::SourcePauseBeforeGc | Stage::SourceGc | Stage::SourcePauseBeforeBatch
        | Stage::SourceBatch | Stage::SourcePauseBeforeAngles | Stage::SourceAngles => true,
        _ => false,
    }
}

/// Whether a stage belongs to a role's rounds.
pub open spec fn stage_fits_mode(stage: Stage, mode: SimulatorMode) -> bool {
    match stage {
        Stage::DetectorPauseBeforeBatch | Stage::DetectorBatch | Stage::DetectorGcr
        | Stage::DetectorPauseBeforeEcho | Stage::DetectorEcho | Stage::DetectorPauseBeforeAngles
        | Stage::DetectorAngles => mode == SimulatorMode::Detector,
        Stage::SourcePauseBeforeGc | Stage::SourceGc | Stage::SourcePauseBeforeBatch
        | Stage::SourceBatch | Stage::SourcePauseBeforeAngles | Stage::SourceAngles => mode
            == SimulatorMode::Source,
        _ => true,
    }
}

/// The invariant of a session: generation rounds run only inside a started
/// session and only in the role's own rounds.
pub open spec fn reader_inv(s: ReaderState) -> bool {
    &&& in_generation(s.stage) ==> s.session_started
    &&& stage_fits_mode(s.stage, s.mode)
}

impl ReaderState {
    /// A session in the given role that waits for a command, with both
    /// registers last known at zero.
    pub fn new(mode: SimulatorMode) -> (s: Self)
        ensures
            s == (ReaderState {
                mode,
                stage: Stage::AwaitPause,
                last_command_trigger_value: 0,
                last_init_reset_value: 0,
                session_started: false,
            }),
            reader_inv(s),
    {
        ReaderState {
            mode,
            stage: Stage::AwaitPause,
            last_command_trigger_value: 0,
            last_init_reset_value: 0,
            session_started: false,
        }
    }

    /// The action that the session waits for.
    pub fn pending_action(&self) -> (action: ReaderAction)
        ensures
            action == stage_action(self.stage),
    {
        match self.stage {
            Stage::AwaitPause => ReaderAction::CheckPause,
            Stage::AwaitRegisters => ReaderAction::ReadRegisters,
            Stage::AwaitSleep => ReaderAction::Sleep,
            Stage::Starting => ReaderAction::StartSession,
            Stage::DetectorPauseBeforeBatch => ReaderAction::CheckPause,
            Stage::DetectorBatch => ReaderAction::GenerateBatch,
            Stage::DetectorGcr => ReaderAction::WriteGcr,
            Stage::DetectorPauseBeforeEcho => ReaderAction::CheckPause,
            Stage::DetectorEcho => ReaderAction::ReadGcBatch,
            Stage::DetectorPauseBeforeAngles => ReaderAction::CheckPause,
            Stage::DetectorAngles => ReaderAction::WriteAngles,
            Stage::SourcePauseBeforeGc => ReaderAction::CheckPause,
            Stage::SourceGc => ReaderAction::ReadGcBatch,
            Stage::SourcePauseBeforeBatch => ReaderAction::CheckPause,
            Stage::SourceBatch => ReaderAction::GenerateBatch,
            Stage::SourcePauseBeforeAngles => ReaderAction::CheckPause,
            Stage::SourceAngles => ReaderAction::WriteAngles,
            Stage::StoppingSession { .. } => ReaderAction::StopSession,
            Stage::StoppingWriter { .. } => ReaderAction::StopWriter,
            Stage::AbandoningSession { .. } => ReaderAction::StopSession,
            Stage::Finished { outcome } => ReaderAction::Exit { outcome },
        }
    }

    /// Takes the outcome of the pending action and returns the next action.
    pub fn step(&mut self, event: ReaderEvent) -> (action: ReaderAction)
        ensures
            *final(self) == next_state(*old(self), event),
            action == stage_action(final(self).stage),
    {
        let s = *self;
        let next = match (s.stage, event) {
            (Stage::AwaitPause, ReaderEvent::PauseChecked { pause_ms }) => ReaderState {
                stage: pause_or(pause_ms, Stage::AwaitRegisters),
                ..s
            },
            (Stage::AwaitRegisters, ReaderEvent::Registers { init_reset, generation_start }) => {
                let mut trigger = s.last_command_trigger_value;
                let mut init = s.last_init_reset_value;
                let command = match generation_start {
                    Some(v) => crate::mmio::classify_generation_start_transition(&mut trigger, v),
                    None => None,
                };
                match init_reset {
                    Some(v) => {
                        crate::mmio::update_binary_mmio_state(&mut init, v);
                    },
                    None => {},
                }
                ReaderState {
                    stage: match command {
                        Some(Command::Start) => Stage::Starting,
                        Some(Command::Stop) => Stage::StoppingSession { outcome: SessionOutcome::Stopped },
                        None => Stage::AwaitSleep,
                    },
                    last_command_trigger_value: trigger,
                    last_init_reset_value: init,
                    ..s
                }
            },
            (Stage::AwaitSleep, ReaderEvent::Slept) => ReaderState { stage: Stage::AwaitPause, ..s },
            (Stage::Starting, ReaderEvent::SessionStarted { ok }) => if ok {
                let first = match s.mode {
                    SimulatorMode::Detector => Stage::DetectorPauseBeforeBatch,
                    SimulatorMode::Source => Stage::SourcePauseBeforeGc,
                };
                ReaderState { stage: first, session_started: true, ..s }
            } else {
                ReaderState {
                    stage: Stage::Finished {
                        outcome: SessionOutcome::Failed { failure: WorkflowFailure::StartSession },
                    },
                    ..s
                }
            },
            (Stage::DetectorPauseBeforeBatch, ReaderEvent::PauseChecked { pause_ms }) => ReaderState {
                stage: pause_or(pause_ms, Stage::DetectorBatch),
                ..s
            },
            (Stage::DetectorBatch, ReaderEvent::BatchGenerated { ok }) => ReaderState {
                stage: if ok {
                    Stage::DetectorGcr
                } else {
                    Stage::StoppingSession { outcome: SessionOutcome::PeersDetached }
                },
                ..s
            },
            (Stage::DetectorGcr, ReaderEvent::Written { ok }) => ReaderState {
                stage: if ok {
                    Stage::DetectorPauseBeforeEcho
                } else {
                    Stage::Finished { outcome: SessionOutcome::Failed { failure: WorkflowFailure::WriteGcr } }
                },
                ..s
            },
            (Stage::DetectorPauseBeforeEcho, ReaderEvent::PauseChecked { pause_ms }) => ReaderState {
                stage: pause_or(pause_ms, Stage::DetectorEcho),
                ..s
            },
            (Stage::DetectorEcho, ReaderEvent::GcBatchRead { count }) => ReaderState {
                stage: gc_read_or(count, Stage::DetectorPauseBeforeAngles),
                ..s
            },
            (Stage::DetectorPauseBeforeAngles, ReaderEvent::PauseChecked { pause_ms }) => ReaderState {
                stage: pause_or(pause_ms, Stage::DetectorAngles),
                ..s
            },
            (Stage::DetectorAngles, ReaderEvent::Written { ok }) => ReaderState {
                stage: if ok {
                    Stage::DetectorPauseBeforeBatch
                } else {
                    Stage::Finished {
                        outcome: SessionOutcome::Failed { failure: WorkflowFailure::WriteAngles },
                    }
                },
                ..s
            },
            (Stage::SourcePauseBeforeGc, ReaderEvent::PauseChecked { pause_ms }) => ReaderState {
                stage: pause_or(pause_ms, Stage::SourceGc),
                ..s
            },
            (Stage::SourceGc, ReaderEvent::GcBatchRead { count }) => ReaderState {
                stage: gc_read_or(count, Stage::SourcePauseBeforeBatch),
                ..s
            },
            (Stage::SourcePauseBeforeBatch, ReaderEvent::PauseChecked { pause_ms }) => ReaderState {
                stage: pause_or(pause_ms, Stage::SourceBatch),
                ..s
            },
            (Stage::SourceBatch, ReaderEvent::BatchGenerated { ok }) => ReaderState {
                stage: if ok {
                    Stage::SourcePauseBeforeAngles
                } else {
                    Stage::StoppingSession { outcome: SessionOutcome::PeersDetached }
                },
                ..s
            },
            (Stage::SourcePauseBeforeAngles, ReaderEvent::PauseChecked { pause_ms }) => ReaderState {
                stage: pause_or(pause_ms, Stage::SourceAngles),
                ..s
            },
            (Stage::SourceAngles, ReaderEvent::Written { ok }) => ReaderState {
                stage: if ok {
                    Stage::SourcePauseBeforeGc
                } else {
                    Stage::Finished {
                        outcome: SessionOutcome::Failed { failure: WorkflowFailure::WriteAngles },
                    }
                },
                ..s
            },
            (Stage::StoppingSession { outcome }, ReaderEvent::SessionStopped { ok }) => if ok {
                ReaderState { stage: Stage::StoppingWriter { outcome }, session_started: false, ..s }
            } else {
                ReaderState {
                    stage: Stage::Finished {
                        outcome: SessionOutcome::Failed { failure: WorkflowFailure::StopSession },
                    },
                    ..s
                }
            },
            (Stage::StoppingWriter { outcome }, ReaderEvent::WriterStopped { ok }) => ReaderState {
                stage: Stage::Finished {
                    outcome: if ok {
                        outcome
                    } else {
                        SessionOutcome::Failed { failure: WorkflowFailure::StopWriter }
                    },
                },
                ..s
            },
            (Stage::AbandoningSession { outcome }, ReaderEvent::SessionStopped { .. }) => ReaderState {
                stage: Stage::Finished { outcome },
                session_started: false,
                ..s
            },
            _ => s,
        };
        *self = next;
        self.pending_action()
    }
}

/// The stage after a pause check.
fn pause_or(pause_ms: Option<u64>, next: Stage) -> (stage: Stage)
    ensures
        stage == after_pause_check(pause_ms, next),
{
    match pause_ms {
        Some(d) => Stage::StoppingSession { outcome: SessionOutcome::PauseRequested { duration_ms: d } },
        None => next,
    }
}

/// The stage after a GC batch was read.
fn gc_read_or(count: Option<usize>, next: Stage) -> (stage: Stage)
    ensures
        stage == after_gc_read(count, next),
{
    match count {
        None => Stage::StoppingSession { outcome: SessionOutcome::PeersDetached },
        Some(n) => if n == GC_BATCH_LEN {
            next
        } else {
            Stage::AbandoningSession { outcome: SessionOutcome::Failed { failure: WorkflowFailure::GcBatchSize } }
        },
    }
}

/// Every step keeps the session invariant: batches are generated, written
/// and read only inside a started session, and only in the role's rounds.
pub proof fn law_steps_keep_invariant(s: ReaderState, e: ReaderEvent)
    requires
        reader_inv(s),
    ensures
        reader_inv(next_state(s, e)),
        stage_action(next_state(s, e).stage) == ReaderAction::GenerateBatch ==> next_state(s, e).session_started,
{
}

/// A pending pause, found at any pause check, stops the simulator's session
/// and then the writers before the session ends with the pause request.
pub proof fn law_pause_stops_session_then_writers(s: ReaderState, duration_ms: u64)
    requires
        stage_action(s.stage) == ReaderAction::CheckPause,
    ensures
        ({
            let paused = next_state(s, ReaderEvent::PauseChecked { pause_ms: Some(duration_ms) });
            let session_stopped = next_state(paused, ReaderEvent::SessionStopped { ok: true });
            let writer_stopped = next_state(session_stopped, ReaderEvent::WriterStopped { ok: true });
            &&& stage_action(paused.stage) == ReaderAction::StopSession
            &&& stage_action(session_stopped.stage) == ReaderAction::StopWriter
            &&& !session_stopped.session_started
            &&& stage_action(writer_stopped.stage) == ReaderAction::Exit {
                outcome: SessionOutcome::PauseRequested { duration_ms },
            }
        }),
{
}

/// Alice sends the settings of a batch only for a full batch of GC values:
/// the only way to her settings is a full GC batch, then a batch generated
/// without error, with a pause check before each.
pub proof fn law_source_answers_full_gc_batches(s: ReaderState, e: ReaderEvent)
    ensures
        next_state(s, e).stage == Stage::SourcePauseBeforeBatch && s.stage != Stage::SourcePauseBeforeBatch
            ==> s.stage == Stage::SourceGc && e == (ReaderEvent::GcBatchRead { count: Some(GC_BATCH_LEN) }),
        next_state(s, e).stage == Stage::SourcePauseBeforeAngles && s.stage != Stage::SourcePauseBeforeAngles
            ==> s.stage == Stage::SourceBatch && e == (ReaderEvent::BatchGenerated { ok: true }),
        next_state(s, e).stage == Stage::SourceAngles && s.stage != Stage::SourceAngles ==> s.stage
            == Stage::SourcePauseBeforeAngles && e == (ReaderEvent::PauseChecked { pause_ms: None }),
{
}

/// Bob reads the controller's echo only after his GCR records were handed
/// over, and sends his settings only for a full echo.
pub proof fn law_detector_echo_follows_gcr(s: ReaderState, e: ReaderEvent)
    ensures
        next_state(s, e).stage == Stage::DetectorPauseBeforeEcho && s.stage != Stage::DetectorPauseBeforeEcho
            ==> s.stage == Stage::DetectorGcr && e == (ReaderEvent::Written { ok: true }),
        next_state(s, e).stage == Stage::DetectorPauseBeforeAngles && s.stage
            != Stage::DetectorPauseBeforeAngles ==> s.stage == Stage::DetectorEcho && e == (
        ReaderEvent::GcBatchRead { count: Some(GC_BATCH_LEN) }),
{
}

/// A start edge on the generation start register starts a session, and a
/// non-binary reading neither starts nor stops one.
pub proof fn law_edges_drive_sessions(s: ReaderState, init_reset: Option<u32>, reading: u32)
    requires
        s.stage == Stage::AwaitRegisters,
    ensures
        s.last_command_trigger_value == 0 && reading == 1 ==> next_state(
            s,
            ReaderEvent::Registers { init_reset, generation_start: Some(reading) },
        ).stage == Stage::Starting,
        !is_binary(reading) ==> next_state(
            s,
            ReaderEvent::Registers { init_reset, generation_start: Some(reading) },
        ).stage == Stage::AwaitSleep && next_state(
            s,
            ReaderEvent::Registers { init_reset, generation_start: Some(reading) },
        ).last_command_trigger_value == s.last_command_trigger_value,
{
}

/// An ended session stays ended.
pub proof fn law_finished_is_final(outcome: SessionOutcome, s: ReaderState, e: ReaderEvent)
    requires
        s.stage == (Stage::Finished { outcome }),
    ensures
        next_state(s, e) == s,
{
}

} // verus!
