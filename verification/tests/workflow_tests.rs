use hw_sim::simulation::SimulatorMode;
use hw_sim::supervisor::{
    OpenOutcome, Supervisor, SupervisorAction, SupervisorEvent, SupervisorStage,
    SESSION_RESTART_DELAY_MS, SESSION_RETRY_DELAY_MS,
};
use hw_sim::workflow::{
    ReaderAction, ReaderEvent, ReaderState, SessionOutcome, Stage, WorkflowFailure,
};

fn registers(generation_start: u32) -> ReaderEvent {
    ReaderEvent::Registers { init_reset: Some(0), generation_start: Some(generation_start) }
}

const NO_PAUSE: ReaderEvent = ReaderEvent::PauseChecked { pause_ms: None };

#[test]
fn the_detector_waits_for_a_start_edge_then_exchanges_batches() {
    let mut reader = ReaderState::new(SimulatorMode::Detector);
    assert_eq!(reader.pending_action(), ReaderAction::CheckPause);
    assert_eq!(reader.step(NO_PAUSE), ReaderAction::ReadRegisters);
    assert_eq!(reader.step(registers(0)), ReaderAction::Sleep);
    assert_eq!(reader.step(ReaderEvent::Slept), ReaderAction::CheckPause);
    assert_eq!(reader.step(NO_PAUSE), ReaderAction::ReadRegisters);
    assert_eq!(reader.step(registers(1)), ReaderAction::StartSession);
    assert_eq!(reader.step(ReaderEvent::SessionStarted { ok: true }), ReaderAction::CheckPause);
    assert!(reader.session_started);
    assert_eq!(reader.step(NO_PAUSE), ReaderAction::GenerateBatch);
    assert_eq!(reader.step(ReaderEvent::BatchGenerated { ok: true }), ReaderAction::WriteGcr);
    assert_eq!(reader.step(ReaderEvent::Written { ok: true }), ReaderAction::CheckPause);
    assert_eq!(reader.step(NO_PAUSE), ReaderAction::ReadGcBatch);
    assert_eq!(reader.step(ReaderEvent::GcBatchRead { count: Some(1024) }), ReaderAction::CheckPause);
    assert_eq!(reader.step(NO_PAUSE), ReaderAction::WriteAngles);
    assert_eq!(reader.step(ReaderEvent::Written { ok: true }), ReaderAction::CheckPause);
    assert_eq!(reader.stage, Stage::DetectorPauseBeforeBatch);
    // the controller detaches: the echo read fails
    assert_eq!(reader.step(NO_PAUSE), ReaderAction::GenerateBatch);
    assert_eq!(reader.step(ReaderEvent::BatchGenerated { ok: true }), ReaderAction::WriteGcr);
    assert_eq!(reader.step(ReaderEvent::Written { ok: true }), ReaderAction::CheckPause);
    assert_eq!(reader.step(NO_PAUSE), ReaderAction::ReadGcBatch);
    assert_eq!(reader.step(ReaderEvent::GcBatchRead { count: None }), ReaderAction::StopSession);
    assert_eq!(reader.step(ReaderEvent::SessionStopped { ok: true }), ReaderAction::StopWriter);
    assert!(!reader.session_started);
    assert_eq!(
        reader.step(ReaderEvent::WriterStopped { ok: true }),
        ReaderAction::Exit { outcome: SessionOutcome::PeersDetached }
    );
}

#[test]
fn the_source_answers_each_gc_batch_with_its_settings() {
    let mut reader = ReaderState::new(SimulatorMode::Source);
    reader.step(NO_PAUSE);
    assert_eq!(reader.step(registers(1)), ReaderAction::StartSession);
    assert_eq!(reader.step(ReaderEvent::SessionStarted { ok: true }), ReaderAction::CheckPause);
    assert_eq!(reader.step(NO_PAUSE), ReaderAction::ReadGcBatch);
    assert_eq!(reader.step(ReaderEvent::GcBatchRead { count: Some(1024) }), ReaderAction::CheckPause);
    assert_eq!(reader.step(NO_PAUSE), ReaderAction::GenerateBatch);
    assert_eq!(reader.step(ReaderEvent::BatchGenerated { ok: true }), ReaderAction::CheckPause);
    assert_eq!(reader.step(NO_PAUSE), ReaderAction::WriteAngles);
    assert_eq!(reader.step(ReaderEvent::Written { ok: true }), ReaderAction::CheckPause);
    assert_eq!(reader.stage, Stage::SourcePauseBeforeGc);
}

#[test]
fn a_short_gc_batch_abandons_the_session() {
    let mut reader = ReaderState::new(SimulatorMode::Source);
    reader.step(NO_PAUSE);
    reader.step(registers(1));
    reader.step(ReaderEvent::SessionStarted { ok: true });
    reader.step(NO_PAUSE);
    assert_eq!(reader.step(ReaderEvent::GcBatchRead { count: Some(1000) }), ReaderAction::StopSession);
    assert_eq!(
        reader.step(ReaderEvent::SessionStopped { ok: false }),
        ReaderAction::Exit { outcome: SessionOutcome::Failed { failure: WorkflowFailure::GcBatchSize } }
    );
}

#[test]
fn a_pause_stops_the_session_and_the_writers() {
    let mut reader = ReaderState::new(SimulatorMode::Detector);
    reader.step(NO_PAUSE);
    reader.step(registers(1));
    reader.step(ReaderEvent::SessionStarted { ok: true });
    assert_eq!(
        reader.step(ReaderEvent::PauseChecked { pause_ms: Some(5000) }),
        ReaderAction::StopSession
    );
    assert_eq!(reader.step(ReaderEvent::SessionStopped { ok: true }), ReaderAction::StopWriter);
    assert_eq!(
        reader.step(ReaderEvent::WriterStopped { ok: true }),
        ReaderAction::Exit { outcome: SessionOutcome::PauseRequested { duration_ms: 5000 } }
    );
    // an ended session ignores further events
    assert_eq!(
        reader.step(NO_PAUSE),
        ReaderAction::Exit { outcome: SessionOutcome::PauseRequested { duration_ms: 5000 } }
    );
}

#[test]
fn a_stop_edge_ends_the_session_cleanly() {
    let mut reader = ReaderState::new(SimulatorMode::Detector);
    reader.step(NO_PAUSE);
    reader.step(registers(1));
    reader.step(ReaderEvent::SessionStarted { ok: false });
    assert_eq!(
        reader.pending_action(),
        ReaderAction::Exit { outcome: SessionOutcome::Failed { failure: WorkflowFailure::StartSession } }
    );

    let mut reader = ReaderState::new(SimulatorMode::Detector);
    reader.last_command_trigger_value = 1;
    reader.step(NO_PAUSE);
    assert_eq!(reader.step(registers(0)), ReaderAction::StopSession);
    reader.step(ReaderEvent::SessionStopped { ok: true });
    assert_eq!(
        reader.step(ReaderEvent::WriterStopped { ok: false }),
        ReaderAction::Exit { outcome: SessionOutcome::Failed { failure: WorkflowFailure::StopWriter } }
    );
}

#[test]
fn register_read_failures_and_glitches_are_ignored() {
    let mut reader = ReaderState::new(SimulatorMode::Source);
    reader.step(NO_PAUSE);
    assert_eq!(
        reader.step(ReaderEvent::Registers { init_reset: None, generation_start: None }),
        ReaderAction::Sleep
    );
    reader.step(ReaderEvent::Slept);
    reader.step(NO_PAUSE);
    assert_eq!(
        reader.step(ReaderEvent::Registers { init_reset: Some(1), generation_start: Some(42) }),
        ReaderAction::Sleep
    );
    assert_eq!(reader.last_init_reset_value, 1);
    assert_eq!(reader.last_command_trigger_value, 0);
}

#[test]
fn the_supervisor_resets_fifos_after_a_session_and_follows_the_recalibration_handshake() {
    let mut supervisor = Supervisor::new();
    assert_eq!(supervisor.pending_action(), SupervisorAction::OpenConnection);
    assert_eq!(
        supervisor.step(SupervisorEvent::ConnectionOpened { outcome: OpenOutcome::Opened }),
        SupervisorAction::RunSession
    );
    assert_eq!(
        supervisor.step(SupervisorEvent::SessionEnded { outcome: SessionOutcome::PeersDetached }),
        SupervisorAction::CloseConnection
    );
    assert_eq!(
        supervisor.step(SupervisorEvent::ConnectionClosed),
        SupervisorAction::Sleep { ms: SESSION_RESTART_DELAY_MS }
    );
    assert_eq!(supervisor.step(SupervisorEvent::Slept), SupervisorAction::ResetFifos);
    assert_eq!(supervisor.step(SupervisorEvent::FifosReset { ok: true }), SupervisorAction::OpenConnection);
    supervisor.step(SupervisorEvent::ConnectionOpened { outcome: OpenOutcome::Opened });
    assert_eq!(
        supervisor.step(SupervisorEvent::SessionEnded {
            outcome: SessionOutcome::PauseRequested { duration_ms: 50 }
        }),
        SupervisorAction::BeginRecalibration
    );
    assert_eq!(supervisor.step(SupervisorEvent::RecalibrationBegun { ok: true }), SupervisorAction::CloseConnection);
    assert_eq!(supervisor.step(SupervisorEvent::ConnectionClosed), SupervisorAction::WaitNodeIdle);
    assert_eq!(supervisor.step(SupervisorEvent::NodeIdle { ok: true }), SupervisorAction::Sleep { ms: 50 });
    assert_eq!(supervisor.step(SupervisorEvent::Slept), SupervisorAction::ResetFifos);
    assert_eq!(supervisor.step(SupervisorEvent::FifosReset { ok: true }), SupervisorAction::CreateReady);
    assert_eq!(supervisor.step(SupervisorEvent::ReadyCreated { ok: true }), SupervisorAction::CompletePause);
    assert_eq!(
        supervisor.step(SupervisorEvent::PauseCompleted),
        SupervisorAction::Sleep { ms: SESSION_RESTART_DELAY_MS }
    );
    assert_eq!(supervisor.step(SupervisorEvent::Slept), SupervisorAction::OpenConnection);
}

#[test]
fn the_supervisor_retries_and_stops_on_fatal_errors() {
    let mut supervisor = Supervisor::new();
    assert_eq!(
        supervisor.step(SupervisorEvent::ConnectionOpened { outcome: OpenOutcome::OpenFailed }),
        SupervisorAction::Sleep { ms: SESSION_RETRY_DELAY_MS }
    );
    assert_eq!(supervisor.step(SupervisorEvent::Slept), SupervisorAction::ResetFifos);
    assert_eq!(
        supervisor.step(SupervisorEvent::FifosReset { ok: false }),
        SupervisorAction::Sleep { ms: SESSION_RETRY_DELAY_MS }
    );
    supervisor.step(SupervisorEvent::Slept);
    supervisor.step(SupervisorEvent::FifosReset { ok: true });
    assert_eq!(
        supervisor.step(SupervisorEvent::ConnectionOpened { outcome: OpenOutcome::InitializeFailed }),
        SupervisorAction::Stop
    );

    let mut supervisor = Supervisor { stage: SupervisorStage::WaitNodeIdle { duration_ms: 10 } };
    assert_eq!(supervisor.step(SupervisorEvent::NodeIdle { ok: false }), SupervisorAction::CompletePause);
    assert_eq!(supervisor.step(SupervisorEvent::PauseCompleted), SupervisorAction::Stop);
}

#[test]
fn a_recalibration_that_cannot_begin_closes_the_fifos_then_releases_the_flag_and_stops() {
    let mut supervisor = Supervisor { stage: SupervisorStage::RunSession };
    assert_eq!(
        supervisor.step(SupervisorEvent::SessionEnded { outcome: SessionOutcome::PauseRequested { duration_ms: 5 } }),
        SupervisorAction::BeginRecalibration
    );
    assert_eq!(supervisor.step(SupervisorEvent::RecalibrationBegun { ok: false }), SupervisorAction::CloseConnection);
    assert_eq!(supervisor.step(SupervisorEvent::ConnectionClosed), SupervisorAction::CompletePause);
    assert_eq!(supervisor.step(SupervisorEvent::PauseCompleted), SupervisorAction::Stop);
}
