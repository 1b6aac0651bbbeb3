//! The simulator actor's handling of a request: one simulator operation per
//! request, and its reply. The thread and the channels around it belong to
//! the application.
use vstd::prelude::*;
use crate::batch::QkdBatch;
use crate::errors::{HardwareError, ProtocolError, SimulationError};
use crate::simulation::{
    after_batches, batch_view, counter_overflow_reason, counters_fit, gc_step_of, lemma_after_zero_batches,
    next_batch_view, progress_of, ready_to_generate, session_ended, session_initialized,
    session_not_started_reason, synchronization_start, synchronization_succeeds, synchronized_after,
    with_attack, GenerationProgress, ModulatorState, Simulator,
};

verus! {

/// A request to the simulator actor.
#[derive(Debug, Clone, PartialEq, Eq)]
pub enum SimRequest {
    StartSession,
    StopSession,
    /// Generate the next batch; the QBER threshold is the one drawn for it.
    GenerateQkdBatch { qber_threshold: u16 },
    GenerationProgress,
    /// Generate and drop one batch per QBER threshold, in the running
    /// session.
    DiscardBatches { qber_thresholds: Vec<u16> },
    /// Generate and drop one batch per QBER threshold to catch up with a
    /// peer, in a session of its own when none runs.
    SynchronizeStreams { qber_thresholds: Vec<u16> },
    SetAngles { angles: [u8; 4] },
    StartAttack,
    StopAttack,
}

/// The actor's reply.
#[derive(Debug, PartialEq, Eq)]
pub enum SimReply {
    Done(Result<(), SimulationError>),
    Batch(Result<QkdBatch, SimulationError>),
    Progress(GenerationProgress),
}

/// The reason given when a batch is asked of a simulator whose angle table
/// is empty.
pub open spec fn empty_angles_reason() -> Seq<char> {
    "The angle table is empty."@
}

/// The error for a simulator with an empty angle table.
fn empty_angles_error() -> (e: SimulationError)
    ensures
        e matches SimulationError::ProtocolError { source: ProtocolError::Size { reason } } && reason@
            == empty_angles_reason(),
{
    SimulationError::ProtocolError { source: ProtocolError::Size { reason: "The angle table is empty.".to_owned() } }
}

/// The reply to a failed generation: the simulator's error, in the order
/// that `generate_batch` checks (modulator, session, angle table, counters).
pub open spec fn generation_error(sim: Simulator, n: nat, e: SimulationError) -> bool {
    if sim.modulator_state != ModulatorState::Random {
        e == SimulationError::HardwareError { source: HardwareError::ModulatorStateNotSupported }
    } else if !sim.session_started {
        e matches SimulationError::HardwareError { source: HardwareError::Other { reason } }
            && reason@ == session_not_started_reason()
    } else if !sim.angles_usable() {
        e matches SimulationError::ProtocolError { source: ProtocolError::Size { reason } }
            && reason@ == empty_angles_reason()
    } else if !counters_fit(sim, n) {
        e matches SimulationError::HardwareError { source: HardwareError::Other { reason } }
            && reason@ == counter_overflow_reason()
    } else {
        false
    }
}

/// Performs the simulator operation that a request names and builds its
/// reply. A batch asked of a simulator that could generate it but has an
/// empty angle table is refused with a size error; a failed generation
/// leaves the simulator as it was, and a failed discard stops after the
/// batches that could be generated.
pub fn handle_request(sim: &mut Simulator, request: SimRequest) -> (reply: SimReply)
    ensures
        request is StartSession ==> *final(sim) == session_initialized(*old(sim)) && (reply matches SimReply::Done(Ok(()))),
        request is StopSession ==> *final(sim) == session_ended(*old(sim)) && (reply matches SimReply::Done(Ok(()))),
        request is StartAttack ==> *final(sim) == with_attack(*old(sim), true) && (reply matches SimReply::Done(Ok(()))),
        request is StopAttack ==> *final(sim) == with_attack(*old(sim), false) && (reply matches SimReply::Done(Ok(()))),
        request is GenerationProgress ==> *final(sim) == *old(sim) && reply == SimReply::Progress(
            progress_of(*old(sim)),
        ),
        request is SetAngles ==> {
            &&& final(sim).angles@ == request->angles@
            &&& *final(sim) == (Simulator { angles: final(sim).angles, ..*old(sim) })
            &&& reply matches SimReply::Done(Ok(()))
        },
        request is GenerateQkdBatch ==> {
            &&& reply is Batch
            &&& (reply->Batch_0 is Ok <==> ready_to_generate(*old(sim)) && counters_fit(*old(sim), 1)
                && old(sim).angles_usable())
            &&& reply->Batch_0 matches Err(e) ==> generation_error(*old(sim), 1, e) && *final(sim) == *old(sim)
            &&& reply->Batch_0 matches Ok(batch) ==> {
                &&& batch.wf()
                &&& batch.base_gc == old(sim).gc_offset + old(sim).last_event_count
                &&& batch.gc_step == gc_step_of(old(sim).batch_pulse_count)
                &&& batch_view(batch) == next_batch_view(*old(sim), request->qber_threshold)
                &&& *final(sim) == after_batches(*old(sim), 1)
            }
        },
        request is DiscardBatches ==> {
            let n = request->DiscardBatches_qber_thresholds@.len();
            &&& reply is Done
            &&& (reply->Done_0 is Ok <==> n == 0 || (ready_to_generate(*old(sim)) && counters_fit(*old(sim), n)
                && old(sim).angles_usable()))
            &&& reply->Done_0 is Ok ==> *final(sim) == after_batches(*old(sim), n)
            &&& reply->Done_0 matches Err(e) ==> generation_error(*old(sim), n, e)
            &&& reply->Done_0 is Err ==> exists|k: nat|
                k < n && counters_fit(*old(sim), k) && #[trigger] after_batches(*old(sim), k) == *final(sim)
        },
        request is SynchronizeStreams ==> {
            let n = request->SynchronizeStreams_qber_thresholds@.len();
            &&& reply is Done
            &&& (reply->Done_0 is Ok <==> synchronization_succeeds(*old(sim), n))
            &&& n == 0 ==> *final(sim) == *old(sim)
            &&& n > 0 && reply->Done_0 is Ok ==> *final(sim) == synchronized_after(*old(sim), n)
            &&& n > 0 && !old(sim).angles_usable() ==> *final(sim) == *old(sim) && (reply->Done_0 matches Err(e)
                && e matches SimulationError::ProtocolError { source: ProtocolError::Size { reason } }
                && reason@ == empty_angles_reason())
            &&& old(sim).angles_usable() && reply->Done_0 is Err ==> {
                &&& reply->Done_0 matches Err(e) && generation_error(synchronization_start(*old(sim)), n, e)
                &&& exists|k: nat|
                    k < n && counters_fit(synchronization_start(*old(sim)), k) && #[trigger] synchronized_after(
                        *old(sim),
                        k,
                    ) == *final(sim)
            }
        },
{
    match request {
        SimRequest::StartSession => SimReply::Done(sim.initialize_session()),
        SimRequest::StopSession => SimReply::Done(sim.setup_session_end()),
        SimRequest::GenerateQkdBatch { qber_threshold } => {
            if !sim.angles_usable_exec() && sim.can_generate() {
                return SimReply::Batch(Err(empty_angles_error()));
            }
            SimReply::Batch(sim.generate_batch(qber_threshold))
        },
        SimRequest::GenerationProgress => SimReply::Progress(sim.generation_progress()),
        SimRequest::DiscardBatches { qber_thresholds } => {
            if !sim.angles_usable_exec() && sim.can_generate() && qber_thresholds.len() > 0 {
                proof {
                    lemma_after_zero_batches(*sim);
                }
                return SimReply::Done(Err(empty_angles_error()));
            }
            SimReply::Done(sim.discard_batches(&qber_thresholds))
        },
        SimRequest::SynchronizeStreams { qber_thresholds } => {
            if !sim.angles_usable_exec() && qber_thresholds.len() > 0 {
                return SimReply::Done(Err(empty_angles_error()));
            }
            SimReply::Done(sim.synchronize_streams(&qber_thresholds))
        },
        SimRequest::SetAngles { angles } => SimReply::Done(sim.set_angles(angles)),
        SimRequest::StartAttack => {
            sim.start_attack();
            SimReply::Done(Ok(()))
        },
        SimRequest::StopAttack => {
            sim.stop_attack();
            SimReply::Done(Ok(()))
        },
    }
}

} // verus!
