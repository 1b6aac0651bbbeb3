//! The correlated batch generator.
//!
//! Alice's and Bob's simulators are built from the same seed, so they draw
//! identical random streams and produce identical batches: their results are
//! correlated without any communication. Each batch draws four blocks of 1024
//! values from the stream (Alice's setting, Bob's setting, the measurement
//! outcome and the bit flip that models the QBER), and a fifth block for the
//! intensity choice when decoy states are enabled.
use vstd::prelude::*;
use crate::batch::QkdBatch;
use crate::bits::{event_bits, EventBits, BATCH};
use crate::errors::{HardwareError, ProtocolError, SimulationError};
use crate::overlap::{overlap_probabilities, overlap_table};
use crate::rng::{
    draw_u16_block, lemma_stream_state_add, lemma_stream_state_step, stream_block,
    stream_state_after,
};

verus! {

/// The number of events in a batch.
pub const BATCH_SIZE: usize = 1024;

/// The QBER threshold while an attack is simulated: 50% of `u16::MAX`.
pub const ATTACK_QBER_THRESHOLD: u16 = 32767;

/// The state of the phase modulator.
#[derive(Debug, Clone, Copy, PartialEq, Eq, Structural)]
pub enum ModulatorState {
    /// Do nothing; write nothing to the FIFO.
    Idle,
    /// Generate random settings.
    Random,
}

impl Default for ModulatorState {
    fn default() -> (state: Self)
        ensures
            state == ModulatorState::Idle,
    {
        ModulatorState::Idle
    }
}

/// The role of a simulator.
#[derive(Debug, Clone, Copy, PartialEq, Eq, Structural)]
pub enum SimulatorMode {
    /// Alice.
    Source,
    /// Bob.
    Detector,
}

impl Default for SimulatorMode {
    fn default() -> (mode: Self)
        ensures
            mode == SimulatorMode::Source,
    {
        SimulatorMode::Source
    }
}

/// How far a simulator has generated: the laser pulses that its batches
/// consumed, and the pulses that one batch consumes.
#[derive(Debug, Clone, Copy, PartialEq, Eq, Structural)]
pub struct GenerationProgress {
    pub event_count: u64,
    pub batch_pulse_count: u64,
}

/// The simulator of one side of the QKD link.
#[derive(Debug, Clone, PartialEq, Eq)]
pub struct Simulator {
    /// The phases (in 128 steps per half turn) of the four settings.
    pub angles: Vec<u8>,
    /// The phase offset of the optical setup, in the same steps.
    pub phase_offset: u8,
    pub modulator_state: ModulatorState,
    /// The state of the random stream.
    pub rng_state: u128,
    pub simulator_mode: SimulatorMode,
    /// Whether a generation session is running.
    pub session_started: bool,
    /// The laser pulses consumed since the session started.
    pub last_event_count: u64,
    /// The laser pulses that one batch of 1024 detections consumes.
    pub batch_pulse_count: u64,
    /// The hardware GC value at which a session starts.
    pub gc_offset: u64,
    pub use_gcr_padding: bool,
    pub rate_limiting_enabled: bool,
    pub is_under_attack: bool,
    /// `u16::MAX` scaled probability of a signal pulse; `None` disables decoy
    /// states.
    pub decoy_threshold: Option<u16>,
}

/// The four sequences that a batch holds.
pub struct BatchView {
    pub alice_state_index: Seq<u8>,
    pub bob_state_index: Seq<u8>,
    pub results: Seq<bool>,
    pub decoy_states: Seq<bool>,
}

/// The sequences that a batch holds.
pub open spec fn batch_view(batch: QkdBatch) -> BatchView {
    BatchView {
        alice_state_index: batch.alice_state_index@,
        bob_state_index: batch.bob_state_index@,
        results: event_bits(batch.results),
        decoy_states: event_bits(batch.decoy_states),
    }
}

/// The number of settings that the draws are reduced modulo (the angle
/// table's length as a `u16`).
pub open spec fn setting_count(angles: Seq<u8>) -> int {
    (angles.len() as u16) as int
}

/// The setting that a random value selects.
pub open spec fn setting_of(angles: Seq<u8>, draw: u16) -> int {
    (draw as int) % setting_count(angles)
}

/// The total phase of one event, reduced to a half turn (`& 127`).
pub open spec fn total_phase(angles: Seq<u8>, offset: u8, alice: int, bob: int) -> u8 {
    (((angles[alice] as u32 + angles[bob] as u32 + offset as u32) as u8) & 127u8) as u8
}

/// The measurement result of one event: `1` when the outcome draw exceeds
/// the probability of `0`, flipped when the QBER draw is below the threshold.
pub open spec fn event_result(
    angles: Seq<u8>,
    offset: u8,
    alice_draw: u16,
    bob_draw: u16,
    outcome_draw: u16,
    qber_draw: u16,
    qber_threshold: u16,
) -> bool {
    let phase = total_phase(angles, offset, setting_of(angles, alice_draw), setting_of(angles, bob_draw));
    let raw = outcome_draw > overlap_table()[phase as int];
    if qber_draw < qber_threshold { !raw } else { raw }
}

/// The number of blocks that one batch draws from the stream.
pub open spec fn blocks_per_batch(decoy_threshold: Option<u16>) -> nat {
    if decoy_threshold is Some { 5 } else { 4 }
}

/// The batch that the given draws give, as sequences: `alice`, `bob`,
/// `outcome` and `qber` hold one draw per event, and `decoy` the intensity
/// draws, read only when decoy states are enabled.
pub open spec fn draws_view(
    angles: Seq<u8>,
    offset: u8,
    alice: Seq<u16>,
    bob: Seq<u16>,
    outcome: Seq<u16>,
    qber: Seq<u16>,
    decoy: Seq<u16>,
    qber_threshold: u16,
    decoy_threshold: Option<u16>,
) -> BatchView {
    BatchView {
        alice_state_index: Seq::new(1024, |i: int| setting_of(angles, alice[i]) as u8),
        bob_state_index: Seq::new(1024, |i: int| setting_of(angles, bob[i]) as u8),
        results: Seq::new(1024, |i: int|
            event_result(angles, offset, alice[i], bob[i], outcome[i], qber[i], qber_threshold)
        ),
        decoy_states: Seq::new(1024, |i: int|
            match decoy_threshold {
                Some(t) => decoy[i] >= t,
                None => false,
            }
        ),
    }
}

/// The batch that the stream in `state` gives, as sequences.
pub open spec fn correlation_view(
    angles: Seq<u8>,
    offset: u8,
    state: u128,
    qber_threshold: u16,
    decoy_threshold: Option<u16>,
) -> BatchView {
    draws_view(
        angles,
        offset,
        stream_block(state, 0),
        stream_block(state, 1),
        stream_block(state, 2),
        stream_block(state, 3),
        stream_block(state, 4),
        qber_threshold,
        decoy_threshold,
    )
}

/// The QBER threshold in force: half of `u16::MAX` under attack, the
/// configured one otherwise.
pub open spec fn effective_qber_threshold(under_attack: bool, configured: u16) -> u16 {
    if under_attack { ATTACK_QBER_THRESHOLD } else { configured }
}

/// The batch that a simulator generates next, as sequences.
pub open spec fn next_batch_view(sim: Simulator, configured_qber_threshold: u16) -> BatchView {
    correlation_view(
        sim.angles@,
        sim.phase_offset,
        sim.rng_state,
        effective_qber_threshold(sim.is_under_attack, configured_qber_threshold),
        sim.decoy_threshold,
    )
}

/// The pulse-counter gap between two detections of a batch.
pub open spec fn gc_step_of(batch_pulse_count: u64) -> u64 {
    if batch_pulse_count / 1024 >= 1 { (batch_pulse_count / 1024) as u64 } else { 1 }
}

/// The simulator after it generated `n` batches: the pulse counter advanced
/// by `n` batches and the stream by `n` batches' blocks.
pub open spec fn after_batches(sim: Simulator, n: nat) -> Simulator {
    Simulator {
        rng_state: stream_state_after(sim.rng_state, n * blocks_per_batch(sim.decoy_threshold)),
        last_event_count: (sim.last_event_count + n * sim.batch_pulse_count) as u64,
        ..sim
    }
}

/// Whether the counters leave room for `n` more batches: the pulse counter,
/// and the GC values of the last batch, fit in 64 bits.
pub open spec fn counters_fit(sim: Simulator, n: nat) -> bool {
    n == 0 || {
        &&& sim.last_event_count + n * sim.batch_pulse_count <= u64::MAX
        &&& sim.gc_offset + sim.last_event_count + (n - 1) * sim.batch_pulse_count + 1023
            * gc_step_of(sim.batch_pulse_count) <= u64::MAX
    }
}

/// Whether a simulator can generate batches: random modulation, a running
/// session, and a usable angle table.
pub open spec fn ready_to_generate(sim: Simulator) -> bool {
    &&& sim.modulator_state == ModulatorState::Random
    &&& sim.session_started
}

/// The progress that a simulator reports.
pub open spec fn progress_of(sim: Simulator) -> GenerationProgress {
    GenerationProgress { event_count: sim.last_event_count, batch_pulse_count: sim.batch_pulse_count }
}

/// The reason given when the modulator is not random.
pub open spec fn modulator_not_random_reason() -> Seq<char> {
    "Modulator state must be Random for generating correlations."@
}

/// The reason given when no session runs.
pub open spec fn session_not_started_reason() -> Seq<char> {
    "Simulator session not started (time_of_start is None)."@
}

/// The reason given when the pulse counter would overflow.
pub open spec fn counter_overflow_reason() -> Seq<char> {
    "Simulator pulse counter would overflow."@
}

/// Builds the batch of the given draws: for each event the settings are the
/// draws modulo the number of angles, the result compares the outcome draw
/// with the overlap of the total phase and is flipped when the QBER draw is
/// below `qber_threshold`, and with decoy states (`Some(threshold)`) the event
/// is a decoy pulse when its intensity draw reaches the threshold.
pub fn correlate_draws(
    angles: &Vec<u8>,
    offset: u8,
    alice: &[u16; 1024],
    bob: &[u16; 1024],
    outcome: &[u16; 1024],
    qber: &[u16; 1024],
    decoy: &[u16; 1024],
    qber_threshold: u16,
    decoy_threshold: Option<u16>,
) -> (batch: QkdBatch)
    requires
        setting_count(angles@) != 0,
    ensures
        batch.base_gc == 0,
        batch.gc_step == 1,
        batch.wf(),
        batch_view(batch) == draws_view(
            angles@,
            offset,
            alice@,
            bob@,
            outcome@,
            qber@,
            decoy@,
            qber_threshold,
            decoy_threshold,
        ),
        forall|i: int| 0 <= i < 1024 ==> #[trigger] event_bits(batch.decoy_states)[i] == match decoy_threshold {
            Some(t) => decoy@[i] >= t,
            None => false,
        },
{
    let ghost expected = draws_view(
        angles@,
        offset,
        alice@,
        bob@,
        outcome@,
        qber@,
        decoy@,
        qber_threshold,
        decoy_threshold,
    );
    let table = overlap_probabilities();
    let len = angles.len();
    let count: u16 = len as u16;
    assert((len as u16) as usize <= len) by (bit_vector);
    let mut alice_state_index = [0u8; 1024];
    let mut bob_state_index = [0u8; 1024];
    let mut results = EventBits::new();
    let mut decoy_states = EventBits::new();
    let mut i: usize = 0;
    while i < BATCH
        invariant
            i <= 1024,
            len == angles@.len(),
            count as int == setting_count(angles@),
            count != 0,
            count <= len,
            table@ == overlap_table(),
            expected == draws_view(
                angles@,
                offset,
                alice@,
                bob@,
                outcome@,
                qber@,
                decoy@,
                qber_threshold,
                decoy_threshold,
            ),
            event_bits(results).len() == 1024,
            event_bits(decoy_states).len() == 1024,
            forall|j: int| 0 <= j < i ==> #[trigger] alice_state_index@[j] == expected.alice_state_index[j],
            forall|j: int| 0 <= j < i ==> #[trigger] bob_state_index@[j] == expected.bob_state_index[j],
            forall|j: int| 0 <= j < i ==> #[trigger] event_bits(results)[j] == expected.results[j],
            forall|j: int| 0 <= j < 1024 ==> #[trigger] event_bits(decoy_states)[j] == (
                j < i && expected.decoy_states[j]),
        decreases 1024 - i,
    {
        let alice_setting: usize = (alice[i] % count) as usize;
        let bob_setting: usize = (bob[i] % count) as usize;
        let sum: u32 = angles[alice_setting] as u32 + angles[bob_setting] as u32 + offset as u32;
        let phase: u8 = (sum as u8) & 127u8;
        assert(phase < 128) by (bit_vector)
            requires
                phase == (sum as u8) & 127u8,
        ;
        let probability_of_zero = table[phase as usize];
        let mut result = outcome[i] > probability_of_zero;
        if qber[i] < qber_threshold {
            result = !result;
        }
        alice_state_index[i] = alice_setting as u8;
        bob_state_index[i] = bob_setting as u8;
        results.set(i, result);
        match decoy_threshold {
            Some(threshold) => {
                decoy_states.set(i, decoy[i] >= threshold);
            },
            None => {},
        }
        assert(event_bits(results)[i as int] == expected.results[i as int]);
        i = i + 1;
    }
    let batch = QkdBatch {
        base_gc: 0,
        gc_step: 1,
        alice_state_index,
        bob_state_index,
        results,
        decoy_states,
    };
    assert(batch_view(batch).alice_state_index =~= expected.alice_state_index);
    assert(batch_view(batch).bob_state_index =~= expected.bob_state_index);
    assert(batch_view(batch).results =~= expected.results);
    assert(batch_view(batch).decoy_states =~= expected.decoy_states);
    batch
}

/// Draws one batch's blocks from the stream in `state` and builds the batch;
/// returns it with the stream's state afterwards.
pub fn correlate(
    angles: &Vec<u8>,
    offset: u8,
    state: u128,
    qber_threshold: u16,
    decoy_threshold: Option<u16>,
) -> (out: (QkdBatch, u128))
    requires
        setting_count(angles@) != 0,
    ensures
        out.0.base_gc == 0,
        out.0.gc_step == 1,
        out.0.wf(),
        batch_view(out.0) == correlation_view(angles@, offset, state, qber_threshold, decoy_threshold),
        out.1 == stream_state_after(state, blocks_per_batch(decoy_threshold)),
{
    proof {
        lemma_stream_state_step(state, 0);
        lemma_stream_state_step(state, 1);
        lemma_stream_state_step(state, 2);
        lemma_stream_state_step(state, 3);
        lemma_stream_state_step(state, 4);
        assert(stream_state_after(state, 0) == state);
    }
    let (alice, s1) = draw_u16_block(state);
    let (bob, s2) = draw_u16_block(s1);
    let (outcome, s3) = draw_u16_block(s2);
    let (qber, s4) = draw_u16_block(s3);
    let (decoy, next) = match decoy_threshold {
        Some(_) => draw_u16_block(s4),
        None => ([0u16; 1024], s4),
    };
    let batch = correlate_draws(
        angles,
        offset,
        &alice,
        &bob,
        &outcome,
        &qber,
        &decoy,
        qber_threshold,
        decoy_threshold,
    );
    proof {
        let v1 = batch_view(batch);
        let v2 = correlation_view(angles@, offset, state, qber_threshold, decoy_threshold);
        assert(v1.alice_state_index =~= v2.alice_state_index);
        assert(v1.bob_state_index =~= v2.bob_state_index);
        assert(v1.results =~= v2.results);
        assert(v1.decoy_states =~= v2.decoy_states);
    }
    (batch, next)
}

/// A simulator once a session was initialized: random modulation, a running
/// session, the pulse counter at zero, the rest as it was.
pub open spec fn session_initialized(sim: Simulator) -> Simulator {
    Simulator { modulator_state: ModulatorState::Random, session_started: true, last_event_count: 0, ..sim }
}

/// A simulator once its session ended: an idle modulator, no session, the
/// rest as it was.
pub open spec fn session_ended(sim: Simulator) -> Simulator {
    Simulator { modulator_state: ModulatorState::Idle, session_started: false, ..sim }
}

/// A simulator with the simulated attack on or off, the rest as it was.
pub open spec fn with_attack(sim: Simulator, on: bool) -> Simulator {
    Simulator { is_under_attack: on, ..sim }
}

impl Simulator {
    /// The angle table can be reduced modulo its length.
    pub open spec fn angles_usable(&self) -> bool {
        setting_count(self.angles@) != 0
    }

    /// Whether the angle table can be reduced modulo its length.
    pub fn angles_usable_exec(&self) -> (usable: bool)
        ensures
            usable == self.angles_usable(),
    {
        (self.angles.len() as u16) != 0
    }

    /// Whether the simulator is in a session with random modulation.
    pub fn can_generate(&self) -> (ready: bool)
        ensures
            ready == ready_to_generate(*self),
    {
        self.modulator_state == ModulatorState::Random && self.session_started
    }

    /// The GC step of this simulator's batches.
    pub fn gc_step(&self) -> (step: u64)
        ensures
            step == gc_step_of(self.batch_pulse_count),
            step >= 1,
    {
        let per_event = self.batch_pulse_count / 1024;
        if per_event >= 1 { per_event } else { 1 }
    }

    /// The progress of the generation: the pulses consumed since the session
    /// started, and the pulses per batch.
    pub fn generation_progress(&self) -> (progress: GenerationProgress)
        ensures
            progress == progress_of(*self),
    {
        GenerationProgress { event_count: self.last_event_count, batch_pulse_count: self.batch_pulse_count }
    }

    /// Starts the simulated attack: the QBER is forced to 50%.
    pub fn start_attack(&mut self)
        ensures
            *final(self) == with_attack(*old(self), true),
    {
        self.is_under_attack = true;
    }

    /// Stops the simulated attack: the configured QBER applies again.
    pub fn stop_attack(&mut self)
        ensures
            *final(self) == with_attack(*old(self), false),
    {
        self.is_under_attack = false;
    }

    /// Whether GCR records are padded.
    pub fn use_gcr_padding(&self) -> (padding: bool)
        ensures
            padding == self.use_gcr_padding,
    {
        self.use_gcr_padding
    }

    /// Replaces the angle table with the four configured angles.
    pub fn set_angles(&mut self, angles_config: [u8; 4]) -> (r: Result<(), SimulationError>)
        ensures
            r is Ok,
            *final(self) == (Simulator { angles: final(self).angles, ..*old(self) }),
            final(self).angles@ == angles_config@,
    {
        let mut angles: Vec<u8> = Vec::new();
        let mut i: usize = 0;
        while i < 4
            invariant
                i <= 4,
                angles@ == angles_config@.subrange(0, i as int),
            decreases 4 - i,
        {
            angles.push(angles_config[i]);
            i = i + 1;
        }
        assert(angles@ =~= angles_config@);
        self.angles = angles;
        Ok(())
    }

    /// Prepares a generation session: random modulation, a running session
    /// and a pulse counter at zero. The random stream is left where it is, so
    /// a restarted session continues it instead of replaying it.
    pub fn initialize_session(&mut self) -> (r: Result<(), SimulationError>)
        ensures
            r is Ok,
            *final(self) == session_initialized(*old(self)),
    {
        self.session_started = true;
        self.modulator_state = ModulatorState::Random;
        self.last_event_count = 0;
        Ok(())
    }

    /// Ends the generation session: the modulator goes idle. The random
    /// stream and the pulse counter are left where they are.
    pub fn setup_session_end(&mut self) -> (r: Result<(), SimulationError>)
        ensures
            r is Ok,
            *final(self) == session_ended(*old(self)),
    {
        self.modulator_state = ModulatorState::Idle;
        self.session_started = false;
        Ok(())
    }
}


impl Simulator {
    /// Generates the next batch of correlated events (settings and results)
    /// from the random stream. The QBER threshold is `configured_qber_threshold`,
    /// or half of `u16::MAX` under attack. The batch has the placeholder GC
    /// values `base_gc = 0` and `gc_step = 1`; `generate_batch` gives the
    /// hardware GC values and advances the pulse counter.
    pub fn generate_correlation_batch(&mut self, configured_qber_threshold: u16) -> (r: Result<QkdBatch, ProtocolError>)
        requires
            old(self).modulator_state == ModulatorState::Random ==> old(self).angles_usable(),
        ensures
            old(self).modulator_state != ModulatorState::Random ==> {
                &&& r matches Err(ProtocolError::Role { reason }) && reason@ == modulator_not_random_reason()
                &&& *final(self) == *old(self)
            },
            old(self).modulator_state == ModulatorState::Random ==> {
                &&& r matches Ok(batch) && batch.base_gc == 0 && batch.gc_step == 1 && batch.wf()
                    && batch_view(batch) == next_batch_view(*old(self), configured_qber_threshold)
                &&& *final(self) == (Simulator {
                    rng_state: stream_state_after(old(self).rng_state, blocks_per_batch(old(self).decoy_threshold)),
                    ..*old(self)
                })
            },
    {
        if self.modulator_state != ModulatorState::Random {
            let reason = "Modulator state must be Random for generating correlations.".to_owned();
            return Err(ProtocolError::Role { reason });
        }
        let qber_threshold = if self.is_under_attack { ATTACK_QBER_THRESHOLD } else { configured_qber_threshold };
        let (batch, next_state) = correlate(
            &self.angles,
            self.phase_offset,
            self.rng_state,
            qber_threshold,
            self.decoy_threshold,
        );
        self.rng_state = next_state;
        Ok(batch)
    }

    /// Generates one batch with its hardware GC values and advances the pulse
    /// counter by one batch. The batch starts at `gc_offset` plus the pulses
    /// consumed so far, and its events are `gc_step` pulses apart.
    ///
    /// Fails, leaving the simulator unchanged, when the modulator is not
    /// random, when no session runs, or when the counters would overflow.
    pub fn generate_batch(&mut self, configured_qber_threshold: u16) -> (r: Result<QkdBatch, SimulationError>)
        requires
            ready_to_generate(*old(self)) && counters_fit(*old(self), 1) ==> old(self).angles_usable(),
        ensures
            old(self).modulator_state != ModulatorState::Random ==> r == Err::<QkdBatch, SimulationError>(
                SimulationError::HardwareError { source: HardwareError::ModulatorStateNotSupported },
            ),
            old(self).modulator_state == ModulatorState::Random && !old(self).session_started ==> (
                r matches Err(SimulationError::HardwareError { source: HardwareError::Other { reason } })
                && reason@ == session_not_started_reason()),
            ready_to_generate(*old(self)) && !counters_fit(*old(self), 1) ==> (
                r matches Err(SimulationError::HardwareError { source: HardwareError::Other { reason } })
                && reason@ == counter_overflow_reason()),
            r is Err ==> *final(self) == *old(self),
            r is Ok <==> ready_to_generate(*old(self)) && counters_fit(*old(self), 1),
            r matches Ok(batch) ==> {
                &&& batch.wf()
                &&& batch.base_gc == old(self).gc_offset + old(self).last_event_count
                &&& batch.gc_step == gc_step_of(old(self).batch_pulse_count)
                &&& batch.base_gc + 1023 * batch.gc_step <= u64::MAX
                &&& batch_view(batch) == next_batch_view(*old(self), configured_qber_threshold)
                &&& *final(self) == after_batches(*old(self), 1)
            },
    {
        if self.modulator_state != ModulatorState::Random {
            return Err(SimulationError::HardwareError { source: HardwareError::ModulatorStateNotSupported });
        }
        if !self.session_started {
            let reason = "Simulator session not started (time_of_start is None).".to_owned();
            return Err(SimulationError::HardwareError { source: HardwareError::Other { reason } });
        }
        let gc_step = self.gc_step();
        let fits = self.last_event_count <= u64::MAX - self.batch_pulse_count
            && self.gc_offset <= u64::MAX - self.last_event_count
            && (gc_step as u128) * 1023 <= (u64::MAX - self.gc_offset - self.last_event_count) as u128;
        if !fits {
            let reason = "Simulator pulse counter would overflow.".to_owned();
            return Err(SimulationError::HardwareError { source: HardwareError::Other { reason } });
        }
        let base_gc = self.gc_offset + self.last_event_count;
        let batch_pulse_count = self.batch_pulse_count;
        let result = self.generate_correlation_batch(configured_qber_threshold);
        match result {
            Ok(inner) => {
                self.last_event_count = self.last_event_count + batch_pulse_count;
                let batch = QkdBatch { base_gc, gc_step, ..inner };
                assert(batch_view(batch) == batch_view(inner));
                Ok(batch)
            },
            Err(_) => {
                proof {
                    assert(false);
                }
                Err(SimulationError::HardwareError { source: HardwareError::ModulatorStateNotSupported })
            },
        }
    }

    /// Generates and drops one batch per given QBER threshold, so that a
    /// simulator that lags behind its peer catches up with the peer's random
    /// stream and pulse counter. Stops at the first batch that cannot be
    /// generated.
    pub fn discard_batches(&mut self, qber_thresholds: &Vec<u16>) -> (r: Result<(), SimulationError>)
        requires
            qber_thresholds.len() > 0 && ready_to_generate(*old(self)) ==> old(self).angles_usable(),
        ensures
            r is Ok <==> qber_thresholds.len() == 0 || (ready_to_generate(*old(self)) && counters_fit(
                *old(self),
                qber_thresholds.len() as nat,
            )),
            r is Ok ==> *final(self) == after_batches(*old(self), qber_thresholds.len() as nat),
            r is Err ==> exists|k: nat|
                k < qber_thresholds.len() && counters_fit(*old(self), k) && #[trigger] after_batches(*old(self), k)
                    == *final(self),
            !ready_to_generate(*old(self)) ==> *final(self) == *old(self),
            qber_thresholds.len() > 0 && old(self).modulator_state != ModulatorState::Random ==> r == Err::<
                (),
                SimulationError,
            >(SimulationError::HardwareError { source: HardwareError::ModulatorStateNotSupported }),
            qber_thresholds.len() > 0 && old(self).modulator_state == ModulatorState::Random
                && !old(self).session_started ==> (r matches Err(
                SimulationError::HardwareError { source: HardwareError::Other { reason } },
            ) && reason@ == session_not_started_reason()),
            qber_thresholds.len() > 0 && ready_to_generate(*old(self)) && !counters_fit(
                *old(self),
                qber_thresholds.len() as nat,
            ) ==> (r matches Err(SimulationError::HardwareError { source: HardwareError::Other { reason } })
                && reason@ == counter_overflow_reason()),
    {
        let count = qber_thresholds.len();
        let mut k: usize = 0;
        proof {
            lemma_after_zero_batches(*self);
        }
        while k < count
            invariant
                k <= count,
                count == qber_thresholds.len(),
                count > 0 && ready_to_generate(*old(self)) ==> old(self).angles_usable(),
                self.angles == old(self).angles,
                *self == after_batches(*old(self), k as nat),
                k > 0 ==> ready_to_generate(*old(self)) && counters_fit(*old(self), k as nat),
            decreases count - k,
        {
            let ghost before = *self;
            let result = self.generate_batch(qber_thresholds[k]);
            match result {
                Ok(_) => {
                    proof {
                        lemma_counters_fit_step(*old(self), k as nat);
                        let bpc = old(self).batch_pulse_count;
                        assert((k + 1) as nat * bpc == k as nat * bpc + bpc) by (nonlinear_arith);
                        lemma_after_batches_add(*old(self), k as nat, 1);
                    }
                },
                Err(e) => {
                    proof {
                        lemma_counters_fit_step(*old(self), k as nat);
                        if counters_fit(*old(self), count as nat) {
                            lemma_counters_fit_mono(*old(self), (k + 1) as nat, count as nat);
                        }
                        if k == 0 {
                            lemma_after_zero_batches(*old(self));
                        }
                        assert(after_batches(*old(self), k as nat) == *self);
                    }
                    return Err(e);
                },
            }
            k = k + 1;
        }
        Ok(())
    }
}

/// Where a synchronization generates its batches: in the simulator's own
/// session when it is generating, else in a session of its own that starts
/// the pulse counter at zero.
pub open spec fn synchronization_start(sim: Simulator) -> Simulator {
    if ready_to_generate(sim) { sim } else { session_initialized(sim) }
}

/// The simulator after a synchronization that generated `k` batches: a
/// session of its own is ended afterwards.
pub open spec fn synchronized_after(sim: Simulator, k: nat) -> Simulator {
    if ready_to_generate(sim) {
        after_batches(sim, k)
    } else {
        session_ended(after_batches(session_initialized(sim), k))
    }
}

/// Whether a synchronization that discards `n` batches succeeds.
pub open spec fn synchronization_succeeds(sim: Simulator, n: nat) -> bool {
    n == 0 || (counters_fit(synchronization_start(sim), n) && sim.angles_usable())
}

impl Simulator {
    /// Whether the counters, starting from `last_event_count`, leave room
    /// for `n` more batches.
    fn fits_from(&self, last_event_count: u64, n: u64) -> (fits: bool)
        ensures
            fits == counters_fit(Simulator { last_event_count, ..*self }, n as nat),
    {
        if n == 0 {
            return true;
        }
        let bpc = self.batch_pulse_count;
        let step = self.gc_step();
        assert((n as int) * (bpc as int) <= 0xFFFF_FFFF_FFFF_FFFF * 0xFFFF_FFFF_FFFF_FFFF) by (nonlinear_arith)
            requires
                n <= 0xFFFF_FFFF_FFFF_FFFFu64,
                bpc <= 0xFFFF_FFFF_FFFF_FFFFu64,
        ;
        let total: u128 = (n as u128) * (bpc as u128);
        if (last_event_count as u128) + total > 0xFFFF_FFFF_FFFF_FFFFu128 {
            return false;
        }
        assert((n as int) * (bpc as int) - (bpc as int) == ((n - 1) as int) * (bpc as int)) by (nonlinear_arith);
        assert(((n - 1) as int) * (bpc as int) >= 0) by (nonlinear_arith)
            requires
                n >= 1,
        ;
        let previous: u128 = total - (bpc as u128);
        let end: u128 = (self.gc_offset as u128) + (last_event_count as u128) + previous + 1023 * (step as u128);
        end <= 0xFFFF_FFFF_FFFF_FFFFu128
    }

    /// Whether `n` more batches can be generated now: a running session with
    /// random modulation, counters with room, and a usable angle table.
    pub fn batches_possible(&self, n: u64) -> (possible: bool)
        ensures
            possible == (ready_to_generate(*self) && counters_fit(*self, n as nat) && self.angles_usable()),
    {
        let fits = self.fits_from(self.last_event_count, n);
        assert((Simulator { last_event_count: self.last_event_count, ..*self }) == *self);
        self.can_generate() && fits && self.angles_usable_exec()
    }

    /// Whether discarding `n` batches to synchronize would succeed.
    pub fn synchronization_possible(&self, n: u64) -> (possible: bool)
        ensures
            possible == synchronization_succeeds(*self, n as nat),
    {
        if n == 0 {
            return true;
        }
        let start_count = if self.can_generate() { self.last_event_count } else { 0 };
        let fits = self.fits_from(start_count, n);
        proof {
            if ready_to_generate(*self) {
                assert((Simulator { last_event_count: self.last_event_count, ..*self }) == *self);
            } else {
                assert(counters_fit(session_initialized(*self), n as nat) == counters_fit(
                    Simulator { last_event_count: 0, ..*self },
                    n as nat,
                ));
            }
        }
        fits && self.angles_usable_exec()
    }

    /// Discards one batch per QBER threshold so that the random stream and
    /// the pulse counter catch up with a peer's. A simulator that is not
    /// generating (its session was stopped for a recalibration pause)
    /// discards in a session of its own, started for the purpose and ended
    /// afterwards; the next session restarts the pulse counter anyway.
    pub fn synchronize_streams(&mut self, qber_thresholds: &Vec<u16>) -> (r: Result<(), SimulationError>)
        requires
            qber_thresholds.len() > 0 ==> old(self).angles_usable(),
        ensures
            r is Ok <==> synchronization_succeeds(*old(self), qber_thresholds.len() as nat),
            qber_thresholds.len() == 0 ==> *final(self) == *old(self),
            qber_thresholds.len() > 0 && r is Ok ==> *final(self) == synchronized_after(
                *old(self),
                qber_thresholds.len() as nat,
            ),
            r is Err ==> exists|k: nat|
                k < qber_thresholds.len() && counters_fit(synchronization_start(*old(self)), k)
                    && #[trigger] synchronized_after(*old(self), k) == *final(self),
            r is Err ==> (r matches Err(SimulationError::HardwareError { source: HardwareError::Other { reason } })
                && reason@ == counter_overflow_reason()),
    {
        let count = qber_thresholds.len();
        if count == 0 {
            return Ok(());
        }
        if self.can_generate() {
            let result = self.discard_batches(qber_thresholds);
            proof {
                if result is Err {
                    let k = choose|k: nat|
                        k < count && counters_fit(*old(self), k) && #[trigger] after_batches(*old(self), k) == *self;
                    assert(synchronized_after(*old(self), k) == *self);
                }
            }
            return result;
        }
        let ghost s0 = session_initialized(*self);
        let _ = self.initialize_session();
        let result = self.discard_batches(qber_thresholds);
        let ghost mid = *self;
        let _ = self.setup_session_end();
        proof {
            if result is Err {
                let k = choose|k: nat|
                    k < count && counters_fit(s0, k) && #[trigger] after_batches(s0, k) == mid;
                assert(synchronized_after(*old(self), k) == *self);
            }
        }
        result
    }
}

/// Generating no batch leaves a simulator as it is.
pub proof fn lemma_after_zero_batches(sim: Simulator)
    ensures
        after_batches(sim, 0) == sim,
{
    assert(stream_state_after(sim.rng_state, 0) == sim.rng_state);
}

/// Generating `a` batches and then `b` more is generating `a + b` batches.
pub proof fn lemma_after_batches_add(sim: Simulator, a: nat, b: nat)
    requires
        sim.last_event_count + (a + b) * sim.batch_pulse_count <= u64::MAX,
    ensures
        after_batches(after_batches(sim, a), b) == after_batches(sim, a + b),
{
    let per = blocks_per_batch(sim.decoy_threshold);
    lemma_stream_state_add(sim.rng_state, a * per, b * per);
    assert(a * per + b * per == (a + b) * per) by (nonlinear_arith);
    assert(a * sim.batch_pulse_count + b * sim.batch_pulse_count == (a + b) * sim.batch_pulse_count)
        by (nonlinear_arith);
    assert(a * sim.batch_pulse_count <= (a + b) * sim.batch_pulse_count) by (nonlinear_arith);
}

/// The counters fit for `k + 1` batches exactly when they fit for `k` and the
/// simulator after `k` batches has room for one more.
proof fn lemma_counters_fit_step(sim: Simulator, k: nat)
    requires
        counters_fit(sim, k),
        k > 0 ==> sim.last_event_count + k * sim.batch_pulse_count <= u64::MAX,
    ensures
        counters_fit(sim, k + 1) == counters_fit(after_batches(sim, k), 1),
{
    assert((k + 1) * sim.batch_pulse_count == k * sim.batch_pulse_count + sim.batch_pulse_count)
        by (nonlinear_arith);
    assert(k * sim.batch_pulse_count >= 0) by (nonlinear_arith);
}

/// Room for `m` batches leaves room for fewer.
proof fn lemma_counters_fit_mono(sim: Simulator, k: nat, m: nat)
    requires
        counters_fit(sim, m),
        k <= m,
    ensures
        counters_fit(sim, k),
{
    if k > 0 {
        assert(k * sim.batch_pulse_count <= m * sim.batch_pulse_count) by (nonlinear_arith)
            requires
                k <= m,
        ;
        assert((k - 1) * sim.batch_pulse_count <= (m - 1) * sim.batch_pulse_count) by (nonlinear_arith)
            requires
                k <= m,
                k > 0,
        ;
    }
}

/// With decoy states enabled at threshold `t` (the probability of the signal
/// intensity scaled to `u16::MAX`), an event is a decoy pulse exactly when
/// its intensity draw reaches `t`, so decoys are the draws in `t..=u16::MAX`;
/// without decoy states no event is a decoy.
pub proof fn law_decoy_pulses_are_draws_at_or_above_the_threshold(
    angles: Seq<u8>,
    offset: u8,
    alice: Seq<u16>,
    bob: Seq<u16>,
    outcome: Seq<u16>,
    qber: Seq<u16>,
    decoy: Seq<u16>,
    qber_threshold: u16,
    decoy_threshold: Option<u16>,
    i: int,
)
    requires
        0 <= i < 1024,
    ensures
        draws_view(angles, offset, alice, bob, outcome, qber, decoy, qber_threshold, decoy_threshold).decoy_states.len()
            == 1024,
        decoy_threshold matches Some(t) ==> (draws_view(
            angles,
            offset,
            alice,
            bob,
            outcome,
            qber,
            decoy,
            qber_threshold,
            decoy_threshold,
        ).decoy_states[i] <==> t <= decoy[i]),
        decoy_threshold is None ==> !draws_view(
            angles,
            offset,
            alice,
            bob,
            outcome,
            qber,
            decoy,
            qber_threshold,
            decoy_threshold,
        ).decoy_states[i],
{
}

/// A batch reads the stream's blocks in a fixed order: the first block
/// picks Alice's settings, the second Bob's, the third is compared with the
/// overlap of the event's phase to give the raw outcome, the fourth flips
/// the outcome when it falls below the QBER threshold, and the fifth picks
/// the decoy pulses (those at or above the decoy threshold).
pub proof fn law_batch_reads_its_blocks_in_order(
    angles: Seq<u8>,
    offset: u8,
    state: u128,
    qber_threshold: u16,
    decoy_threshold: Option<u16>,
    i: int,
)
    requires
        0 <= i < 1024,
    ensures
        ({
            let v = correlation_view(angles, offset, state, qber_threshold, decoy_threshold);
            let a = (stream_block(state, 0)[i] as int) % setting_count(angles);
            let b = (stream_block(state, 1)[i] as int) % setting_count(angles);
            let overlap = overlap_table()[total_phase(angles, offset, a, b) as int];
            &&& v.alice_state_index[i] == a as u8
            &&& v.bob_state_index[i] == b as u8
            &&& v.results[i] == ((stream_block(state, 2)[i] > overlap) != (stream_block(state, 3)[i]
                < qber_threshold))
            &&& v.decoy_states[i] == match decoy_threshold {
                Some(t) => stream_block(state, 4)[i] >= t,
                None => false,
            }
        }),
{
}

/// Alice's and Bob's simulators stay correlated: two simulators that agree
/// on the angle table, the phase offset, the random stream, the attack and
/// the decoy setting generate the same next batch, whatever their roles,
/// counters or padding.
pub proof fn law_same_stream_same_batch(a: Simulator, b: Simulator, configured_qber_threshold: u16)
    requires
        a.angles@ == b.angles@,
        a.phase_offset == b.phase_offset,
        a.rng_state == b.rng_state,
        a.is_under_attack == b.is_under_attack,
        a.decoy_threshold == b.decoy_threshold,
    ensures
        next_batch_view(a, configured_qber_threshold) == next_batch_view(b, configured_qber_threshold),
{
}

/// A session restart does not replay the random stream: ending a session
/// and starting a new one leaves the stream where it was, so the next batch
/// is the one an uninterrupted simulator would generate, and the pulse
/// counter starts again at zero.
pub proof fn law_restart_continues_stream(sim: Simulator, configured_qber_threshold: u16)
    ensures
        next_batch_view(session_initialized(session_ended(sim)), configured_qber_threshold)
            == next_batch_view(sim, configured_qber_threshold),
        session_initialized(session_ended(sim)).rng_state == sim.rng_state,
        progress_of(session_initialized(session_ended(sim))).event_count == 0,
{
}

/// Under attack the QBER is half of `u16::MAX` whatever is configured, and
/// stopping the attack restores the configured QBER.
pub proof fn law_attack_forces_half_qber(sim: Simulator, configured: u16, other: u16)
    ensures
        next_batch_view(with_attack(sim, true), configured) == next_batch_view(with_attack(sim, true), other),
        next_batch_view(with_attack(sim, true), configured) == next_batch_view(
            with_attack(sim, false),
            ATTACK_QBER_THRESHOLD,
        ),
        next_batch_view(with_attack(with_attack(sim, true), false), configured) == next_batch_view(
            with_attack(sim, false),
            configured,
        ),
{
}

/// A simulator that lags `gap` batches behind a peer that started alike
/// catches up by discarding `gap` batches: it then holds the peer's random
/// stream and pulse counter, so both generate the same batches again.
pub proof fn law_discarding_the_gap_resynchronizes(start: Simulator, behind: nat, gap: nat)
    requires
        start.last_event_count + (behind + gap) * start.batch_pulse_count <= u64::MAX,
    ensures
        after_batches(after_batches(start, behind), gap) == after_batches(start, behind + gap),
        progress_of(after_batches(start, behind + gap)).event_count == progress_of(
            after_batches(start, behind),
        ).event_count + gap * start.batch_pulse_count,
{
    lemma_after_batches_add(start, behind, gap);
    assert(behind * start.batch_pulse_count + gap * start.batch_pulse_count == (behind + gap)
        * start.batch_pulse_count) by (nonlinear_arith);
    assert(behind * start.batch_pulse_count <= (behind + gap) * start.batch_pulse_count)
        by (nonlinear_arith);
}

} // verus!
