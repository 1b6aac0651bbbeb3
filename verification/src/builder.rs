//! Building a simulator.
use vstd::prelude::*;
use crate::config::{spec_phase_steps, SourceSettingOffset};
use crate::rng::{pcg_seed_state, seed_state};
use crate::simulation::{ModulatorState, Simulator, SimulatorMode};

verus! {

/// The seed of the random stream when none is configured.
pub const DEFAULT_SEED: u64 = 42;

/// The settings of a simulator to build.
#[derive(Debug, Clone, PartialEq, Eq)]
pub struct SimulatorBuilder {
    pub angles: Vec<u8>,
    pub source_setting_offset: SourceSettingOffset,
    pub modulator_state: ModulatorState,
    /// The state of the random stream.
    pub rng_state: u128,
    pub mode: SimulatorMode,
    /// The laser pulses that one batch of 1024 detections consumes.
    pub batch_pulse_count: u64,
    /// The hardware GC value at which a session starts.
    pub gc_offset: u64,
    pub use_gcr_padding: bool,
    pub use_rate_limiter: bool,
    /// `u16::MAX` scaled probability of a signal pulse, `None` without decoy
    /// states.
    pub decoy_threshold: Option<u16>,
}

/// The simulator that a builder builds.
pub open spec fn built(b: SimulatorBuilder) -> Simulator {
    Simulator {
        angles: b.angles,
        phase_offset: spec_phase_steps(b.source_setting_offset),
        modulator_state: b.modulator_state,
        rng_state: b.rng_state,
        simulator_mode: b.mode,
        session_started: false,
        last_event_count: 0,
        batch_pulse_count: b.batch_pulse_count,
        gc_offset: b.gc_offset,
        use_gcr_padding: b.use_gcr_padding,
        rate_limiting_enabled: b.use_rate_limiter,
        is_under_attack: false,
        decoy_threshold: b.decoy_threshold,
    }
}

impl SimulatorBuilder {
    /// The default settings: no angles, a quarter-turn offset, an idle
    /// modulator, the stream of seed 42, the source role, one pulse per
    /// detection (1024 per batch), GC offset 0, padded GCR records, rate
    /// limiting, and no decoy states.
    pub fn new() -> (b: SimulatorBuilder)
        ensures
            b.angles@ == Seq::<u8>::empty(),
            b.source_setting_offset == SourceSettingOffset::QuarterTurn,
            b.modulator_state == ModulatorState::Idle,
            b.rng_state == pcg_seed_state(DEFAULT_SEED),
            b.mode == SimulatorMode::Source,
            b.batch_pulse_count == 1024,
            b.gc_offset == 0,
            b.use_gcr_padding,
            b.use_rate_limiter,
            b.decoy_threshold is None,
    {
        SimulatorBuilder {
            angles: Vec::new(),
            source_setting_offset: SourceSettingOffset::QuarterTurn,
            modulator_state: ModulatorState::Idle,
            rng_state: seed_state(DEFAULT_SEED),
            mode: SimulatorMode::Source,
            batch_pulse_count: 1024,
            gc_offset: 0,
            use_gcr_padding: true,
            use_rate_limiter: true,
            decoy_threshold: None,
        }
    }

    /// Builds the simulator: no session, no attack, the pulse counter at zero.
    pub fn build(&self) -> (sim: Simulator)
        ensures
            sim == (Simulator { angles: sim.angles, ..built(*self) }),
            sim.angles@ == self.angles@,
    {
        Simulator {
            angles: self.angles.clone(),
            phase_offset: self.source_setting_offset.phase_steps(),
            modulator_state: self.modulator_state,
            rng_state: self.rng_state,
            simulator_mode: self.mode,
            session_started: false,
            last_event_count: 0,
            batch_pulse_count: self.batch_pulse_count,
            gc_offset: self.gc_offset,
            use_gcr_padding: self.use_gcr_padding,
            rate_limiting_enabled: self.use_rate_limiter,
            is_under_attack: false,
            decoy_threshold: self.decoy_threshold,
        }
    }

    pub fn with_angles(self, angles: Vec<u8>) -> (b: Self)
        ensures
            b == (SimulatorBuilder { angles, ..self }),
    {
        SimulatorBuilder { angles, ..self }
    }

    pub fn with_source_setting_offset(self, offset: SourceSettingOffset) -> (b: Self)
        ensures
            b == (SimulatorBuilder { source_setting_offset: offset, ..self }),
    {
        SimulatorBuilder { source_setting_offset: offset, ..self }
    }

    pub fn with_modulator_state(self, state: ModulatorState) -> (b: Self)
        ensures
            b == (SimulatorBuilder { modulator_state: state, ..self }),
    {
        SimulatorBuilder { modulator_state: state, ..self }
    }

    /// Starts the random stream from the state that `seed_from_u64(seed)`
    /// gives.
    pub fn with_rng_seed(self, seed: u64) -> (b: Self)
        ensures
            b == (SimulatorBuilder { rng_state: pcg_seed_state(seed), ..self }),
    {
        SimulatorBuilder { rng_state: seed_state(seed), ..self }
    }

    pub fn with_mode(self, mode: SimulatorMode) -> (b: Self)
        ensures
            b == (SimulatorBuilder { mode, ..self }),
    {
        SimulatorBuilder { mode, ..self }
    }

    pub fn with_batch_pulse_count(self, batch_pulse_count: u64) -> (b: Self)
        ensures
            b == (SimulatorBuilder { batch_pulse_count, ..self }),
    {
        SimulatorBuilder { batch_pulse_count, ..self }
    }

    pub fn with_gc_offset(self, gc_offset: u64) -> (b: Self)
        ensures
            b == (SimulatorBuilder { gc_offset, ..self }),
    {
        SimulatorBuilder { gc_offset, ..self }
    }

    pub fn with_gcr_padding(self, use_padding: bool) -> (b: Self)
        ensures
            b == (SimulatorBuilder { use_gcr_padding: use_padding, ..self }),
    {
        SimulatorBuilder { use_gcr_padding: use_padding, ..self }
    }

    pub fn with_rate_limiter(self, use_limiter: bool) -> (b: Self)
        ensures
            b == (SimulatorBuilder { use_rate_limiter: use_limiter, ..self }),
    {
        SimulatorBuilder { use_rate_limiter: use_limiter, ..self }
    }

    pub fn with_decoy_threshold(self, decoy_threshold: Option<u16>) -> (b: Self)
        ensures
            b == (SimulatorBuilder { decoy_threshold, ..self }),
    {
        SimulatorBuilder { decoy_threshold, ..self }
    }
}

} // verus!
