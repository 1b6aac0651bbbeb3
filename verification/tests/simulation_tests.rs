use hw_sim::actor::{handle_request, SimReply, SimRequest};
use hw_sim::bits::BATCH;
use hw_sim::builder::SimulatorBuilder;
use hw_sim::config::SourceSettingOffset;
use hw_sim::errors::{HardwareError, ProtocolError, SimulationError};
use hw_sim::overlap::overlap_probabilities;
use hw_sim::rng::seed_state;
use hw_sim::simulation::{
    correlate_draws, GenerationProgress, ModulatorState, Simulator, SimulatorMode,
    ATTACK_QBER_THRESHOLD, BATCH_SIZE,
};
use rand::{RngExt, SeedableRng};
use rand_pcg::Pcg64Mcg;
use std::collections::HashMap;
use std::f64::consts::PI;

fn threshold(qber: f64) -> u16 {
    (qber * (u16::MAX as f64)) as u16
}

fn result_bits(sim: &Simulator, batch: &hw_sim::batch::QkdBatch) -> Vec<u8> {
    batch
        .to_gcr_batch(sim.use_gcr_padding())
        .iter()
        .step_by(if sim.use_gcr_padding() { 2 } else { 1 })
        .map(|gcr| (gcr[6] >> 1) & 1)
        .collect()
}

#[test]
fn overlap_table_matches_the_cosine_model() {
    let table = overlap_probabilities();
    for (i, value) in table.iter().enumerate() {
        let angle_rad = (i as f64 / 128.0) * PI;
        let expected = (angle_rad.cos().powi(2) * (u16::MAX as f64)) as u16;
        assert_eq!(*value, expected, "entry {}", i);
    }
}

#[test]
fn the_stream_is_rand_pcgs_seeded_stream() {
    let mut sim = SimulatorBuilder::new()
        .with_angles(vec![0, 32, 64, 96])
        .with_rng_seed(7)
        .with_modulator_state(ModulatorState::Random)
        .build();
    assert_eq!(sim.rng_state, Pcg64Mcg::seed_from_u64(7).state());
    let batch = sim.generate_correlation_batch(0).unwrap();

    let mut reference = Pcg64Mcg::seed_from_u64(7);
    let mut alice = [0u16; BATCH];
    let mut bob = [0u16; BATCH];
    reference.fill(&mut alice);
    reference.fill(&mut bob);
    for i in 0..BATCH {
        assert_eq!(batch.alice_state_index[i], (alice[i] % 4) as u8);
        assert_eq!(batch.bob_state_index[i], (bob[i] % 4) as u8);
    }
    let mut outcome = [0u16; BATCH];
    let mut qber = [0u16; BATCH];
    reference.fill(&mut outcome);
    reference.fill(&mut qber);
    assert_eq!(sim.rng_state, reference.state());
}

#[test]
fn correlation_follows_the_draws() {
    let angles = vec![0u8, 32, 64, 96];
    let zeros = [0u16; BATCH];
    let mut alice = [0u16; BATCH];
    let bob = [0u16; BATCH];
    let mut outcome = [0u16; BATCH];
    let mut qber = [u16::MAX; BATCH];
    let mut decoy = [0u16; BATCH];
    alice[0] = 1; // 32 + 0 + 32 = 64: probability of 0 is 0, result 1 unless outcome is 0
    outcome[0] = 1;
    alice[1] = 3; // 96 + 0 + 32 = 128 & 127 = 0: probability of 0 is 1, result 0
    outcome[1] = u16::MAX;
    alice[2] = 6; // 6 % 4 = 2: 64 + 32 = 96
    outcome[2] = 32768; // probability of 0 at 96 is 32767
    qber[3] = 0; // flipped: phase 32, outcome 0 < 32767 gives 0, flipped to 1
    decoy[4] = 40000;
    let batch = correlate_draws(&angles, 32, &alice, &bob, &outcome, &qber, &decoy, 1, Some(30000));
    assert_eq!(batch.alice_state_index[0], 1);
    assert!(batch.results.get(0));
    assert!(!batch.results.get(1));
    assert_eq!(batch.alice_state_index[2], 2);
    assert!(batch.results.get(2));
    assert!(batch.results.get(3));
    assert!(!batch.results.get(5));
    assert!(batch.decoy_states.get(4));
    assert!(!batch.decoy_states.get(5));
    let no_decoy = correlate_draws(&angles, 32, &alice, &bob, &outcome, &qber, &decoy, 1, None);
    assert!(!no_decoy.decoy_states.get(4));
    let _ = zeros;
}

#[test]
fn builder_test_builder() {
    let sim = SimulatorBuilder::new()
        .with_gc_offset(3)
        .with_mode(SimulatorMode::Detector)
        .with_rng_seed(5)
        .with_batch_pulse_count(79)
        .with_modulator_state(ModulatorState::Random)
        .with_angles(vec![0, 32, 34, 96])
        .with_gcr_padding(false)
        .with_rate_limiter(false)
        .build();

    assert_eq!(
        Simulator {
            angles: vec![0, 32, 34, 96],
            phase_offset: 32,
            modulator_state: ModulatorState::Random,
            rng_state: seed_state(5),
            simulator_mode: SimulatorMode::Detector,
            session_started: false,
            last_event_count: 0,
            batch_pulse_count: 79,
            gc_offset: 3,
            use_gcr_padding: false,
            rate_limiting_enabled: false,
            is_under_attack: false,
            decoy_threshold: None,
        },
        sim
    )
}

fn uniform_oscillation(rng: &mut Pcg64Mcg) -> u16 {
    threshold(rng.random_range(0.01..=0.10))
}

#[test]
fn session_restart_preserves_rng_state() {
    let make_simulator = || {
        SimulatorBuilder::new()
            .with_angles(vec![0, 32, 64, 96])
            .with_rng_seed(42)
            .build()
    };
    let mut restarted = make_simulator();
    let mut uninterrupted = make_simulator();
    let mut restarted_qber = Pcg64Mcg::seed_from_u64(42);
    let mut uninterrupted_qber = Pcg64Mcg::seed_from_u64(42);

    restarted.initialize_session().unwrap();
    uninterrupted.initialize_session().unwrap();
    let first_batch =
        restarted.generate_correlation_batch(uniform_oscillation(&mut restarted_qber)).unwrap();
    let expected_first_batch = uninterrupted
        .generate_correlation_batch(uniform_oscillation(&mut uninterrupted_qber))
        .unwrap();
    assert_eq!(first_batch, expected_first_batch);

    restarted.setup_session_end().unwrap();
    restarted.initialize_session().unwrap();
    let second_batch =
        restarted.generate_correlation_batch(uniform_oscillation(&mut restarted_qber)).unwrap();
    let expected_second_batch = uninterrupted
        .generate_correlation_batch(uniform_oscillation(&mut uninterrupted_qber))
        .unwrap();

    assert_eq!(second_batch, expected_second_batch);
    assert_ne!(
        first_batch.alice_state_index, second_batch.alice_state_index,
        "A session restart must not replay the first random batch"
    );
}

#[test]
fn discarding_missing_batches_resynchronizes_random_streams() {
    let make_simulator = || {
        SimulatorBuilder::new()
            .with_angles(vec![0, 32, 64, 96])
            .with_rng_seed(42)
            .with_rate_limiter(false)
            .build()
    };
    let mut ahead = make_simulator();
    let mut lagging = make_simulator();
    let mut ahead_qber = Pcg64Mcg::seed_from_u64(42);
    let mut lagging_qber = Pcg64Mcg::seed_from_u64(42);

    ahead.initialize_session().unwrap();
    lagging.initialize_session().unwrap();
    for _ in 0..5 {
        ahead.generate_batch(uniform_oscillation(&mut ahead_qber)).unwrap();
    }

    let ahead_progress = ahead.generation_progress();
    let lagging_progress = lagging.generation_progress();
    let missing_batches = (ahead_progress.event_count - lagging_progress.event_count)
        / ahead_progress.batch_pulse_count;
    let thresholds: Vec<u16> =
        (0..missing_batches).map(|_| uniform_oscillation(&mut lagging_qber)).collect();
    lagging.discard_batches(&thresholds).unwrap();

    assert_eq!(ahead.generation_progress(), lagging.generation_progress());
    assert_eq!(
        ahead.generate_correlation_batch(uniform_oscillation(&mut ahead_qber)).unwrap(),
        lagging.generate_correlation_batch(uniform_oscillation(&mut lagging_qber)).unwrap()
    );
}

#[test]
fn test_under_attack_qber() {
    let make_simulator = || SimulatorBuilder::new().with_angles(vec![0, 32, 64, 96]).build();
    let mut sim = make_simulator();
    let mut control = make_simulator();

    sim.initialize_session().unwrap();
    control.initialize_session().unwrap();
    sim.start_attack();
    let results_attack = sim.generate_correlation_batch(threshold(0.0)).unwrap().results;
    let results_control = control.generate_correlation_batch(threshold(0.0)).unwrap().results;

    let mut diffs = 0;
    for i in 0..1024 {
        if results_control.get(i) != results_attack.get(i) {
            diffs += 1;
        }
    }

    let calculated_qber = diffs as f64 / 1024.0;
    assert!(
        calculated_qber > 0.4 && calculated_qber < 0.6,
        "Attack QBER should be around 0.5, got {}",
        calculated_qber
    );

    assert!(sim.is_under_attack);
    sim.stop_attack();
    assert!(!sim.is_under_attack);
    assert_eq!(ATTACK_QBER_THRESHOLD, threshold(0.5));
}

#[test]
fn rng_streams_stay_synchronized_across_sessions() {
    let make = |mode| {
        SimulatorBuilder::new()
            .with_rng_seed(42)
            .with_mode(mode)
            .with_batch_pulse_count(102400)
            .with_angles(vec![0, 32, 64, 96])
            .with_modulator_state(ModulatorState::Random)
            .with_gcr_padding(false)
            .build()
    };
    let mut sim_a = make(SimulatorMode::Source);
    let mut sim_b = make(SimulatorMode::Detector);

    sim_a.initialize_session().unwrap();
    sim_b.initialize_session().unwrap();

    let batch_a1 = sim_a.generate_batch(0).unwrap();
    let batch_b1 = sim_b.generate_batch(0).unwrap();
    let angles_a1 = batch_a1.to_alice_fifo();
    let angles_b1 = batch_b1.to_alice_fifo();
    assert_eq!(batch_a1.gc_step, 100);
    assert_eq!(angles_a1, angles_b1, "Angle data for batch 1 should be identical");
    assert_eq!(
        result_bits(&sim_a, &batch_a1),
        result_bits(&sim_b, &batch_b1),
        "Result bits for batch 1 should be identical"
    );

    sim_a.setup_session_end().unwrap();
    sim_b.setup_session_end().unwrap();
    sim_a.initialize_session().unwrap();
    sim_b.initialize_session().unwrap();

    let batch_a2 = sim_a.generate_batch(0).unwrap();
    let batch_b2 = sim_b.generate_batch(0).unwrap();
    let angles_a2 = batch_a2.to_alice_fifo();
    let angles_b2 = batch_b2.to_alice_fifo();
    assert_eq!(angles_a2, angles_b2, "Angle data for batch 2 should be identical");
    assert_eq!(
        result_bits(&sim_a, &batch_a2),
        result_bits(&sim_b, &batch_b2),
        "Result bits for batch 2 should be identical"
    );
    assert_ne!(
        angles_a1, angles_a2,
        "A new session must continue the random stream instead of replaying batch 1"
    );

    sim_a.setup_session_end().unwrap();
    sim_b.setup_session_end().unwrap();
}

#[test]
fn source_angle_generation_consistency() {
    let make_sim = || {
        SimulatorBuilder::new()
            .with_rng_seed(12345)
            .with_mode(SimulatorMode::Source)
            .with_angles(vec![0, 32, 64, 96])
            .with_modulator_state(ModulatorState::Random)
            .build()
    };

    let mut sim_a = make_sim();
    let mut sim_b = make_sim();
    sim_a.initialize_session().unwrap();
    sim_b.initialize_session().unwrap();

    let angles_a = sim_a.generate_batch(0).unwrap().to_alice_fifo();
    let angles_b = sim_b.generate_batch(0).unwrap().to_alice_fifo();

    assert_eq!(
        angles_a, angles_b,
        "Two Source simulators with the same seed must produce identical angles"
    );
}

#[test]
fn test_quantum_correlation_and_qber() {
    for &qber in &[0.0, 0.05, 0.1, 0.25] {
        let seed = 42;
        let test_angles = vec![0u8, 32u8, 64u8, 96u8];
        let source_setting_offset = SourceSettingOffset::QuarterTurn;
        let num_events: usize = 100_000;

        let make = |mode| {
            SimulatorBuilder::new()
                .with_rng_seed(seed)
                .with_mode(mode)
                .with_angles(test_angles.clone())
                .with_source_setting_offset(source_setting_offset)
                .with_modulator_state(ModulatorState::Random)
                .build()
        };
        let mut sim_a = make(SimulatorMode::Source);
        let mut sim_b = make(SimulatorMode::Detector);

        let mut correlation_stats: HashMap<(u8, u8), (u32, u32)> = HashMap::new();
        for batch_idx in 0..num_events.div_ceil(BATCH) {
            let batch_a = sim_a.generate_correlation_batch(threshold(qber)).unwrap();
            let batch_b = sim_b.generate_correlation_batch(threshold(qber)).unwrap();
            let events_in_batch = BATCH.min(num_events - batch_idx * BATCH);

            for i in 0..events_in_batch {
                let result = batch_a.results.get(i);
                assert_eq!(result, batch_b.results.get(i), "Results must be identical");

                let angle_a = test_angles[batch_a.alice_state_index[i] as usize];
                let angle_b = test_angles[batch_b.bob_state_index[i] as usize];

                let stats = correlation_stats.entry((angle_a, angle_b)).or_insert((0, 0));
                if !result {
                    stats.0 += 1;
                } else {
                    stats.1 += 1;
                }
            }
        }

        let mut sorted_keys: Vec<_> = correlation_stats.keys().collect();
        sorted_keys.sort();
        for key in sorted_keys {
            let (angle_a, angle_b) = *key;
            let (zeros, ones) = correlation_stats[key];
            let total = zeros + ones;
            if total == 0 {
                continue;
            }
            let measured_prob_of_1 = ones as f64 / total as f64;
            let total_angle_offset =
                (angle_a as u32 + angle_b as u32 + source_setting_offset.phase_steps() as u32) as u8
                    & 127;
            let angle_rad = (total_angle_offset as f64 / 128.0) * PI;
            let ideal_prob_of_1 = angle_rad.sin().powi(2);
            if (ideal_prob_of_1 - 0.5).abs() < 1e-9 {
                assert!(
                    (measured_prob_of_1 - 0.5).abs() < 0.02,
                    "For 45-degree angles, probability of 1 should be 0.5"
                );
            } else {
                let measured_qber =
                    (measured_prob_of_1 - ideal_prob_of_1) / (1.0 - 2.0 * ideal_prob_of_1);
                assert!(
                    (measured_qber - qber).abs() < 0.02,
                    "Measured error rate should match configured QBER for angles ({}, {})",
                    angle_a,
                    angle_b
                );
            }
        }
    }
}

#[test]
fn test_qkd_attack_signal_flow() {
    let make = || {
        SimulatorBuilder::new()
            .with_rng_seed(42)
            .with_mode(SimulatorMode::Detector)
            .with_angles(vec![0, 32, 64, 96])
            .with_modulator_state(ModulatorState::Random)
            .with_gcr_padding(false)
            .build()
    };
    let mut sim = make();
    let mut control = make();
    let generate = |s: &mut Simulator| match handle_request(s, SimRequest::GenerateQkdBatch { qber_threshold: 0 }) {
        SimReply::Batch(Ok(batch)) => batch,
        other => panic!("unexpected reply {:?}", other),
    };

    assert_eq!(handle_request(&mut sim, SimRequest::StartSession), SimReply::Done(Ok(())));
    assert_eq!(handle_request(&mut control, SimRequest::StartSession), SimReply::Done(Ok(())));
    let normal = generate(&mut sim);
    let normal_control = generate(&mut control);
    assert_eq!(result_bits(&sim, &normal), result_bits(&control, &normal_control));

    assert_eq!(handle_request(&mut sim, SimRequest::StartAttack), SimReply::Done(Ok(())));
    let attack = generate(&mut sim);
    let attack_control = generate(&mut control);
    let a = result_bits(&sim, &attack);
    let c = result_bits(&control, &attack_control);
    let diffs = (0..BATCH_SIZE).filter(|&i| a[i] != c[i]).count();
    let qber_attack = diffs as f64 / BATCH_SIZE as f64;
    assert!(
        qber_attack > 0.4 && qber_attack < 0.6,
        "Attack QBER should be around 0.5, got {:.4}",
        qber_attack
    );

    assert_eq!(handle_request(&mut sim, SimRequest::StopAttack), SimReply::Done(Ok(())));
    let restored = generate(&mut sim);
    let restored_control = generate(&mut control);
    assert_eq!(
        result_bits(&sim, &restored),
        result_bits(&control, &restored_control),
        "Stopping the attack should restore the configured QBER"
    );

    assert_eq!(handle_request(&mut sim, SimRequest::StopSession), SimReply::Done(Ok(())));
}

#[test]
fn batches_need_random_modulation_and_a_session() {
    let mut sim = SimulatorBuilder::new().with_angles(vec![0, 32, 64, 96]).build();
    assert!(matches!(
        sim.generate_correlation_batch(0),
        Err(ProtocolError::Role { reason }) if reason == "Modulator state must be Random for generating correlations."
    ));
    assert_eq!(
        sim.generate_batch(0),
        Err(SimulationError::HardwareError { source: HardwareError::ModulatorStateNotSupported })
    );
    let mut sim = SimulatorBuilder::new()
        .with_angles(vec![0, 32, 64, 96])
        .with_modulator_state(ModulatorState::Random)
        .build();
    assert_eq!(
        sim.generate_batch(0),
        Err(SimulationError::HardwareError {
            source: HardwareError::Other {
                reason: "Simulator session not started (time_of_start is None).".to_string()
            }
        })
    );
    assert_eq!(
        sim.discard_batches(&vec![0, 0]),
        Err(SimulationError::HardwareError {
            source: HardwareError::Other {
                reason: "Simulator session not started (time_of_start is None).".to_string()
            }
        })
    );
    assert_eq!(sim.discard_batches(&vec![]), Ok(()));
}

#[test]
fn batches_carry_hardware_gc_values_and_advance_the_pulse_counter() {
    let mut sim = SimulatorBuilder::new()
        .with_angles(vec![0, 32, 64, 96])
        .with_gc_offset(1000)
        .with_batch_pulse_count(4096)
        .build();
    sim.initialize_session().unwrap();
    let first = sim.generate_batch(0).unwrap();
    let second = sim.generate_batch(0).unwrap();
    assert_eq!((first.base_gc, first.gc_step), (1000, 4));
    assert_eq!((second.base_gc, second.gc_step), (1000 + 4096, 4));
    assert_eq!(
        sim.generation_progress(),
        GenerationProgress { event_count: 8192, batch_pulse_count: 4096 }
    );
    sim.initialize_session().unwrap();
    assert_eq!(sim.generation_progress().event_count, 0);
}

#[test]
fn the_pulse_counter_never_overflows() {
    let mut sim = SimulatorBuilder::new()
        .with_angles(vec![0, 32, 64, 96])
        .with_batch_pulse_count(u64::MAX / 2 + 1)
        .build();
    sim.initialize_session().unwrap();
    assert!(sim.generate_batch(0).is_ok());
    let before = sim.clone();
    assert_eq!(
        sim.generate_batch(0),
        Err(SimulationError::HardwareError {
            source: HardwareError::Other { reason: "Simulator pulse counter would overflow.".to_string() }
        })
    );
    assert_eq!(sim, before);
}

#[test]
fn an_empty_angle_table_is_refused() {
    let mut sim = SimulatorBuilder::new().build();
    assert_eq!(handle_request(&mut sim, SimRequest::StartSession), SimReply::Done(Ok(())));
    assert_eq!(
        handle_request(&mut sim, SimRequest::GenerateQkdBatch { qber_threshold: 0 }),
        SimReply::Batch(Err(SimulationError::ProtocolError {
            source: ProtocolError::Size { reason: "The angle table is empty.".to_string() }
        }))
    );
    assert_eq!(
        handle_request(&mut sim, SimRequest::SetAngles { angles: [0, 32, 64, 96] }),
        SimReply::Done(Ok(()))
    );
    assert!(matches!(
        handle_request(&mut sim, SimRequest::GenerateQkdBatch { qber_threshold: 0 }),
        SimReply::Batch(Ok(_))
    ));
    assert_eq!(
        handle_request(&mut sim, SimRequest::GenerationProgress),
        SimReply::Progress(GenerationProgress { event_count: 1024, batch_pulse_count: 1024 })
    );
}

#[test]
fn decoy_states_draw_a_fifth_block() {
    let mut plain = SimulatorBuilder::new()
        .with_angles(vec![0, 32, 64, 96])
        .with_modulator_state(ModulatorState::Random)
        .build();
    let mut decoy = SimulatorBuilder::new()
        .with_angles(vec![0, 32, 64, 96])
        .with_modulator_state(ModulatorState::Random)
        .with_decoy_threshold(Some(threshold(0.5)))
        .build();
    let plain_batch = plain.generate_correlation_batch(0).unwrap();
    let decoy_batch = decoy.generate_correlation_batch(0).unwrap();
    assert_eq!(plain_batch.alice_state_index, decoy_batch.alice_state_index);
    assert_eq!(plain_batch.results, decoy_batch.results);
    let decoys = (0..BATCH).filter(|&i| decoy_batch.decoy_states.get(i)).count();
    assert!(decoys > 400 && decoys < 624, "about half of the pulses are decoys: {}", decoys);
    assert_ne!(plain.rng_state, decoy.rng_state);
}

#[test]
fn synchronizing_a_stopped_simulator_discards_in_a_session_of_its_own() {
    let build = || {
        SimulatorBuilder::new()
            .with_angles(vec![0, 32, 64, 96])
            .with_rng_seed(7)
            .with_rate_limiter(false)
            .build()
    };
    let mut ahead = build();
    let mut lagging = build();
    assert_eq!(handle_request(&mut ahead, SimRequest::StartSession), SimReply::Done(Ok(())));
    for _ in 0..3 {
        assert!(matches!(
            handle_request(&mut ahead, SimRequest::GenerateQkdBatch { qber_threshold: 0 }),
            SimReply::Batch(Ok(_))
        ));
    }
    assert!(!lagging.can_generate());
    assert!(lagging.synchronization_possible(3));
    assert_eq!(
        handle_request(&mut lagging, SimRequest::SynchronizeStreams { qber_thresholds: vec![0, 0, 0] }),
        SimReply::Done(Ok(()))
    );
    assert!(!lagging.session_started);
    assert_eq!(lagging.modulator_state, ModulatorState::Idle);
    assert_eq!(lagging.rng_state, ahead.rng_state);

    let mut empty = SimulatorBuilder::new().with_angles(vec![]).build();
    assert!(!empty.synchronization_possible(1));
    assert!(matches!(
        handle_request(&mut empty, SimRequest::SynchronizeStreams { qber_thresholds: vec![0] }),
        SimReply::Done(Err(SimulationError::ProtocolError { source: ProtocolError::Size { .. } }))
    ));
    assert!(empty.synchronization_possible(0));
}

#[test]
fn a_discard_request_succeeds_in_a_running_session_and_batches_carry_gc_values() {
    let mut sim = SimulatorBuilder::new()
        .with_angles(vec![0, 32, 64, 96])
        .with_rate_limiter(false)
        .build();
    assert!(!sim.batches_possible(1));
    assert!(matches!(
        handle_request(&mut sim, SimRequest::DiscardBatches { qber_thresholds: vec![0] }),
        SimReply::Done(Err(_))
    ));
    handle_request(&mut sim, SimRequest::StartSession);
    assert!(sim.batches_possible(2));
    assert_eq!(
        handle_request(&mut sim, SimRequest::DiscardBatches { qber_thresholds: vec![0, 0] }),
        SimReply::Done(Ok(()))
    );
    let bpc = sim.batch_pulse_count;
    assert_eq!(sim.last_event_count, 2 * bpc);
    match handle_request(&mut sim, SimRequest::GenerateQkdBatch { qber_threshold: 0 }) {
        SimReply::Batch(Ok(batch)) => {
            assert_eq!(batch.base_gc, sim.gc_offset + 2 * bpc);
            assert_eq!(batch.gc_step, sim.gc_step());
        }
        other => panic!("unexpected reply {:?}", other),
    }
}
