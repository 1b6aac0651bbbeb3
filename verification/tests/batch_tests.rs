use hw_sim::batch::{encode_gcr, flatten_records, QkdBatch, SETTINGS_FIFO_BYTES};
use hw_sim::bits::{EventBits, BATCH};

fn empty_batch() -> QkdBatch {
    QkdBatch {
        base_gc: 0,
        gc_step: 1,
        alice_state_index: [0; BATCH],
        bob_state_index: [0; BATCH],
        results: EventBits::new(),
        decoy_states: EventBits::new(),
    }
}

#[test]
fn alice_fifo_encodes_the_optional_intensity_bit_in_each_nibble() {
    let mut decoy_states = EventBits::new();
    decoy_states.set(0, true);
    let mut alice_state_index = [0_u8; BATCH];
    alice_state_index[0] = 0b01;
    alice_state_index[1] = 0b10;
    let batch = QkdBatch { alice_state_index, decoy_states, ..empty_batch() };

    assert_eq!(batch.to_alice_fifo()[0], 0b0010_0101);
}

#[test]
fn alice_fifo_keeps_the_historical_format_without_decoy_states() {
    let mut alice_state_index = [0_u8; BATCH];
    alice_state_index[0] = 0b01;
    alice_state_index[1] = 0b10;
    let batch = QkdBatch { alice_state_index, ..empty_batch() };

    assert_eq!(batch.to_alice_fifo()[0], 0b0010_0001);
}

#[test]
fn alice_fifo_puts_the_odd_events_decoy_bit_in_the_high_nibble() {
    let mut decoy_states = EventBits::new();
    decoy_states.set(1023, true);
    let mut alice_state_index = [0_u8; BATCH];
    alice_state_index[1022] = 3;
    alice_state_index[1023] = 7;
    let batch = QkdBatch { alice_state_index, decoy_states, ..empty_batch() };

    let fifo = batch.to_alice_fifo();
    assert_eq!(fifo.len(), SETTINGS_FIFO_BYTES);
    assert_eq!(fifo[511], 0b0111_0011);
}

#[test]
fn bob_fifo_keeps_two_bits_per_event() {
    let mut bob_state_index = [0_u8; BATCH];
    bob_state_index[0] = 2;
    bob_state_index[1] = 3;
    bob_state_index[2] = 0xff;
    let batch = QkdBatch { bob_state_index, ..empty_batch() };

    let fifo = batch.to_bob_angle_fifo();
    assert_eq!(fifo.len(), SETTINGS_FIFO_BYTES);
    assert_eq!(fifo[0], 0b0011_0010);
    assert_eq!(fifo[1], 0b0000_0011);
}

#[test]
fn gcr_records_hold_the_gc_lsb_and_the_result_in_byte_six() {
    assert_eq!(encode_gcr(0, 0), [0; 8]);
    assert_eq!(encode_gcr(1, 0), [0, 0, 0, 0, 0, 0, 0b01, 0]);
    assert_eq!(encode_gcr(0, 1), [0, 0, 0, 0, 0, 0, 0b10, 0]);
    assert_eq!(encode_gcr(3, 1), [1, 0, 0, 0, 0, 0, 0b11, 0]);
    assert_eq!(encode_gcr(0x200, 3), [0, 1, 0, 0, 0, 0, 0b10, 0]);
    // bits 48 and 49 of gc >> 1 are overwritten; bit 50 and above stay.
    let gc: u64 = 0xFFFF_FFFF_FFFF_FFFE;
    let shifted = (gc >> 1).to_le_bytes();
    let mut expected = shifted;
    expected[6] = (shifted[6] & 0b1111_1100) | 0b10;
    assert_eq!(encode_gcr(gc, 1), expected);
}

#[test]
fn gcr_batch_steps_gc_values_and_pads_on_request() {
    let mut results = EventBits::new();
    results.set(1, true);
    let batch = QkdBatch { base_gc: 100, gc_step: 10, results, ..empty_batch() };

    let plain = batch.to_gcr_batch(false);
    assert_eq!(plain.len(), 1024);
    assert_eq!(plain[0], encode_gcr(100, 0));
    assert_eq!(plain[1], encode_gcr(110, 1));
    assert_eq!(plain[1023], encode_gcr(100 + 1023 * 10, 0));

    let padded = batch.to_gcr_batch(true);
    assert_eq!(padded.len(), 2048);
    assert_eq!(padded[0], encode_gcr(100, 0));
    assert_eq!(padded[1], [0; 8]);
    assert_eq!(padded[2], encode_gcr(110, 1));
    assert_eq!(padded[3], [0; 8]);
}

#[test]
fn flattened_records_keep_their_order() {
    let bytes = flatten_records(&vec![[1, 2, 3, 4, 5, 6, 7, 8], [9, 10, 11, 12, 13, 14, 15, 16]]);
    assert_eq!(bytes, (1..=16).collect::<Vec<u8>>());
}

#[test]
fn event_bits_compare_by_content() {
    let mut a = EventBits::new();
    let mut b = EventBits::new();
    assert_eq!(a, b);
    a.set(7, true);
    assert_ne!(a, b);
    b.set(7, true);
    assert_eq!(a, b);
    assert!(a.get(7));
    assert!(!a.get(6));
}
