use hw_sim::mmio::{
    check_mmio_access, classify_generation_start_transition, command_trigger_fits,
    mock_mmio_file_is_suitable, register_value, update_binary_mmio_state, Command,
    MmioAccessError, COMMAND_TRIGGER_ADDR_BYTES, GENERATION_START_ADDR_BYTES,
    GENERATION_START_MMIO_MAP_OFFSET, INIT_RESET_MMIO_MAP_OFFSET, MMIO_MAP_LEN,
    MOCK_MMIO_FILE_SIZE,
};

#[test]
fn init_reset_transition_only_updates_reset_state() {
    assert_eq!(INIT_RESET_MMIO_MAP_OFFSET, 0x12000);
    assert_eq!(COMMAND_TRIGGER_ADDR_BYTES, 16);

    let mut init_reset_state = 0;
    let mut generation_state = 0;

    let init_transition = update_binary_mmio_state(&mut init_reset_state, 1);
    let command = classify_generation_start_transition(&mut generation_state, 0);

    assert_eq!(init_transition, (0, 1));
    assert_eq!(init_reset_state, 1);
    assert!(command.is_none());
    assert_eq!(generation_state, 0);
}

#[test]
fn generation_start_uses_sync_at_pps_register() {
    assert_eq!(GENERATION_START_MMIO_MAP_OFFSET, 0x1000);
    assert_eq!(GENERATION_START_ADDR_BYTES, 24);

    let mut generation_state = 0;
    let command = classify_generation_start_transition(&mut generation_state, 1);

    assert!(matches!(command, Some(Command::Start)));
    assert_eq!(generation_state, 1);
}

#[test]
fn generation_stop_is_detected_on_generation_register_falling_edge() {
    let mut generation_state = 1;
    let command = classify_generation_start_transition(&mut generation_state, 0);

    assert!(matches!(command, Some(Command::Stop)));
    assert_eq!(generation_state, 0);
}

#[test]
fn non_binary_mmio_values_do_not_change_generation_state() {
    let mut generation_state = 0;
    let command = classify_generation_start_transition(&mut generation_state, 42);

    assert!(command.is_none());
    assert_eq!(generation_state, 0);
}

#[test]
fn a_held_level_is_not_an_edge() {
    let mut generation_state = 1;
    assert!(classify_generation_start_transition(&mut generation_state, 1).is_none());
    let mut generation_state = 0;
    assert!(classify_generation_start_transition(&mut generation_state, 0).is_none());
}

#[test]
fn a_glitch_between_levels_does_not_hide_the_next_edge() {
    let mut generation_state = 0;
    assert!(classify_generation_start_transition(&mut generation_state, 7).is_none());
    assert!(matches!(
        classify_generation_start_transition(&mut generation_state, 1),
        Some(Command::Start)
    ));
}

#[test]
fn commands_keep_their_hardware_codes() {
    assert_eq!(Command::Start.code(), 0x27);
    assert_eq!(Command::Stop.code(), 0x26);
}

#[test]
fn mmio_access_must_be_aligned_and_in_bounds() {
    assert_eq!(check_mmio_access(COMMAND_TRIGGER_ADDR_BYTES, MMIO_MAP_LEN), Ok(()));
    assert_eq!(check_mmio_access(0xFFC, MMIO_MAP_LEN), Ok(()));
    assert_eq!(check_mmio_access(18, MMIO_MAP_LEN), Err(MmioAccessError::Misaligned));
    assert_eq!(check_mmio_access(0x1000, MMIO_MAP_LEN), Err(MmioAccessError::OutOfBounds));
    assert_eq!(check_mmio_access(usize::MAX - 3, MMIO_MAP_LEN), Err(MmioAccessError::OutOfBounds));
    assert_eq!(MmioAccessError::Misaligned.message(), "MMIO address must be u32-aligned");
    assert_eq!(
        MmioAccessError::OutOfBounds.message(),
        "MMIO address out of bounds for the mapped length"
    );
}

#[test]
fn register_values_are_little_endian() {
    assert_eq!(register_value([1, 0, 0, 0]), 1);
    assert_eq!(register_value([0x78, 0x56, 0x34, 0x12]), 0x1234_5678);
    assert_eq!(register_value(u32::MAX.to_le_bytes()), u32::MAX);
}

#[test]
fn mock_mmio_file_covers_both_register_pages() {
    assert_eq!(MOCK_MMIO_FILE_SIZE, 0x12000 + 0x1000);
    assert!(command_trigger_fits(MOCK_MMIO_FILE_SIZE));
    assert!(!command_trigger_fits(0x12000 + 19));
    assert!(mock_mmio_file_is_suitable(true, 0x13000, MOCK_MMIO_FILE_SIZE));
    assert!(!mock_mmio_file_is_suitable(true, 0x12fff, MOCK_MMIO_FILE_SIZE));
    assert!(!mock_mmio_file_is_suitable(false, 0x20000, MOCK_MMIO_FILE_SIZE));
}
