use hw_sim::config::{
    AliceIpcConfig, BobIpcConfig, IpcConfiguration, LogLevel, SourceSettingOffset,
    DEFAULT_ALICE_CONTROL_SOCKET_PATH, DEFAULT_BOB_CONTROL_SOCKET_PATH,
};

#[test]
fn source_setting_offset_uses_quarter_turn_by_default() {
    let offset = SourceSettingOffset::default();

    assert_eq!(offset, SourceSettingOffset::QuarterTurn);
    assert_eq!(offset.phase_steps(), 32);
}

#[test]
fn source_setting_offsets_cover_the_four_quarter_turns() {
    for (offset, phase_steps) in [
        (SourceSettingOffset::Zero, 0),
        (SourceSettingOffset::QuarterTurn, 32),
        (SourceSettingOffset::HalfTurn, 64),
        (SourceSettingOffset::ThreeQuarterTurns, 96),
    ] {
        assert_eq!(offset.phase_steps(), phase_steps);
    }
}

#[test]
fn default_ipc_configuration_is_bobs() {
    let config = IpcConfiguration::default();
    assert_eq!(config, IpcConfiguration::Bob(BobIpcConfig::default()));
    assert_eq!(config.command_path(), "/tmp/fpga_bob");
    assert_eq!(
        config.fifo_paths(),
        vec![
            "/tmp/gc_bob_angle.fifo".to_string(),
            "/tmp/gc_bob_gcr.fifo".to_string(),
            "/tmp/gc_bob_gc.fifo".to_string(),
        ]
    );
    assert!(config.uses_mock_mmio_file());
    assert_eq!(config.control_socket_path(), DEFAULT_BOB_CONTROL_SOCKET_PATH);
    assert_eq!(config.role_name(), "Bob");
    assert!(!config.is_source());
}

#[test]
fn alice_configuration_has_two_fifos_and_its_own_socket() {
    let config = IpcConfiguration::Alice(AliceIpcConfig::default());
    assert_eq!(
        config.fifo_paths(),
        vec![
            "/tmp/gc_alice_angle.fifo".to_string(),
            "/tmp/gc_alice_gc.fifo".to_string(),
        ]
    );
    assert_eq!(config.control_socket_path(), DEFAULT_ALICE_CONTROL_SOCKET_PATH);
    assert_eq!(config.qkd_ready_path(), "/tmp/qkd_ready_alice");
    assert_eq!(config.node_idle_path(), "/tmp/node_idle_alice");
    assert_eq!(config.role_name(), "Alice");
    assert!(config.is_source());
}

#[test]
fn configured_paths_override_the_defaults() {
    let mut alice = AliceIpcConfig::default();
    alice.command_path = "/dev/xdma0_user".to_string();
    alice.control_socket_path = Some("/run/alice.socket".to_string());
    alice.qkd_ready_path = Some("/run/ready".to_string());
    alice.node_idle_path = Some("/run/idle".to_string());
    let config = IpcConfiguration::Alice(alice);
    assert!(!config.uses_mock_mmio_file());
    assert_eq!(config.control_socket_path(), "/run/alice.socket");
    assert_eq!(config.qkd_ready_path(), "/run/ready");
    assert_eq!(config.node_idle_path(), "/run/idle");
}

#[test]
fn mock_mmio_files_live_under_files_or_tmp() {
    let mut bob = BobIpcConfig::default();
    bob.command_path = "./files/fpga_bob".to_string();
    assert!(IpcConfiguration::Bob(bob.clone()).uses_mock_mmio_file());
    bob.command_path = "./file/fpga_bob".to_string();
    assert!(!IpcConfiguration::Bob(bob.clone()).uses_mock_mmio_file());
    bob.command_path = "/tmp".to_string();
    assert!(!IpcConfiguration::Bob(bob).uses_mock_mmio_file());
}

#[test]
fn default_log_level_is_info() {
    assert_eq!(LogLevel::default(), LogLevel("Info".to_string()));
}
