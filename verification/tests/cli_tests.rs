use hw_sim::cli::{parse_control_args, parse_duration_ms, CliError, ControlCommand};
use hw_sim::config::{DEFAULT_ALICE_CONTROL_SOCKET_PATH, DEFAULT_BOB_CONTROL_SOCKET_PATH};

fn args(list: &[&str]) -> Vec<String> {
    list.iter().map(|s| s.to_string()).collect()
}

#[test]
fn parses_recalibration_with_default_sockets() {
    let command =
        parse_control_args(&args(&["hw_sim_control", "recalibrate", "--duration", "200"])).unwrap();

    let ControlCommand::Recalibrate { duration, sockets } = command else {
        panic!("expected recalibrate command");
    };
    assert_eq!(duration, 200);
    assert_eq!(sockets.alice_socket, DEFAULT_ALICE_CONTROL_SOCKET_PATH);
    assert_eq!(sockets.bob_socket, DEFAULT_BOB_CONTROL_SOCKET_PATH);
}

#[test]
fn command_names_use_underscores() {
    assert!(matches!(
        parse_control_args(&args(&["hw_sim_control", "start_attack"])).unwrap(),
        ControlCommand::StartAttack { .. }
    ));
    assert!(parse_control_args(&args(&["hw_sim_control", "start-attack"])).is_err());
}

#[test]
fn socket_options_take_a_value_either_way() {
    let command = parse_control_args(&args(&[
        "hw_sim_control",
        "stop_attack",
        "--alice-socket=/run/a.socket",
        "--bob-socket",
        "/run/b.socket",
    ]))
    .unwrap();
    let ControlCommand::StopAttack { sockets } = command else {
        panic!("expected stop_attack command");
    };
    assert_eq!(sockets.alice_socket, "/run/a.socket");
    assert_eq!(sockets.bob_socket, "/run/b.socket");
    assert!(matches!(
        parse_control_args(&args(&["hw_sim_control", "recalibrate", "--duration=5000"])).unwrap(),
        ControlCommand::Recalibrate { duration: 5000, .. }
    ));
}

#[test]
fn malformed_command_lines_are_refused() {
    let parse = |list: &[&str]| parse_control_args(&args(list));
    assert_eq!(parse(&["hw_sim_control"]), Err(CliError::MissingSubcommand));
    assert_eq!(parse(&["hw_sim_control", "reboot"]), Err(CliError::UnknownSubcommand));
    assert_eq!(parse(&["hw_sim_control", "recalibrate"]), Err(CliError::MissingDuration));
    assert_eq!(parse(&["hw_sim_control", "recalibrate", "--duration"]), Err(CliError::MissingValue));
    assert_eq!(
        parse(&["hw_sim_control", "recalibrate", "--duration", "--bob-socket"]),
        Err(CliError::MissingValue)
    );
    assert_eq!(
        parse(&["hw_sim_control", "recalibrate", "--duration", "2x"]),
        Err(CliError::InvalidDuration)
    );
    assert_eq!(
        parse(&["hw_sim_control", "recalibrate", "--duration", "1", "--duration", "2"]),
        Err(CliError::DuplicateArgument)
    );
    assert_eq!(
        parse(&["hw_sim_control", "start_attack", "--duration", "1"]),
        Err(CliError::UnknownArgument)
    );
    assert_eq!(parse(&["hw_sim_control", "start_attack", "--verbose"]), Err(CliError::UnknownArgument));
    assert_eq!(parse(&["hw_sim_control", "--help"]), Err(CliError::HelpRequested));
    assert_eq!(parse(&["hw_sim_control", "start_attack", "-h"]), Err(CliError::HelpRequested));
}

#[test]
fn durations_are_decimal_milliseconds_that_fit_in_64_bits() {
    assert_eq!(parse_duration_ms("0"), Some(0));
    assert_eq!(parse_duration_ms("18446744073709551615"), Some(u64::MAX));
    assert_eq!(parse_duration_ms("18446744073709551616"), None);
    assert_eq!(parse_duration_ms(""), None);
    assert_eq!(parse_duration_ms("+5"), Some(5));
    assert_eq!(parse_duration_ms("+"), None);
    assert_eq!(parse_duration_ms("++5"), None);
    assert_eq!(parse_duration_ms("5+"), None);
}

#[test]
fn help_is_a_subcommand_and_socket_paths_cannot_be_empty() {
    let parse = |list: &[&str]| parse_control_args(&args(list));
    assert_eq!(parse(&["hw_sim_control", "help"]), Err(CliError::HelpRequested));
    assert_eq!(parse(&["hw_sim_control", "help", "recalibrate"]), Err(CliError::HelpRequested));
    assert_eq!(parse(&["hw_sim_control", "help", "reboot"]), Err(CliError::UnknownSubcommand));
    assert_eq!(parse(&["hw_sim_control", "start_attack", "--alice-socket="]), Err(CliError::EmptyPath));
    assert_eq!(parse(&["hw_sim_control", "stop_attack", "--bob-socket", ""]), Err(CliError::EmptyPath));
    assert!(matches!(
        parse(&["hw_sim_control", "recalibrate", "--duration", "+200"]),
        Ok(ControlCommand::Recalibrate { duration: 200, .. })
    ));
}
