//! The command line of the pair controller:
//!
//! ```text
//! hw_sim_control start_attack [--alice-socket PATH] [--bob-socket PATH]
//! hw_sim_control stop_attack  [--alice-socket PATH] [--bob-socket PATH]
//! hw_sim_control recalibrate --duration MS [--alice-socket PATH] [--bob-socket PATH]
//! hw_sim_control help [SUBCOMMAND]
//! ```
//!
//! An option's value follows it as the next argument or after `=`. The
//! subcommands are written with underscores. A duration may start with `+`;
//! a socket path may not be empty.
use vstd::prelude::*;
use crate::config::{DEFAULT_ALICE_CONTROL_SOCKET_PATH, DEFAULT_BOB_CONTROL_SOCKET_PATH};

verus! {

/// The sockets of the pair.
#[derive(Debug, Clone, PartialEq, Eq)]
pub struct SocketOptions {
    pub alice_socket: String,
    pub bob_socket: String,
}

/// A command of the pair controller.
#[derive(Debug, Clone, PartialEq, Eq)]
pub enum ControlCommand {
    StartAttack { sockets: SocketOptions },
    StopAttack { sockets: SocketOptions },
    /// Recalibrate for `duration` milliseconds.
    Recalibrate { duration: u64, sockets: SocketOptions },
}

/// Why a command line was refused.
#[derive(Debug, Clone, Copy, PartialEq, Eq, Structural)]
pub enum CliError {
    /// No subcommand was given.
    MissingSubcommand,
    /// The subcommand is not one of the three.
    UnknownSubcommand,
    /// An argument is not an option of the subcommand.
    UnknownArgument,
    /// An option came without its value.
    MissingValue,
    /// An option was given twice.
    DuplicateArgument,
    /// The duration is not a decimal number of milliseconds that fits in 64
    /// bits.
    InvalidDuration,
    /// `recalibrate` came without `--duration`.
    MissingDuration,
    /// Help was asked for.
    HelpRequested,
    /// A socket path was empty.
    EmptyPath,
}

/// The options found so far, as text.
pub struct OptionsView {
    pub duration: Option<Seq<char>>,
    pub alice_socket: Option<Seq<char>>,
    pub bob_socket: Option<Seq<char>>,
}

/// An option of the command line.
#[derive(Debug, Clone, Copy, PartialEq, Eq, Structural)]
pub enum OptionName {
    Duration,
    AliceSocket,
    BobSocket,
}

/// The name of an option as written after `--`.
pub open spec fn option_flag(name: OptionName) -> Seq<char> {
    match name {
        OptionName::Duration => "--duration"@,
        OptionName::AliceSocket => "--alice-socket"@,
        OptionName::BobSocket => "--bob-socket"@,
    }
}

/// The option that an argument names, with the value that it carries after
/// `=`, if any.
pub open spec fn option_of(arg: Seq<char>) -> Option<(OptionName, Option<Seq<char>>)> {
    if arg == option_flag(OptionName::Duration) {
        Some((OptionName::Duration, None))
    } else if arg == option_flag(OptionName::AliceSocket) {
        Some((OptionName::AliceSocket, None))
    } else if arg == option_flag(OptionName::BobSocket) {
        Some((OptionName::BobSocket, None))
    } else if has_flag_prefix(arg, option_flag(OptionName::Duration)) {
        Some((OptionName::Duration, Some(arg.subrange(option_flag(OptionName::Duration).len() as int + 1, arg.len() as int))))
    } else if has_flag_prefix(arg, option_flag(OptionName::AliceSocket)) {
        Some((OptionName::AliceSocket, Some(arg.subrange(option_flag(OptionName::AliceSocket).len() as int + 1, arg.len() as int))))
    } else if has_flag_prefix(arg, option_flag(OptionName::BobSocket)) {
        Some((OptionName::BobSocket, Some(arg.subrange(option_flag(OptionName::BobSocket).len() as int + 1, arg.len() as int))))
    } else {
        None
    }
}

/// Whether `arg` is `flag=` followed by a value.
pub open spec fn has_flag_prefix(arg: Seq<char>, flag: Seq<char>) -> bool {
    &&& arg.len() > flag.len()
    &&& arg.subrange(0, flag.len() as int) == flag
    &&& arg[flag.len() as int] == '='
}

/// Whether an argument asks for help.
pub open spec fn is_help(arg: Seq<char>) -> bool {
    arg == "--help"@ || arg == "-h"@
}

/// Whether an argument can be an option's value: it does not start with `-`.
pub open spec fn is_value(arg: Seq<char>) -> bool {
    arg.len() == 0 || arg[0] != '-'
}

/// The options with `name` set to `value`, or the duplicate error.
pub open spec fn set_option(opts: OptionsView, name: OptionName, value: Seq<char>) -> Result<OptionsView, CliError> {
    match name {
        OptionName::Duration => if opts.duration is Some {
            Err(CliError::DuplicateArgument)
        } else {
            Ok(OptionsView { duration: Some(value), ..opts })
        },
        OptionName::AliceSocket => if opts.alice_socket is Some {
            Err(CliError::DuplicateArgument)
        } else if value.len() == 0 {
            Err(CliError::EmptyPath)
        } else {
            Ok(OptionsView { alice_socket: Some(value), ..opts })
        },
        OptionName::BobSocket => if opts.bob_socket is Some {
            Err(CliError::DuplicateArgument)
        } else if value.len() == 0 {
            Err(CliError::EmptyPath)
        } else {
            Ok(OptionsView { bob_socket: Some(value), ..opts })
        },
    }
}

/// Reads the options in `args`, after those read into `opts`.
pub open spec fn parse_options(args: Seq<Seq<char>>, opts: OptionsView) -> Result<OptionsView, CliError>
    decreases args.len(),
{
    if args.len() == 0 {
        Ok(opts)
    } else if is_help(args[0]) {
        Err(CliError::HelpRequested)
    } else {
        match option_of(args[0]) {
            None => Err(CliError::UnknownArgument),
            Some((name, Some(value))) => match set_option(opts, name, value) {
                Ok(next) => parse_options(args.drop_first(), next),
                Err(e) => Err(e),
            },
            Some((name, None)) => if args.len() < 2 || !is_value(args[1]) {
                Err(CliError::MissingValue)
            } else {
                match set_option(opts, name, args[1]) {
                    Ok(next) => parse_options(args.subrange(2, args.len() as int), next),
                    Err(e) => Err(e),
                }
            },
        }
    }
}

/// The value of a decimal digit character.
pub open spec fn digit_value(c: char) -> int {
    (c as int) - ('0' as int)
}

/// Whether a character is a decimal digit.
pub open spec fn is_digit(c: char) -> bool {
    '0' <= c && c <= '9'
}

/// The number that a sequence of decimal digits denotes.
pub open spec fn decimal_value(digits: Seq<char>) -> int
    decreases digits.len(),
{
    if digits.len() == 0 {
        0
    } else {
        decimal_value(digits.drop_last()) * 10 + digit_value(digits.last())
    }
}

/// The number of milliseconds that a duration argument denotes: one or
/// more decimal digits, after an optional `+`, whose value fits in 64 bits.
pub open spec fn parse_duration(text: Seq<char>) -> Option<u64> {
    let digits = unsigned_digits(text);
    if digits.len() > 0 && (forall|i: int| 0 <= i < digits.len() ==> is_digit(#[trigger] digits[i]))
        && decimal_value(digits) <= u64::MAX {
        Some(decimal_value(digits) as u64)
    } else {
        None
    }
}

/// The digits of an unsigned number: the text after an optional leading `+`.
pub open spec fn unsigned_digits(text: Seq<char>) -> Seq<char> {
    if text.len() > 0 && text[0] == '+' {
        text.subrange(1, text.len() as int)
    } else {
        text
    }
}

/// The subcommands.
#[derive(Debug, Clone, Copy, PartialEq, Eq, Structural)]
pub enum SubcommandName {
    StartAttack,
    StopAttack,
    Recalibrate,
}

/// The subcommand that an argument names.
pub open spec fn subcommand_of(arg: Seq<char>) -> Option<SubcommandName> {
    if arg == "start_attack"@ {
        Some(SubcommandName::StartAttack)
    } else if arg == "stop_attack"@ {
        Some(SubcommandName::StopAttack)
    } else if arg == "recalibrate"@ {
        Some(SubcommandName::Recalibrate)
    } else {
        None
    }
}

/// The command that a command line denotes, as its parts: the subcommand,
/// the duration and the two sockets (with their defaults), or the error.
pub open spec fn parse_command_line(args: Seq<Seq<char>>) -> Result<(SubcommandName, u64, Seq<char>, Seq<char>), CliError> {
    if args.len() < 2 {
        Err(CliError::MissingSubcommand)
    } else if is_help(args[1]) {
        Err(CliError::HelpRequested)
    } else if args[1] == "help"@ {
        if args.len() == 2 || (args.len() == 3 && subcommand_of(args[2]) is Some) {
            Err(CliError::HelpRequested)
        } else {
            Err(CliError::UnknownSubcommand)
        }
    } else {
        match subcommand_of(args[1]) {
            None => Err(CliError::UnknownSubcommand),
            Some(sub) => match parse_options(
                args.subrange(2, args.len() as int),
                OptionsView { duration: None, alice_socket: None, bob_socket: None },
            ) {
                Err(e) => Err(e),
                Ok(opts) => {
                    let alice = match opts.alice_socket {
                        Some(p) => p,
                        None => DEFAULT_ALICE_CONTROL_SOCKET_PATH@,
                    };
                    let bob = match opts.bob_socket {
                        Some(p) => p,
                        None => DEFAULT_BOB_CONTROL_SOCKET_PATH@,
                    };
                    match sub {
                        SubcommandName::Recalibrate => match opts.duration {
                            None => Err(CliError::MissingDuration),
                            Some(text) => match parse_duration(text) {
                                None => Err(CliError::InvalidDuration),
                                Some(ms) => Ok((sub, ms, alice, bob)),
                            },
                        },
                        _ => if opts.duration is Some {
                            Err(CliError::UnknownArgument)
                        } else {
                            Ok((sub, 0u64, alice, bob))
                        },
                    }
                },
            },
        }
    }
}

/// The parts of a command: its subcommand, duration (zero for the attack
/// commands) and sockets.
pub open spec fn command_parts(c: ControlCommand) -> (SubcommandName, u64, Seq<char>, Seq<char>) {
    match c {
        ControlCommand::StartAttack { sockets } => (
            SubcommandName::StartAttack,
            0u64,
            sockets.alice_socket@,
            sockets.bob_socket@,
        ),
        ControlCommand::StopAttack { sockets } => (
            SubcommandName::StopAttack,
            0u64,
            sockets.alice_socket@,
            sockets.bob_socket@,
        ),
        ControlCommand::Recalibrate { duration, sockets } => (
            SubcommandName::Recalibrate,
            duration,
            sockets.alice_socket@,
            sockets.bob_socket@,
        ),
    }
}

/// The text of each argument.
pub open spec fn args_view(args: Seq<String>) -> Seq<Seq<char>> {
    args.map_values(|a: String| a@)
}

/// Whether `s` is the literal `lit`.
fn equals(s: &str, lit: &str) -> (same: bool)
    ensures
        same == (s@ == lit@),
{
    s.to_owned() == lit.to_owned()
}

/// Whether `s` is `flag=` followed by a value.
fn flag_with_value(s: &str, flag: &str) -> (found: bool)
    ensures
        found == has_flag_prefix(s@, flag@),
{
    let len = s.unicode_len();
    let flag_len = flag.unicode_len();
    if len <= flag_len {
        return false;
    }
    let head = s.substring_char(0, flag_len);
    if !equals(head, flag) {
        return false;
    }
    s.get_char(flag_len) == '='
}

/// The option that an argument names.
fn recognize_option(arg: &str) -> (r: Option<(OptionName, Option<String>)>)
    ensures
        match (r, option_of(arg@)) {
            (None, None) => true,
            (Some((n1, v1)), Some((n2, v2))) => n1 == n2 && match (v1, v2) {
                (None, None) => true,
                (Some(a), Some(b)) => a@ == b,
                _ => false,
            },
            _ => false,
        },
{
    proof {
        reveal_strlit("--duration");
        reveal_strlit("--alice-socket");
        reveal_strlit("--bob-socket");
    }
    if equals(arg, "--duration") {
        return Some((OptionName::Duration, None));
    }
    if equals(arg, "--alice-socket") {
        return Some((OptionName::AliceSocket, None));
    }
    if equals(arg, "--bob-socket") {
        return Some((OptionName::BobSocket, None));
    }
    let len = arg.unicode_len();
    if flag_with_value(arg, "--duration") {
        return Some((OptionName::Duration, Some(arg.substring_char(11, len).to_owned())));
    }
    if flag_with_value(arg, "--alice-socket") {
        return Some((OptionName::AliceSocket, Some(arg.substring_char(15, len).to_owned())));
    }
    if flag_with_value(arg, "--bob-socket") {
        return Some((OptionName::BobSocket, Some(arg.substring_char(13, len).to_owned())));
    }
    None
}

/// The value of a prefix of digits never exceeds that of a longer prefix.
proof fn lemma_decimal_prefix_grows(text: Seq<char>, i: int, j: int)
    requires
        0 <= i <= j <= text.len(),
        forall|k: int| 0 <= k < text.len() ==> is_digit(#[trigger] text[k]),
    ensures
        decimal_value(text.subrange(0, i)) <= decimal_value(text.subrange(0, j)),
        decimal_value(text.subrange(0, i)) >= 0,
    decreases j - i,
{
    if i < j {
        lemma_decimal_prefix_grows(text, i, j - 1);
        let longer = text.subrange(0, j);
        assert(longer.drop_last() =~= text.subrange(0, j - 1));
        assert(is_digit(text[j - 1]));
    } else {
        lemma_decimal_nonneg(text.subrange(0, i));
    }
}

/// Digits denote a natural number.
proof fn lemma_decimal_nonneg(digits: Seq<char>)
    requires
        forall|k: int| 0 <= k < digits.len() ==> is_digit(#[trigger] digits[k]),
    ensures
        decimal_value(digits) >= 0,
    decreases digits.len(),
{
    if digits.len() > 0 {
        lemma_decimal_nonneg(digits.drop_last());
        assert(is_digit(digits[digits.len() - 1]));
    }
}

/// Reads a duration in milliseconds: one or more decimal digits, after an
/// optional `+`, whose value fits in 64 bits.
pub fn parse_duration_ms(text: &str) -> (ms: Option<u64>)
    ensures
        ms == parse_duration(text@),
{
    let len = text.unicode_len();
    let start: usize = if len > 0 && text.get_char(0) == '+' { 1 } else { 0 };
    let ghost digits = unsigned_digits(text@);
    assert(digits =~= text@.subrange(start as int, len as int));
    if len == start {
        return None;
    }
    let mut value: u64 = 0;
    let mut i: usize = start;
    while i < len
        invariant
            len == text@.len(),
            start <= i <= len,
            start < len,
            digits == text@.subrange(start as int, len as int),
            digits == unsigned_digits(text@),
            forall|k: int| 0 <= k < i - start ==> is_digit(#[trigger] digits[k]),
            value == decimal_value(digits.subrange(0, i - start)),
        decreases len - i,
    {
        let c = text.get_char(i);
        assert(digits[i - start] == c);
        if !('0' <= c && c <= '9') {
            assert(!(forall|k: int| 0 <= k < digits.len() ==> is_digit(#[trigger] digits[k])));
            return None;
        }
        let digit: u64 = (c as u32 - '0' as u32) as u64;
        let ghost prefix = digits.subrange(0, i - start + 1);
        assert(prefix.drop_last() =~= digits.subrange(0, i - start));
        if value > (u64::MAX - digit) / 10 {
            proof {
                assert(decimal_value(prefix) > u64::MAX);
                if forall|k: int| 0 <= k < digits.len() ==> is_digit(#[trigger] digits[k]) {
                    lemma_decimal_prefix_grows(digits, i - start + 1, digits.len() as int);
                    assert(digits.subrange(0, digits.len() as int) =~= digits);
                }
            }
            return None;
        }
        value = value * 10 + digit;
        i = i + 1;
    }
    assert(digits.subrange(0, digits.len() as int) =~= digits);
    Some(value)
}

/// Whether an argument asks for help.
fn help_flag(arg: &str) -> (help: bool)
    ensures
        help == is_help(arg@),
{
    equals(arg, "--help") || equals(arg, "-h")
}

/// Whether an argument can be an option's value.
fn value_arg(arg: &str) -> (value: bool)
    ensures
        value == is_value(arg@),
{
    let len = arg.unicode_len();
    len == 0 || arg.get_char(0) != '-'
}

/// The options read so far.
struct Options {
    duration: Option<String>,
    alice_socket: Option<String>,
    bob_socket: Option<String>,
}

/// The text of an optional argument.
spec fn opt_view(o: Option<String>) -> Option<Seq<char>> {
    match o {
        Some(s) => Some(s@),
        None => None,
    }
}

/// The text of the options read so far.
spec fn options_view(o: Options) -> OptionsView {
    OptionsView {
        duration: opt_view(o.duration),
        alice_socket: opt_view(o.alice_socket),
        bob_socket: opt_view(o.bob_socket),
    }
}

/// Sets an option, refusing a second value.
fn store_option(opts: Options, name: OptionName, value: String) -> (r: Result<Options, CliError>)
    ensures
        match (r, set_option(options_view(opts), name, value@)) {
            (Ok(a), Ok(b)) => options_view(a) == b,
            (Err(e1), Err(e2)) => e1 == e2,
            _ => false,
        },
{
    match name {
        OptionName::Duration => if opts.duration.is_some() {
            Err(CliError::DuplicateArgument)
        } else {
            Ok(Options { duration: Some(value), ..opts })
        },
        OptionName::AliceSocket => if opts.alice_socket.is_some() {
            Err(CliError::DuplicateArgument)
        } else if value.as_str().unicode_len() == 0 {
            Err(CliError::EmptyPath)
        } else {
            Ok(Options { alice_socket: Some(value), ..opts })
        },
        OptionName::BobSocket => if opts.bob_socket.is_some() {
            Err(CliError::DuplicateArgument)
        } else if value.as_str().unicode_len() == 0 {
            Err(CliError::EmptyPath)
        } else {
            Ok(Options { bob_socket: Some(value), ..opts })
        },
    }
}

/// Reads the options that follow the subcommand.
fn read_options(args: &Vec<String>) -> (r: Result<Options, CliError>)
    requires
        args@.len() >= 2,
    ensures
        match (r, parse_options(
            args_view(args@).subrange(2, args@.len() as int),
            OptionsView { duration: None, alice_socket: None, bob_socket: None },
        )) {
            (Ok(a), Ok(b)) => options_view(a) == b,
            (Err(e1), Err(e2)) => e1 == e2,
            _ => false,
        },
{
    let ghost all = args_view(args@);
    let ghost target = parse_options(
        all.subrange(2, all.len() as int),
        OptionsView { duration: None, alice_socket: None, bob_socket: None },
    );
    let mut opts = Options { duration: None, alice_socket: None, bob_socket: None };
    let len = args.len();
    let mut i: usize = 2;
    while i < len
        invariant
            len == args@.len(),
            all == args_view(args@),
            all.len() == len,
            2 <= i <= len,
            target == parse_options(
                all.subrange(2, all.len() as int),
                OptionsView { duration: None, alice_socket: None, bob_socket: None },
            ),
            target == parse_options(all.subrange(i as int, len as int), options_view(opts)),
        decreases len - i,
    {
        let ghost rest = all.subrange(i as int, len as int);
        assert(rest.len() > 0);
        assert(rest[0] == args@[i as int]@);
        let arg = args[i].as_str();
        if help_flag(arg) {
            return Err(CliError::HelpRequested);
        }
        match recognize_option(arg) {
            None => {
                return Err(CliError::UnknownArgument);
            },
            Some((name, Some(value))) => {
                assert(rest.drop_first() =~= all.subrange(i + 1, len as int));
                match store_option(opts, name, value) {
                    Ok(next) => {
                        opts = next;
                    },
                    Err(e) => {
                        return Err(e);
                    },
                }
                i = i + 1;
            },
            Some((name, None)) => {
                if i + 1 >= len {
                    return Err(CliError::MissingValue);
                }
                assert(rest[1] == args@[i + 1]@);
                let value = args[i + 1].as_str();
                if !value_arg(value) {
                    return Err(CliError::MissingValue);
                }
                assert(rest.subrange(2, rest.len() as int) =~= all.subrange(i + 2, len as int));
                match store_option(opts, name, value.to_owned()) {
                    Ok(next) => {
                        opts = next;
                    },
                    Err(e) => {
                        return Err(e);
                    },
                }
                i = i + 2;
            },
        }
    }
    Ok(opts)
}

/// The subcommand that an argument names.
fn subcommand_name(arg: &str) -> (name: Option<SubcommandName>)
    ensures
        name == subcommand_of(arg@),
{
    proof {
        reveal_strlit("start_attack");
        reveal_strlit("stop_attack");
        reveal_strlit("recalibrate");
    }
    if equals(arg, "start_attack") {
        Some(SubcommandName::StartAttack)
    } else if equals(arg, "stop_attack") {
        Some(SubcommandName::StopAttack)
    } else if equals(arg, "recalibrate") {
        Some(SubcommandName::Recalibrate)
    } else {
        None
    }
}

/// The command that a command line gives (the program's name comes first).
pub fn parse_control_args(args: &Vec<String>) -> (r: Result<ControlCommand, CliError>)
    ensures
        match (r, parse_command_line(args_view(args@))) {
            (Ok(c), Ok(parts)) => command_parts(c) == parts,
            (Err(e1), Err(e2)) => e1 == e2,
            _ => false,
        },
{
    proof {
        reveal_strlit("help");
        reveal_strlit("start_attack");
        reveal_strlit("stop_attack");
        reveal_strlit("recalibrate");
    }
    if args.len() < 2 {
        return Err(CliError::MissingSubcommand);
    }
    let ghost all = args_view(args@);
    assert(all[1] == args@[1]@);
    let sub = args[1].as_str();
    if help_flag(sub) {
        return Err(CliError::HelpRequested);
    }
    if equals(sub, "help") {
        if args.len() == 2 {
            return Err(CliError::HelpRequested);
        }
        assert(all[2] == args@[2]@);
        if args.len() == 3 && subcommand_name(args[2].as_str()).is_some() {
            return Err(CliError::HelpRequested);
        }
        return Err(CliError::UnknownSubcommand);
    }
    let name = match subcommand_name(sub) {
        Some(name) => name,
        None => {
            return Err(CliError::UnknownSubcommand);
        },
    };
    let opts = match read_options(args) {
        Ok(o) => o,
        Err(e) => {
            return Err(e);
        },
    };
    let alice_socket = match opts.alice_socket {
        Some(p) => p,
        None => DEFAULT_ALICE_CONTROL_SOCKET_PATH.to_owned(),
    };
    let bob_socket = match opts.bob_socket {
        Some(p) => p,
        None => DEFAULT_BOB_CONTROL_SOCKET_PATH.to_owned(),
    };
    let sockets = SocketOptions { alice_socket, bob_socket };
    match name {
        SubcommandName::Recalibrate => match opts.duration {
            None => Err(CliError::MissingDuration),
            Some(text) => match parse_duration_ms(text.as_str()) {
                None => Err(CliError::InvalidDuration),
                Some(duration) => Ok(ControlCommand::Recalibrate { duration, sockets }),
            },
        },
        SubcommandName::StartAttack => if opts.duration.is_some() {
            Err(CliError::UnknownArgument)
        } else {
            Ok(ControlCommand::StartAttack { sockets })
        },
        SubcommandName::StopAttack => if opts.duration.is_some() {
            Err(CliError::UnknownArgument)
        } else {
            Ok(ControlCommand::StopAttack { sockets })
        },
    }
}

/// An argument of the form `flag=value` sets the option whose flag it starts
/// with to the text after the `=`: `--duration=v` sets the duration,
/// `--alice-socket=v` Alice's socket and `--bob-socket=v` Bob's; each bare
/// flag names its own option and takes its value from the next argument.
pub proof fn law_flag_value_arguments_name_their_option(value: Seq<char>)
    ensures
        option_of("--duration="@ + value) == Some((OptionName::Duration, Some(value))),
        option_of("--alice-socket="@ + value) == Some((OptionName::AliceSocket, Some(value))),
        option_of("--bob-socket="@ + value) == Some((OptionName::BobSocket, Some(value))),
        option_of("--duration"@) == Some((OptionName::Duration, None::<Seq<char>>)),
        option_of("--alice-socket"@) == Some((OptionName::AliceSocket, None::<Seq<char>>)),
        option_of("--bob-socket"@) == Some((OptionName::BobSocket, None::<Seq<char>>)),
{
    reveal_strlit("--duration");
    reveal_strlit("--alice-socket");
    reveal_strlit("--bob-socket");
    reveal_strlit("--duration=");
    reveal_strlit("--alice-socket=");
    reveal_strlit("--bob-socket=");
    let d = "--duration="@ + value;
    let a = "--alice-socket="@ + value;
    let b = "--bob-socket="@ + value;
    assert(d[2] == 'd' && a[2] == 'a' && b[2] == 'b');
    assert(d.subrange(0, 10) =~= "--duration"@);
    assert(d.subrange(11, d.len() as int) =~= value);
    assert(a.subrange(0, 14) =~= "--alice-socket"@);
    assert(a.subrange(15, a.len() as int) =~= value);
    assert(b.subrange(0, 12) =~= "--bob-socket"@);
    assert(b.subrange(13, b.len() as int) =~= value);
    assert(d != "--alice-socket"@ && d != "--bob-socket"@ && d != "--duration"@) by {
        assert(d.len() > 10);
        assert(d[2] != "--alice-socket"@[2]);
        assert(d[2] != "--bob-socket"@[2]);
    }
    assert(a != "--duration"@ && a != "--bob-socket"@ && a != "--alice-socket"@) by {
        assert(a.len() > 14);
        assert(a[2] != "--duration"@[2]);
        assert(a[2] != "--bob-socket"@[2]);
    }
    assert(b != "--duration"@ && b != "--alice-socket"@ && b != "--bob-socket"@) by {
        assert(b.len() > 12);
        assert(b[2] != "--duration"@[2]);
        assert(b[2] != "--alice-socket"@[2]);
    }
    assert(!has_flag_prefix(a, "--duration"@)) by {
        assert(a.subrange(0, 10)[2] != "--duration"@[2]);
    }
    assert(!has_flag_prefix(b, "--duration"@)) by {
        assert(b.subrange(0, 10)[2] != "--duration"@[2]);
    }
    assert(!has_flag_prefix(b, "--alice-socket"@)) by {
        if b.len() > 14 {
            assert(b.subrange(0, 14)[2] != "--alice-socket"@[2]);
        }
    }
}

} // verus!
