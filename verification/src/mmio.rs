//! The memory-mapped registers of the simulated FPGA and the detection of
//! the commands that the controller writes there.
use vstd::prelude::*;

verus! {

/// Map offset of the register page that holds the init/reset trigger.
pub const INIT_RESET_MMIO_MAP_OFFSET: u64 = 0x12000;
/// Byte address of the init/reset trigger within its page.
pub const COMMAND_TRIGGER_ADDR_BYTES: usize = 16;
/// Map offset of the register page that holds the generation start
/// (sync at PPS) register.
pub const GENERATION_START_MMIO_MAP_OFFSET: u64 = 0x1000;
/// Byte address of the generation start register within its page.
pub const GENERATION_START_ADDR_BYTES: usize = 24;
/// Length of a mapped register page.
pub const MMIO_MAP_LEN: usize = 0x1000;
/// Interval between two polls of the registers, in milliseconds.
pub const POLLING_INTERVAL_MS: u64 = 50;
/// Absolute offset in the command file of the PPS trigger register.
pub const PPS_TRIGGER_OFFSET: u64 = 0x1030;
/// Size of a mock MMIO file: the init/reset page and one page more.
pub const MOCK_MMIO_FILE_SIZE: usize = 0x13000;

/// A command of the controller.
#[derive(Debug, Clone, Copy, PartialEq, Eq, Structural)]
pub enum Command {
    /// Start generating and fill the FIFOs continuously.
    Start,
    /// Stop generating and filling the FIFOs.
    Stop,
}

impl Command {
    /// The command's code on the hardware interface.
    pub fn code(self) -> (code: u8)
        ensures
            code == (match self {
                Command::Start => 0x27u8,
                Command::Stop => 0x26u8,
            }),
    {
        match self {
            Command::Start => 0x27,
            Command::Stop => 0x26,
        }
    }
}

/// Whether a register value is one of the two values that a binary
/// register may hold.
pub open spec fn is_binary(value: u32) -> bool {
    value == 0 || value == 1
}

/// Records a new reading of a binary register: the last known value takes
/// the reading when it is `0` or `1`, and keeps its value otherwise. Returns
/// the last known value before the reading and the reading itself.
pub fn update_binary_mmio_state(last_known_value: &mut u32, current_value: u32) -> (transition: (u32, u32))
    ensures
        transition == (*old(last_known_value), current_value),
        *final(last_known_value) == if is_binary(current_value) { current_value } else { *old(last_known_value) },
{
    let previous_value = *last_known_value;
    if current_value == 0 || current_value == 1 {
        *last_known_value = current_value;
    }
    (previous_value, current_value)
}

/// The command that a transition of the generation start register signals:
/// `Start` on a rising edge (0 to 1), `Stop` on a falling edge (1 to 0).
pub open spec fn edge_command(previous_value: u32, current_value: u32) -> Option<Command> {
    if current_value == 1 && previous_value == 0 {
        Some(Command::Start)
    } else if current_value == 0 && previous_value == 1 {
        Some(Command::Stop)
    } else {
        None
    }
}

/// Records a reading of the generation start register and returns the
/// command that its edge signals, if any.
pub fn classify_generation_start_transition(last_known_value: &mut u32, current_value: u32) -> (command: Option<Command>)
    ensures
        command == edge_command(*old(last_known_value), current_value),
        *final(last_known_value) == if is_binary(current_value) { current_value } else { *old(last_known_value) },
{
    let (previous_value, current_value) = update_binary_mmio_state(last_known_value, current_value);
    if current_value == 1 && previous_value == 0 {
        Some(Command::Start)
    } else if current_value == 0 && previous_value == 1 {
        Some(Command::Stop)
    } else {
        None
    }
}

/// Why a register cannot be read or written.
#[derive(Debug, Clone, Copy, PartialEq, Eq, Structural)]
pub enum MmioAccessError {
    /// The address is not a multiple of 4.
    Misaligned,
    /// The four bytes at the address do not lie within the mapped length.
    OutOfBounds,
}

impl MmioAccessError {
    /// The message of the error.
    pub fn message(self) -> (text: &'static str)
        ensures
            text@ == (match self {
                MmioAccessError::Misaligned => "MMIO address must be u32-aligned"@,
                MmioAccessError::OutOfBounds => "MMIO address out of bounds for the mapped length"@,
            }),
    {
        match self {
            MmioAccessError::Misaligned => "MMIO address must be u32-aligned",
            MmioAccessError::OutOfBounds => "MMIO address out of bounds for the mapped length",
        }
    }
}

/// Checks that a 32-bit register at byte `value_addr_bytes` can be accessed
/// in a mapping of `map_len` bytes: the address must be aligned, and the
/// register must lie within the mapping.
pub fn check_mmio_access(value_addr_bytes: usize, map_len: usize) -> (r: Result<(), MmioAccessError>)
    ensures
        value_addr_bytes % 4 != 0 ==> r == Err::<(), MmioAccessError>(MmioAccessError::Misaligned),
        value_addr_bytes % 4 == 0 && value_addr_bytes + 4 > map_len ==> r == Err::<(), MmioAccessError>(
            MmioAccessError::OutOfBounds,
        ),
        r is Ok <==> value_addr_bytes % 4 == 0 && value_addr_bytes + 4 <= map_len,
{
    if value_addr_bytes % 4 != 0 {
        return Err(MmioAccessError::Misaligned);
    }
    if value_addr_bytes > map_len || map_len - value_addr_bytes < 4 {
        return Err(MmioAccessError::OutOfBounds);
    }
    Ok(())
}

/// Decodes the little-endian 32-bit value of a register from its four bytes.
pub fn register_value(bytes: [u8; 4]) -> (value: u32)
    ensures
        value == bytes@[0] as u32 + 256 * (bytes@[1] as u32) + 65536 * (bytes@[2] as u32) + 16777216 * (bytes@[3] as u32),
{
    bytes[0] as u32 + 256 * (bytes[1] as u32) + 65536 * (bytes[2] as u32) + 16777216 * (bytes[3] as u32)
}

/// Whether a file at a command path can serve as the mock MMIO device: it
/// must be a regular file of at least `required_size` bytes. Otherwise it is
/// recreated.
pub fn mock_mmio_file_is_suitable(is_file: bool, len: u64, required_size: usize) -> (suitable: bool)
    ensures
        suitable == (is_file && len >= required_size),
{
    is_file && len >= required_size as u64
}

/// Whether the init/reset trigger of a mock MMIO file of `required_size`
/// bytes lies within the file, so that it can be cleared.
pub fn command_trigger_fits(required_size: usize) -> (fits: bool)
    ensures
        fits == (INIT_RESET_MMIO_MAP_OFFSET + COMMAND_TRIGGER_ADDR_BYTES + 4 <= required_size),
{
    (required_size as u64) >= 0x12000 + 16 + 4
}

/// A rising edge of the generation start register always signals `Start`
/// and a falling edge `Stop`; a reading that is neither leaves the register
/// state alone, so a non-binary glitch can never fake an edge.
pub proof fn law_edges_and_glitches(previous_value: u32, current_value: u32)
    ensures
        (previous_value == 0 && current_value == 1) <==> edge_command(previous_value, current_value)
            == Some(Command::Start),
        (previous_value == 1 && current_value == 0) <==> edge_command(previous_value, current_value)
            == Some(Command::Stop),
        !is_binary(current_value) ==> edge_command(previous_value, current_value) is None,
        previous_value == current_value ==> edge_command(previous_value, current_value) is None,
{
}

} // verus!
