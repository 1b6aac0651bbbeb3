//! Configuration values shared by the simulator and its controllers.
use vstd::prelude::*;
use vstd::string::*;

verus! {

/// Fixed phase offset applied by the simulated optical setup.
///
/// One full turn is 128 phase steps, so a quarter turn is 32 steps. The
/// offset only affects the simulated measurement correlation, never the
/// two-bit setting codes written to the FIFOs.
#[derive(Debug, Clone, Copy, PartialEq, Eq, Structural)]
pub enum SourceSettingOffset {
    Zero,
    QuarterTurn,
    HalfTurn,
    ThreeQuarterTurns,
}

/// The number of phase steps of an offset (a turn is 128 steps).
pub open spec fn spec_phase_steps(offset: SourceSettingOffset) -> u8 {
    match offset {
        SourceSettingOffset::Zero => 0,
        SourceSettingOffset::QuarterTurn => 32,
        SourceSettingOffset::HalfTurn => 64,
        SourceSettingOffset::ThreeQuarterTurns => 96,
    }
}

impl SourceSettingOffset {
    /// Converts the configured fraction of a turn to the simulator's
    /// 128-step phase representation.
    pub fn phase_steps(self) -> (steps: u8)
        ensures
            steps == spec_phase_steps(self),
            steps < 128,
            steps % 32 == 0,
    {
        match self {
            SourceSettingOffset::Zero => 0,
            SourceSettingOffset::QuarterTurn => 32,
            SourceSettingOffset::HalfTurn => 64,
            SourceSettingOffset::ThreeQuarterTurns => 96,
        }
    }
}

impl Default for SourceSettingOffset {
    /// The historical `+32` behaviour: a quarter turn.
    fn default() -> (offset: Self)
        ensures
            offset == SourceSettingOffset::QuarterTurn,
    {
        SourceSettingOffset::QuarterTurn
    }
}

/// Default runtime control socket of Alice's simulator.
pub const DEFAULT_ALICE_CONTROL_SOCKET_PATH: &'static str = "/tmp/hw_sim_alice_control.socket";
/// Default runtime control socket of Bob's simulator.
pub const DEFAULT_BOB_CONTROL_SOCKET_PATH: &'static str = "/tmp/hw_sim_bob_control.socket";
/// Default hardware-ready file of Alice's simulator.
pub const DEFAULT_ALICE_QKD_READY_PATH: &'static str = "/tmp/qkd_ready_alice";
/// Default hardware-ready file of Bob's simulator.
pub const DEFAULT_BOB_QKD_READY_PATH: &'static str = "/tmp/qkd_ready_bob";
/// Default node-idle acknowledgement file of Alice's simulator.
pub const DEFAULT_ALICE_NODE_IDLE_PATH: &'static str = "/tmp/node_idle_alice";
/// Default node-idle acknowledgement file of Bob's simulator.
pub const DEFAULT_BOB_NODE_IDLE_PATH: &'static str = "/tmp/node_idle_bob";

/// The IPC paths of Alice's (source) simulator.
#[derive(Debug, Clone, PartialEq, Eq)]
pub struct AliceIpcConfig {
    pub command_path: String,
    pub angle_file_path: String,
    pub gc_read_file_path: String,
    pub control_socket_path: Option<String>,
    pub qkd_ready_path: Option<String>,
    pub node_idle_path: Option<String>,
}

/// The IPC paths of Bob's (detector) simulator.
#[derive(Debug, Clone, PartialEq, Eq)]
pub struct BobIpcConfig {
    pub command_path: String,
    pub angle_file_path: String,
    pub gcr_file_path: String,
    pub gc_read_file_path: String,
    pub control_socket_path: Option<String>,
    pub qkd_ready_path: Option<String>,
    pub node_idle_path: Option<String>,
}

impl Default for AliceIpcConfig {
    fn default() -> (config: Self)
        ensures
            config.command_path@ == "/tmp/fpga_alice"@,
            config.angle_file_path@ == "/tmp/gc_alice_angle.fifo"@,
            config.gc_read_file_path@ == "/tmp/gc_alice_gc.fifo"@,
            config.control_socket_path is None,
            config.qkd_ready_path is None,
            config.node_idle_path is None,
    {
        AliceIpcConfig {
            command_path: "/tmp/fpga_alice".to_owned(),
            angle_file_path: "/tmp/gc_alice_angle.fifo".to_owned(),
            gc_read_file_path: "/tmp/gc_alice_gc.fifo".to_owned(),
            control_socket_path: None,
            qkd_ready_path: None,
            node_idle_path: None,
        }
    }
}

impl Default for BobIpcConfig {
    fn default() -> (config: Self)
        ensures
            config.command_path@ == "/tmp/fpga_bob"@,
            config.angle_file_path@ == "/tmp/gc_bob_angle.fifo"@,
            config.gcr_file_path@ == "/tmp/gc_bob_gcr.fifo"@,
            config.gc_read_file_path@ == "/tmp/gc_bob_gc.fifo"@,
            config.control_socket_path is None,
            config.qkd_ready_path is None,
            config.node_idle_path is None,
    {
        BobIpcConfig {
            command_path: "/tmp/fpga_bob".to_owned(),
            angle_file_path: "/tmp/gc_bob_angle.fifo".to_owned(),
            gcr_file_path: "/tmp/gc_bob_gcr.fifo".to_owned(),
            gc_read_file_path: "/tmp/gc_bob_gc.fifo".to_owned(),
            control_socket_path: None,
            qkd_ready_path: None,
            node_idle_path: None,
        }
    }
}

/// The IPC configuration of a simulator, which also decides its role.
#[derive(Debug, Clone, PartialEq, Eq)]
pub enum IpcConfiguration {
    Bob(BobIpcConfig),
    Alice(AliceIpcConfig),
}

impl Default for IpcConfiguration {
    /// Bob's default paths.
    fn default() -> (config: Self)
        ensures
            config matches IpcConfiguration::Bob(bob) && bob.command_path@ == "/tmp/fpga_bob"@
                && bob.angle_file_path@ == "/tmp/gc_bob_angle.fifo"@ && bob.gcr_file_path@
                == "/tmp/gc_bob_gcr.fifo"@ && bob.gc_read_file_path@ == "/tmp/gc_bob_gc.fifo"@
                && bob.control_socket_path is None && bob.qkd_ready_path is None
                && bob.node_idle_path is None,
    {
        IpcConfiguration::Bob(BobIpcConfig::default())
    }
}

/// Whether `prefix` is a prefix of `s`.
fn str_starts_with(s: &str, prefix: &str) -> (starts: bool)
    ensures
        starts == (prefix@.len() <= s@.len() && s@.subrange(0, prefix@.len() as int) == prefix@),
{
    let n = prefix.unicode_len();
    if n > s.unicode_len() {
        return false;
    }
    s.substring_char(0, n).to_owned() == prefix.to_owned()
}

/// Whether `s` starts with `prefix`.
pub open spec fn has_prefix(s: Seq<char>, prefix: Seq<char>) -> bool {
    prefix.len() <= s.len() && s.subrange(0, prefix.len() as int) == prefix
}

/// The value of an optional path, or its default.
fn path_or(path: &Option<String>, default: &str) -> (value: String)
    ensures
        value@ == (match path {
            Some(p) => p@,
            None => default@,
        }),
{
    match path {
        Some(p) => p.clone(),
        None => default.to_owned(),
    }
}

impl IpcConfiguration {
    /// The command (MMIO) path of the configuration.
    pub open spec fn spec_command_path(&self) -> Seq<char> {
        match self {
            IpcConfiguration::Alice(c) => c.command_path@,
            IpcConfiguration::Bob(c) => c.command_path@,
        }
    }

    /// The FIFOs to create: Alice's angle and GC FIFOs; Bob's angle, GCR and
    /// GC FIFOs.
    pub open spec fn spec_fifo_paths(&self) -> Seq<Seq<char>> {
        match self {
            IpcConfiguration::Alice(c) => seq![c.angle_file_path@, c.gc_read_file_path@],
            IpcConfiguration::Bob(c) => seq![c.angle_file_path@, c.gcr_file_path@, c.gc_read_file_path@],
        }
    }

    /// The paths of the FIFOs that the simulator creates.
    pub fn fifo_paths(&self) -> (paths: Vec<String>)
        ensures
            paths@.len() == self.spec_fifo_paths().len(),
            forall|i: int| 0 <= i < paths@.len() ==> #[trigger] paths@[i]@ == self.spec_fifo_paths()[i],
    {
        let mut paths: Vec<String> = Vec::new();
        match self {
            IpcConfiguration::Alice(c) => {
                paths.push(c.angle_file_path.clone());
                paths.push(c.gc_read_file_path.clone());
            },
            IpcConfiguration::Bob(c) => {
                paths.push(c.angle_file_path.clone());
                paths.push(c.gcr_file_path.clone());
                paths.push(c.gc_read_file_path.clone());
            },
        }
        paths
    }

    /// The command (MMIO) path.
    pub fn command_path(&self) -> (path: &String)
        ensures
            path@ == self.spec_command_path(),
    {
        match self {
            IpcConfiguration::Alice(c) => &c.command_path,
            IpcConfiguration::Bob(c) => &c.command_path,
        }
    }

    /// Whether the command path names a mock MMIO file (under `./files/` or
    /// `/tmp/`) that the simulator must create, rather than a device.
    pub fn uses_mock_mmio_file(&self) -> (mock: bool)
        ensures
            mock == (has_prefix(self.spec_command_path(), "./files/"@) || has_prefix(
                self.spec_command_path(),
                "/tmp/"@,
            )),
    {
        let path = self.command_path().as_str();
        str_starts_with(path, "./files/") || str_starts_with(path, "/tmp/")
    }

    /// The runtime control socket: the configured one, or the role's default.
    pub fn control_socket_path(&self) -> (path: String)
        ensures
            path@ == (match self {
                IpcConfiguration::Alice(c) => match c.control_socket_path {
                    Some(p) => p@,
                    None => DEFAULT_ALICE_CONTROL_SOCKET_PATH@,
                },
                IpcConfiguration::Bob(c) => match c.control_socket_path {
                    Some(p) => p@,
                    None => DEFAULT_BOB_CONTROL_SOCKET_PATH@,
                },
            }),
    {
        match self {
            IpcConfiguration::Alice(c) => path_or(&c.control_socket_path, DEFAULT_ALICE_CONTROL_SOCKET_PATH),
            IpcConfiguration::Bob(c) => path_or(&c.control_socket_path, DEFAULT_BOB_CONTROL_SOCKET_PATH),
        }
    }

    /// The hardware-ready file: the configured one, or the role's default.
    pub fn qkd_ready_path(&self) -> (path: String)
        ensures
            path@ == (match self {
                IpcConfiguration::Alice(c) => match c.qkd_ready_path {
                    Some(p) => p@,
                    None => DEFAULT_ALICE_QKD_READY_PATH@,
                },
                IpcConfiguration::Bob(c) => match c.qkd_ready_path {
                    Some(p) => p@,
                    None => DEFAULT_BOB_QKD_READY_PATH@,
                },
            }),
    {
        match self {
            IpcConfiguration::Alice(c) => path_or(&c.qkd_ready_path, DEFAULT_ALICE_QKD_READY_PATH),
            IpcConfiguration::Bob(c) => path_or(&c.qkd_ready_path, DEFAULT_BOB_QKD_READY_PATH),
        }
    }

    /// The node-idle acknowledgement file: the configured one, or the role's
    /// default.
    pub fn node_idle_path(&self) -> (path: String)
        ensures
            path@ == (match self {
                IpcConfiguration::Alice(c) => match c.node_idle_path {
                    Some(p) => p@,
                    None => DEFAULT_ALICE_NODE_IDLE_PATH@,
                },
                IpcConfiguration::Bob(c) => match c.node_idle_path {
                    Some(p) => p@,
                    None => DEFAULT_BOB_NODE_IDLE_PATH@,
                },
            }),
    {
        match self {
            IpcConfiguration::Alice(c) => path_or(&c.node_idle_path, DEFAULT_ALICE_NODE_IDLE_PATH),
            IpcConfiguration::Bob(c) => path_or(&c.node_idle_path, DEFAULT_BOB_NODE_IDLE_PATH),
        }
    }

    /// Whether the configuration is Alice's (the source) rather than Bob's
    /// (the detector).
    pub fn is_source(&self) -> (source: bool)
        ensures
            source == (self is Alice),
    {
        match self {
            IpcConfiguration::Alice(_) => true,
            IpcConfiguration::Bob(_) => false,
        }
    }

    /// The player's name: "Alice" or "Bob".
    pub fn role_name(&self) -> (name: &'static str)
        ensures
            name@ == (if self is Alice { "Alice"@ } else { "Bob"@ }),
    {
        match self {
            IpcConfiguration::Alice(_) => "Alice",
            IpcConfiguration::Bob(_) => "Bob",
        }
    }
}

/// The logging level, as its name.
#[derive(Debug, Clone, PartialEq, Eq)]
pub struct LogLevel(pub String);

impl Default for LogLevel {
    /// The `Info` level.
    fn default() -> (level: Self)
        ensures
            level.0@ == "Info"@,
    {
        LogLevel("Info".to_owned())
    }
}

} // verus!
