//! The errors of the simulated hardware and of the correlation protocol.
use vstd::prelude::*;

verus! {

/// Errors of the simulated hardware.
#[derive(Debug, Clone, PartialEq, Eq)]
pub enum HardwareError {
    GlobalCounterNotSynced,
    Timeout,
    ModulatorStateNotSupported,
    ResetFifoAtThisGcOverflow,
    FifoOverflow,
    Other { reason: String },
}

/// Errors of the correlation protocol.
#[derive(Debug, Clone, PartialEq, Eq)]
pub enum ProtocolError {
    Role { reason: String },
    ModulatorState { reason: String },
    Size { reason: String },
}

/// Errors of a simulator operation.
#[derive(Debug, Clone, PartialEq, Eq)]
pub enum SimulationError {
    HardwareError { source: HardwareError },
    ProtocolError { source: ProtocolError },
}

} // verus!
