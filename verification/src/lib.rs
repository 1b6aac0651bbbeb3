//! A simulator of the QKD hardware pair (Alice the source, Bob the detector).
//!
//! The library holds the verified logic: the configuration values, the
//! correlated batch generation driven by a seeded random stream, the FIFO
//! encodings, the MMIO edge detection, the runtime control protocol and the
//! recalibration handshake. I/O, timing and floating-point work live in the
//! application around it.
use vstd::prelude::*;

pub mod bits;
pub mod builder;
pub mod cli;
pub mod actor;
pub mod batch;
pub mod config;
pub mod control;
pub mod errors;
pub mod gc;
pub mod link;
pub mod mmio;
pub mod overlap;
pub mod recalibration;
pub mod rng;
pub mod simulation;
pub mod supervisor;
pub mod text;
pub mod workflow;

verus! {

} // verus!
