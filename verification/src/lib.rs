//! Execution and witness-generation core of a zkVM that proves MIPS machine
//! code: the instruction/event model, the dependency emitter that decomposes
//! complex operations into constraint-system primitives, the shared
//! byte-range-check subsystem, and the conversion of event streams into
//! fixed-shape trace matrices.
use vstd::prelude::*;

pub mod air;
pub mod byte;
pub mod cpu;
pub mod dependencies;
pub mod events;
pub mod executor;
pub mod guest;
pub mod keccak_xor;
pub mod opcode;
pub mod program;
pub mod record;
pub mod sdk;
pub mod syscall;
pub mod trace_util;

verus! {

/// Program-counter value carried by auxiliary events that do not belong to a
/// fetched instruction.
pub const UNUSED_PC: u32 = 1;

} // verus!
