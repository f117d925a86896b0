//! The CPU chip: its column layout and the conversion of primary CPU events
//! into trace rows and byte-lookup requests.
pub mod columns;
pub mod trace;

use vstd::prelude::*;

verus! {

/// The CPU chip.
pub struct CpuChip;

impl CpuChip {
    /// Creates the CPU chip.
    pub fn new() -> (r: CpuChip) {
        CpuChip {  }
    }
}

} // verus!
