//! The instruction-set simulator's state as the dependency emitter sees it:
//! the execution record of the current shard and the shard index.
use vstd::prelude::*;
use crate::record::ExecutionRecord;

verus! {

/// The executor: the state machine that steps the program and owns the
/// execution record of the shard being generated.
pub struct Executor {
    /// The execution record of the current shard.
    pub record: ExecutionRecord,
    /// The index of the current shard.
    pub current_shard: u32,
}

impl Executor {
    /// Creates an executor positioned at shard `current_shard` with `record`.
    pub fn new(record: ExecutionRecord, current_shard: u32) -> (r: Executor)
        ensures
            r.record == record,
            r.current_shard == current_shard,
    {
        Executor { record, current_shard }
    }

    /// Returns the index of the current shard.
    pub fn shard(&self) -> (r: u32)
        ensures
            r == self.current_shard,
    {
        self.current_shard
    }
}

} // verus!
