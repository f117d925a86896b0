//! Event records: one primary event per executed instruction, plus the
//! auxiliary records that pair with it through correlation identifiers.
//! Every event is created exactly once and never mutated afterwards.
use vstd::prelude::*;
use crate::opcode::Opcode;

verus! {

/// An opaque, shard-scoped correlation identifier pairing a primary event
/// with the auxiliary events it spawned. Identifiers are compared only for
/// identity, never interpreted numerically.
#[derive(Clone, Copy, Debug, PartialEq, Eq, Structural, Hash)]
pub struct LookupId(pub u64);

/// A memory access record: the value seen by the access and its timing.
#[derive(Clone, Copy, Debug, PartialEq, Eq, Structural)]
pub struct MemoryRecord {
    /// The value at the memory address.
    pub value: u32,
    /// The shard of the access.
    pub shard: u32,
    /// The timestamp of the access.
    pub timestamp: u32,
}

/// A memory read record: the (unchanged) value and the previous access time.
#[derive(Clone, Copy, Debug, PartialEq, Eq, Structural)]
pub struct MemoryReadRecord {
    /// The value read.
    pub value: u32,
    /// The shard of the read.
    pub shard: u32,
    /// The timestamp of the read.
    pub timestamp: u32,
    /// The shard of the previous access.
    pub prev_shard: u32,
    /// The timestamp of the previous access.
    pub prev_timestamp: u32,
}

/// A memory write record: the new value, the previous value, and both times.
#[derive(Clone, Copy, Debug, PartialEq, Eq, Structural)]
pub struct MemoryWriteRecord {
    /// The value written.
    pub value: u32,
    /// The shard of the write.
    pub shard: u32,
    /// The timestamp of the write.
    pub timestamp: u32,
    /// The value before the write.
    pub prev_value: u32,
    /// The shard of the previous access.
    pub prev_shard: u32,
    /// The timestamp of the previous access.
    pub prev_timestamp: u32,
}

/// Either kind of memory access record.
#[derive(Clone, Copy, Debug, PartialEq, Eq, Structural)]
pub enum MemoryRecordEnum {
    /// A read access.
    Read(MemoryReadRecord),
    /// A write access.
    Write(MemoryWriteRecord),
}

impl MemoryRecordEnum {
    /// The value seen after the access.
    pub open spec fn spec_value(self) -> u32 {
        match self {
            MemoryRecordEnum::Read(r) => r.value,
            MemoryRecordEnum::Write(w) => w.value,
        }
    }

    /// The value held before the access (a read leaves it unchanged).
    pub open spec fn spec_prev_value(self) -> u32 {
        match self {
            MemoryRecordEnum::Read(r) => r.value,
            MemoryRecordEnum::Write(w) => w.prev_value,
        }
    }

    /// The shard of the access that preceded this one.
    pub open spec fn spec_prev_shard(self) -> u32 {
        match self {
            MemoryRecordEnum::Read(r) => r.prev_shard,
            MemoryRecordEnum::Write(w) => w.prev_shard,
        }
    }

    /// The timestamp of the access that preceded this one.
    pub open spec fn spec_prev_timestamp(self) -> u32 {
        match self {
            MemoryRecordEnum::Read(r) => r.prev_timestamp,
            MemoryRecordEnum::Write(w) => w.prev_timestamp,
        }
    }

    #[verifier::when_used_as_spec(spec_prev_shard)]
    pub fn prev_shard(self) -> (r: u32)
        ensures
            r == self.spec_prev_shard(),
    {
        match self {
            MemoryRecordEnum::Read(r) => r.prev_shard,
            MemoryRecordEnum::Write(w) => w.prev_shard,
        }
    }

    #[verifier::when_used_as_spec(spec_prev_timestamp)]
    pub fn prev_timestamp(self) -> (r: u32)
        ensures
            r == self.spec_prev_timestamp(),
    {
        match self {
            MemoryRecordEnum::Read(r) => r.prev_timestamp,
            MemoryRecordEnum::Write(w) => w.prev_timestamp,
        }
    }

    #[verifier::when_used_as_spec(spec_value)]
    pub fn value(self) -> (r: u32)
        ensures
            r == self.spec_value(),
    {
        match self {
            MemoryRecordEnum::Read(r) => r.value,
            MemoryRecordEnum::Write(w) => w.value,
        }
    }

    #[verifier::when_used_as_spec(spec_prev_value)]
    pub fn prev_value(self) -> (r: u32)
        ensures
            r == self.spec_prev_value(),
    {
        match self {
            MemoryRecordEnum::Read(r) => r.value,
            MemoryRecordEnum::Write(w) => w.prev_value,
        }
    }
}

/// Arithmetic Logic Unit (ALU) event: the operands, opcode and timing needed
/// to prove one ALU operation.
#[derive(Clone, Copy, Debug, PartialEq, Eq)]
pub struct AluEvent {
    /// The correlation identifier of this event.
    pub lookup_id: LookupId,
    /// The shard the event belongs to.
    pub shard: u32,
    /// The clock cycle of the event.
    pub clk: u32,
    /// The program counter.
    pub pc: u32,
    /// The next program counter.
    pub next_pc: u32,
    /// The opcode.
    pub opcode: Opcode,
    /// The upper bits of the output operand, for LO/HI operations.
    pub hi: u32,
    /// The output operand.
    pub a: u32,
    /// The first input operand.
    pub b: u32,
    /// The second input operand.
    pub c: u32,
    /// Whether the first operand is register 0.
    pub op_a_0: bool,
    /// The correlation identifiers drawn for the auxiliary events this event
    /// may spawn.
    pub sub_lookups: [LookupId; 6],
}

impl AluEvent {
    /// Creates a new `AluEvent` at program counter `pc`, advancing
    /// sequentially.
    pub fn new(pc: u32, opcode: Opcode, a: u32, b: u32, c: u32, op_a_0: bool) -> (r: AluEvent)
        requires
            pc + 4 <= u32::MAX,
        ensures
            r == (AluEvent {
                lookup_id: LookupId(0),
                shard: 0,
                clk: 0,
                pc,
                next_pc: (pc + 4) as u32,
                opcode,
                hi: 0,
                a,
                b,
                c,
                op_a_0,
                sub_lookups: r.sub_lookups,
            }),
            r.sub_lookups@ == Seq::new(6, |i: int| LookupId(0)),
    {
        let sub_lookups: [LookupId; 6] = [LookupId(0); 6];
        assert(sub_lookups@ =~= Seq::new(6, |i: int| LookupId(0)));
        AluEvent {
            lookup_id: LookupId(0),
            shard: 0,
            clk: 0,
            pc,
            next_pc: pc + 4,
            opcode,
            hi: 0,
            a,
            b,
            c,
            op_a_0,
            sub_lookups,
        }
    }

    /// Creates a new `AluEvent` for an opcode that also writes the HI
    /// register (multiplication and division families).
    pub fn new_with_hi(
        pc: u32,
        opcode: Opcode,
        a: u32,
        b: u32,
        c: u32,
        op_a_0: bool,
        hi: u32,
    ) -> (r: AluEvent)
        requires
            pc + 4 <= u32::MAX,
        ensures
            r == (AluEvent {
                lookup_id: LookupId(0),
                shard: 0,
                clk: 0,
                pc,
                next_pc: (pc + 4) as u32,
                opcode,
                hi,
                a,
                b,
                c,
                op_a_0,
                sub_lookups: r.sub_lookups,
            }),
            r.sub_lookups@ == Seq::new(6, |i: int| LookupId(0)),
    {
        let sub_lookups: [LookupId; 6] = [LookupId(0); 6];
        assert(sub_lookups@ =~= Seq::new(6, |i: int| LookupId(0)));
        AluEvent {
            lookup_id: LookupId(0),
            shard: 0,
            clk: 0,
            pc,
            next_pc: pc + 4,
            opcode,
            hi,
            a,
            b,
            c,
            op_a_0,
            sub_lookups,
        }
    }
}

/// Memory instruction event: the information needed to prove one MIPS memory
/// operation.
#[derive(Clone, Copy, Debug, PartialEq, Eq, Structural)]
pub struct MemInstrEvent {
    /// The shard.
    pub shard: u32,
    /// The clock cycle.
    pub clk: u32,
    /// The program counter.
    pub pc: u32,
    /// The next program counter.
    pub next_pc: u32,
    /// The opcode.
    pub opcode: Opcode,
    /// The first operand value.
    pub a: u32,
    /// The second operand value.
    pub b: u32,
    /// The third operand value.
    pub c: u32,
    /// Whether the first operand is register 0.
    pub op_a_0: bool,
    /// The memory access record of the addressed word.
    pub mem_access: MemoryRecordEnum,
    /// The memory access record of the first operand.
    pub op_a_access: MemoryRecordEnum,
}

impl MemInstrEvent {
    /// Creates a new `MemInstrEvent`.
    pub fn new(
        shard: u32,
        clk: u32,
        pc: u32,
        next_pc: u32,
        opcode: Opcode,
        a: u32,
        b: u32,
        c: u32,
        op_a_0: bool,
        mem_access: MemoryRecordEnum,
        op_a_access: MemoryRecordEnum,
    ) -> (r: MemInstrEvent)
        ensures
            r == (MemInstrEvent {
                shard,
                clk,
                pc,
                next_pc,
                opcode,
                a,
                b,
                c,
                op_a_0,
                mem_access,
                op_a_access,
            }),
    {
        MemInstrEvent { shard, clk, pc, next_pc, opcode, a, b, c, op_a_0, mem_access, op_a_access }
    }
}

/// Branch instruction event: the information needed to prove one MIPS branch.
#[derive(Clone, Copy, Debug, PartialEq, Eq, Structural)]
pub struct BranchEvent {
    /// The program counter.
    pub pc: u32,
    /// The next program counter.
    pub next_pc: u32,
    /// The program counter after the branch resolves.
    pub next_next_pc: u32,
    /// The opcode.
    pub opcode: Opcode,
    /// The first operand value.
    pub a: u32,
    /// The second operand value.
    pub b: u32,
    /// The third operand value.
    pub c: u32,
    /// Whether the first operand is register 0.
    pub op_a_0: bool,
}

impl BranchEvent {
    /// Creates a new `BranchEvent`.
    pub fn new(
        pc: u32,
        next_pc: u32,
        next_next_pc: u32,
        opcode: Opcode,
        a: u32,
        b: u32,
        c: u32,
        op_a_0: bool,
    ) -> (r: BranchEvent)
        ensures
            r == (BranchEvent { pc, next_pc, next_next_pc, opcode, a, b, c, op_a_0 }),
    {
        BranchEvent { pc, next_pc, next_next_pc, opcode, a, b, c, op_a_0 }
    }
}

/// Jump instruction event: the information needed to prove one MIPS jump.
#[derive(Clone, Copy, Debug, PartialEq, Eq, Structural)]
pub struct JumpEvent {
    /// The program counter.
    pub pc: u32,
    /// The next program counter.
    pub next_pc: u32,
    /// The program counter after the jump resolves.
    pub next_next_pc: u32,
    /// The opcode.
    pub opcode: Opcode,
    /// The first operand value.
    pub a: u32,
    /// The second operand value.
    pub b: u32,
    /// The third operand value.
    pub c: u32,
    /// Whether the first operand is register 0.
    pub op_a_0: bool,
}

impl JumpEvent {
    /// Creates a new `JumpEvent`.
    pub fn new(
        pc: u32,
        next_pc: u32,
        next_next_pc: u32,
        opcode: Opcode,
        a: u32,
        b: u32,
        c: u32,
        op_a_0: bool,
    ) -> (r: JumpEvent)
        ensures
            r == (JumpEvent { pc, next_pc, next_next_pc, opcode, a, b, c, op_a_0 }),
    {
        JumpEvent { pc, next_pc, next_next_pc, opcode, a, b, c, op_a_0 }
    }
}

/// Misc instruction event: the information needed to prove one MIPS misc
/// operation.
#[derive(Clone, Copy, Debug, PartialEq, Eq, Structural)]
pub struct MiscEvent {
    /// The program counter.
    pub pc: u32,
    /// The next program counter.
    pub next_pc: u32,
    /// The opcode.
    pub opcode: Opcode,
    /// The first operand value.
    pub a: u32,
    /// The second operand value.
    pub b: u32,
    /// The third operand value.
    pub c: u32,
    /// The HI register value.
    pub hi: u32,
    /// The first operand memory record.
    pub a_record: MemoryWriteRecord,
    /// The HI operand memory record.
    pub hi_record: MemoryWriteRecord,
    /// Whether the first operand is register 0.
    pub op_a_0: bool,
}

impl MiscEvent {
    /// Creates a new `MiscEvent`.
    pub fn new(
        pc: u32,
        next_pc: u32,
        opcode: Opcode,
        a: u32,
        b: u32,
        c: u32,
        hi: u32,
        a_record: MemoryWriteRecord,
        hi_record: MemoryWriteRecord,
        op_a_0: bool,
    ) -> (r: MiscEvent)
        ensures
            r == (MiscEvent { pc, next_pc, opcode, a, b, c, hi, a_record, hi_record, op_a_0 }),
    {
        MiscEvent { pc, next_pc, opcode, a, b, c, hi, a_record, hi_record, op_a_0 }
    }
}

/// Primary CPU event: one per executed instruction, in program order.
#[derive(Clone, Copy, Debug, PartialEq, Eq, Structural)]
pub struct CpuEvent {
    /// The clock cycle.
    pub clk: u32,
    /// The program counter.
    pub pc: u32,
    /// The next program counter.
    pub next_pc: u32,
    /// The program counter after the next instruction.
    pub next_next_pc: u32,
    /// The first operand value.
    pub a: u32,
    /// The second operand value.
    pub b: u32,
    /// The third operand value.
    pub c: u32,
    /// The HI register value, for operations that write it.
    pub hi: Option<u32>,
    /// The memory record of the first operand.
    pub a_record: Option<MemoryRecordEnum>,
    /// The memory record of the second operand.
    pub b_record: Option<MemoryRecordEnum>,
    /// The memory record of the third operand.
    pub c_record: Option<MemoryRecordEnum>,
    /// The memory record of the HI register write.
    pub hi_record: Option<MemoryWriteRecord>,
    /// The correlation identifier of the ALU lookup.
    pub alu_lookup_id: LookupId,
    /// The correlation identifier of the syscall lookup.
    pub syscall_lookup_id: LookupId,
    /// The correlation identifier of the memory-address addition check.
    pub memory_add_lookup_id: LookupId,
    /// The correlation identifier of the sign-extension subtraction check.
    pub memory_sub_lookup_id: LookupId,
    /// The correlation identifier of the branch less-than check.
    pub branch_lt_lookup_id: LookupId,
    /// The correlation identifier of the branch greater-than check.
    pub branch_gt_lookup_id: LookupId,
    /// The correlation identifier of the branch target addition check.
    pub branch_add_lookup_id: LookupId,
    /// The correlation identifier of the jump target addition check.
    pub jump_jumpd_lookup_id: LookupId,
}

/// Keccak-256 rate-xor precompile event: the state rate, the message block,
/// their xor, and the memory records of the accesses that carried them.
#[derive(Clone, Debug, PartialEq, Eq)]
pub struct Keccak256XorEvent {
    /// The correlation identifier.
    pub lookup_id: LookupId,
    /// The shard number.
    pub shard: u32,
    /// The clock cycle.
    pub clk: u32,
    /// The original rate as a list of words.
    pub original_rate: Vec<u32>,
    /// The block as a list of words.
    pub block: Vec<u32>,
    /// The xored rate as a list of words.
    pub xored_rate: Vec<u32>,
    /// The memory records for the original rate.
    pub rate_read_records: Vec<MemoryReadRecord>,
    /// The memory records for the block.
    pub block_read_records: Vec<MemoryReadRecord>,
    /// The memory records for the xored rate.
    pub rate_write_records: Vec<MemoryWriteRecord>,
    /// The address of the rate.
    pub rate_addr: u32,
    /// The address of the block.
    pub block_addr: u32,
}

} // verus!
