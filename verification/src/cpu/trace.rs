//! Conversion of primary CPU events into trace rows and byte-lookup
//! requests. Row conversion is independent per event, so the dependency pass
//! partitions the event stream into chunks, builds one private multiplicity
//! map per chunk, and merges the maps afterwards.
use vstd::prelude::*;
use crate::byte::{count_in, maps_mult, maps_total, ByteLookupEvent, ByteLookupMap, ByteOpcode};
use crate::cpu::columns::{
    CpuCols, InstructionCols, MemoryReadCols, MemoryReadWriteCols, OpcodeSelectorCols,
    OpcodeSpecificCols, SyscallCols, WordCols, lemma_word_cols_roundtrip, NUM_CPU_COLS,
    PV_DIGEST_NUM_WORDS,
};
use crate::cpu::CpuChip;
use crate::events::CpuEvent;
use crate::program::Instruction;
use crate::record::ExecutionRecord;
use crate::air::MipsAirId;
use crate::trace_util::{exec_pow2, next_pow2, spec_pow2, RowMajorMatrix};
use crate::syscall::SyscallCode;

verus! {

/// The number of byte-lookup requests one CPU event contributes.
pub const CPU_EVENT_NUM_BLUS: usize = 5;

/// One as a field element when `b` holds, zero otherwise.
pub open spec fn bool01(b: bool) -> u32 {
    if b {
        1u32
    } else {
        0u32
    }
}

/// The byte-lookup requests that range check the shard and the clock limbs
/// of one row.
pub open spec fn spec_shard_clk_blus(shard: u32, clk: u32) -> Seq<ByteLookupEvent> {
    seq![
        ByteLookupEvent {
            shard,
            opcode: ByteOpcode::U16Range,
            a1: shard as u16,
            a2: 0,
            b: 0,
            c: 0,
        },
        ByteLookupEvent {
            shard,
            opcode: ByteOpcode::U16Range,
            a1: (clk & 0xFFFF) as u16,
            a2: 0,
            b: 0,
            c: 0,
        },
        ByteLookupEvent {
            shard,
            opcode: ByteOpcode::U8Range,
            a1: 0,
            a2: 0,
            b: 0,
            c: ((clk >> 16) & 0xFF) as u8,
        },
    ]
}

/// The byte-lookup requests that range check the four bytes of the first
/// operand value of one row.
pub open spec fn spec_a_range_blus(shard: u32, a: u32) -> Seq<ByteLookupEvent> {
    seq![
        ByteLookupEvent {
            shard,
            opcode: ByteOpcode::U8Range,
            a1: 0,
            a2: 0,
            b: (a & 0xFF) as u8,
            c: ((a >> 8) & 0xFF) as u8,
        },
        ByteLookupEvent {
            shard,
            opcode: ByteOpcode::U8Range,
            a1: 0,
            a2: 0,
            b: ((a >> 16) & 0xFF) as u8,
            c: ((a >> 24) & 0xFF) as u8,
        },
    ]
}

/// All byte-lookup requests one CPU event contributes, in emission order.
pub open spec fn spec_cpu_event_blus(shard: u32, event: CpuEvent) -> Seq<ByteLookupEvent> {
    spec_shard_clk_blus(shard, event.clk) + spec_a_range_blus(shard, event.a)
}

/// The byte-lookup requests of the events with indices in `[lo, hi)`, in
/// order.
pub open spec fn spec_cpu_blus_range(shard: u32, events: Seq<CpuEvent>, lo: int, hi: int) -> Seq<
    ByteLookupEvent,
>
    decreases hi - lo,
{
    if hi <= lo {
        Seq::empty()
    } else {
        spec_cpu_blus_range(shard, events, lo, hi - 1) + spec_cpu_event_blus(
            shard,
            events[hi - 1],
        )
    }
}

/// All byte-lookup requests the dependency pass of the CPU chip derives from
/// a shard, in order.
pub open spec fn spec_cpu_record_blus(input: ExecutionRecord) -> Seq<ByteLookupEvent> {
    spec_cpu_blus_range(
        input.public_values.execution_shard,
        input.cpu_events@,
        0,
        input.cpu_events@.len() as int,
    )
}

/// The most significant byte limb read out of the previous value of the
/// first operand: the syscall identifier cell of a syscall row.
pub open spec fn spec_a_prev_b0(event: CpuEvent) -> u32 {
    match event.a_record {
        Some(rec) => rec.spec_prev_value() & 0xFF,
        None => 0u32,
    }
}

/// The second byte limb of the previous value of the first operand: the
/// send-to-table cell of a syscall row.
pub open spec fn spec_a_prev_b1(event: CpuEvent) -> u32 {
    match event.a_record {
        Some(rec) => (rec.spec_prev_value() >> 8) & 0xFF,
        None => 0u32,
    }
}

/// What row conversion demands of one event: a syscall row must find its
/// nonce in the nonce table, and a digest commit must name one of the digest
/// words.
pub open spec fn spec_cpu_event_ok(event: CpuEvent, nonces: Seq<u32>, instruction: Instruction)
    -> bool {
    OpcodeSelectorCols::spec_populate(instruction).is_syscall == 1 ==> {
        &&& event.syscall_lookup_id.0 < nonces.len()
        &&& ((spec_a_prev_b0(event) == SyscallCode::Commit.spec_syscall_id() || spec_a_prev_b0(
            event,
        ) == SyscallCode::CommitDeferredProofs.spec_syscall_id()) ==> event.b
            < PV_DIGEST_NUM_WORDS)
    }
}

/// The syscall columns of a row whose selectors mark a syscall.
pub open spec fn spec_syscall_cols(event: CpuEvent, nonces: Seq<u32>) -> SyscallCols {
    let sid = spec_a_prev_b0(event);
    let base = SyscallCols {
        is_enter_unconstrained: bool01(sid == SyscallCode::EnterUnconstrained.spec_syscall_id()),
        is_hint_len: bool01(sid == SyscallCode::Hintlen.spec_syscall_id()),
        is_halt: bool01(sid == SyscallCode::Halt.spec_syscall_id()),
        is_commit: bool01(sid == SyscallCode::Commit.spec_syscall_id()),
        is_commit_deferred_proofs: bool01(sid == SyscallCode::CommitDeferredProofs.spec_syscall_id(
        )),
        syscall_nonce: nonces[event.syscall_lookup_id.0 as int],
        operand_to_check: if sid == SyscallCode::Halt.spec_syscall_id() {
            WordCols::spec_from_u32(event.b)
        } else if sid == SyscallCode::CommitDeferredProofs.spec_syscall_id() {
            WordCols::spec_from_u32(event.c)
        } else {
            WordCols::spec_zero()
        },
        ..SyscallCols::spec_zero()
    };
    if sid == SyscallCode::Commit.spec_syscall_id() || sid
        == SyscallCode::CommitDeferredProofs.spec_syscall_id() {
        SyscallCols::spec_with_bitmap_flag(base, event.b as int)
    } else {
        base
    }
}

/// Whether the row halts the program: a syscall row whose syscall identifier
/// cell names the halt syscall.
pub open spec fn spec_row_is_halt(event: CpuEvent, instruction: Instruction) -> bool {
    OpcodeSelectorCols::spec_populate(instruction).is_syscall == 1 && spec_a_prev_b0(event)
        == SyscallCode::Halt.spec_syscall_id()
}

/// The memory access columns of a read-write operand, from its value and
/// optional access record.
pub open spec fn spec_rw_cols(value: Option<u32>, rec: Option<crate::events::MemoryRecordEnum>)
    -> MemoryReadWriteCols {
    MemoryReadWriteCols {
        value: match value {
            Some(v) => WordCols::spec_from_u32(v),
            None => WordCols::spec_zero(),
        },
        prev_value: match rec {
            Some(r) => WordCols::spec_from_u32(r.spec_prev_value()),
            None => WordCols::spec_zero(),
        },
        prev_shard: match rec {
            Some(r) => r.spec_prev_shard(),
            None => 0u32,
        },
        prev_clk: match rec {
            Some(r) => r.spec_prev_timestamp(),
            None => 0u32,
        },
    }
}

/// The memory access columns of a read-only operand, from its value and
/// optional read record. Only a read record fills the previous-access cells.
pub open spec fn spec_r_cols(value: u32, rec: Option<crate::events::MemoryRecordEnum>)
    -> MemoryReadCols {
    MemoryReadCols {
        value: WordCols::spec_from_u32(value),
        prev_shard: match rec {
            Some(crate::events::MemoryRecordEnum::Read(r)) => r.prev_shard,
            _ => 0u32,
        },
        prev_clk: match rec {
            Some(crate::events::MemoryRecordEnum::Read(r)) => r.prev_timestamp,
            _ => 0u32,
        },
    }
}

/// The full trace row of one CPU event.
pub open spec fn spec_cpu_row(
    event: CpuEvent,
    nonces: Seq<u32>,
    shard: u32,
    instruction: Instruction,
) -> CpuCols {
    let selectors = OpcodeSelectorCols::spec_populate(instruction);
    let is_syscall = selectors.is_syscall == 1;
    let is_halt = spec_row_is_halt(event, instruction);
    let sid = spec_a_prev_b0(event);
    CpuCols {
        shard,
        nonce: if event.alu_lookup_id.0 < nonces.len() {
            nonces[event.alu_lookup_id.0 as int]
        } else {
            0u32
        },
        clk: event.clk,
        clk_16bit_limb: event.clk & 0xFFFF,
        clk_8bit_limb: (event.clk >> 16) & 0xFF,
        pc: event.pc,
        next_pc: event.next_pc,
        next_next_pc: event.next_next_pc,
        instruction: InstructionCols::spec_populate(instruction),
        selectors,
        op_a_immutable: bool01(
            instruction.opcode.spec_is_memory_store() || instruction.opcode.spec_is_branch(),
        ),
        op_hi_access: spec_rw_cols(
            event.hi,
            match event.hi_record {
                Some(w) => Some(crate::events::MemoryRecordEnum::Write(w)),
                None => None,
            },
        ),
        op_a_access: spec_rw_cols(Some(event.a), event.a_record),
        op_b_access: spec_r_cols(event.b, event.b_record),
        op_c_access: spec_r_cols(event.c, event.c_record),
        opcode_specific_columns: OpcodeSpecificCols {
            syscall: if is_syscall {
                spec_syscall_cols(event, nonces)
            } else {
                SyscallCols::spec_zero()
            },
        },
        is_real: 1,
        unsigned_mem_val_nonce: 0,
        syscall_mul_send_to_table: if is_syscall {
            spec_a_prev_b1(event)
        } else {
            0u32
        },
        syscall_range_check_operand: bool01(
            is_syscall && (sid == SyscallCode::Halt.spec_syscall_id() || sid
                == SyscallCode::CommitDeferredProofs.spec_syscall_id()),
        ),
        is_sequential_instr: bool01(
            !instruction.opcode.spec_is_branch() && !instruction.opcode.spec_is_jump() && !is_halt,
        ),
    }
}

/// The trace height of the CPU chip on a shard: the height the shape fixes,
/// or the next power of two of the event count with a floor of sixteen.
pub open spec fn spec_cpu_trace_height(input: ExecutionRecord) -> int {
    match input.shape {
        Some(shape) => spec_pow2(shape.spec_height_of(MipsAirId::Cpu).unwrap() as nat) as int,
        None => {
            let n = input.cpu_events@.len() as int;
            if n < 16 {
                16
            } else {
                crate::trace_util::spec_next_pow2(n)
            }
        },
    }
}

/// Relies on `num_cpus::get`: it returns the number of CPUs available to
/// the current process, and always at least one.
#[verifier::external_body]
fn available_parallelism() -> (r: usize)
    ensures
        1 <= r,
{
    num_cpus::get()
}

impl CpuChip {
    /// The name of the chip.
    pub fn name(&self) -> (r: &'static str)
        ensures
            r@ == "CPU"@,
    {
        "CPU"
    }

    /// Populates the shard and clock cells of a row and emits their range
    /// checks.
    pub fn populate_shard_clk(
        &self,
        cols: &mut CpuCols,
        event: &CpuEvent,
        blu_events: &mut Vec<ByteLookupEvent>,
        shard: u32,
    )
        requires
            shard <= 0xFFFF,
        ensures
            *final(cols) == (CpuCols {
                shard,
                clk: event.clk,
                clk_16bit_limb: event.clk & 0xFFFF,
                clk_8bit_limb: (event.clk >> 16) & 0xFF,
                ..*old(cols)
            }),
            final(blu_events)@ == old(blu_events)@ + spec_shard_clk_blus(shard, event.clk),
    {
        cols.shard = shard;
        let clk: u32 = event.clk;
        cols.clk = clk;
        let clk_16bit_limb: u32 = clk & 0xFFFF;
        let clk_8bit_limb: u32 = (clk >> 16) & 0xFF;
        cols.clk_16bit_limb = clk_16bit_limb;
        cols.clk_8bit_limb = clk_8bit_limb;
        proof {
            assert(clk & 0xFFFF <= 0xFFFF && (clk >> 16) & 0xFF <= 0xFF) by (bit_vector);
        }
        blu_events.push(
            ByteLookupEvent::new(shard, ByteOpcode::U16Range, shard as u16, 0, 0, 0),
        );
        blu_events.push(
            ByteLookupEvent::new(shard, ByteOpcode::U16Range, clk_16bit_limb as u16, 0, 0, 0),
        );
        blu_events.push(
            ByteLookupEvent::new(shard, ByteOpcode::U8Range, 0, 0, 0, clk_8bit_limb as u8),
        );
        proof {
            assert(final(blu_events)@ =~= old(blu_events)@ + spec_shard_clk_blus(
                shard,
                event.clk,
            ));
        }
    }

    /// Populates the syscall overlay of a row whose selectors mark a
    /// syscall, and reports whether the row halts the program.
    pub fn populate_syscall(
        &self,
        cols: &mut CpuCols,
        event: &CpuEvent,
        nonce_lookup: &Vec<u32>,
    ) -> (is_halt: bool)
        requires
            old(cols).opcode_specific_columns == (OpcodeSpecificCols {
                syscall: SyscallCols::spec_zero(),
            }),
            old(cols).syscall_range_check_operand == 0,
            old(cols).selectors.is_syscall == 1 ==> {
                &&& event.syscall_lookup_id.0 < nonce_lookup@.len()
                &&& old(cols).op_a_access.prev_value.b0 == spec_a_prev_b0(*event)
                &&& old(cols).op_a_access.prev_value.b1 == spec_a_prev_b1(*event)
                &&& old(cols).op_b_access.value == WordCols::spec_from_u32(event.b)
                &&& ((spec_a_prev_b0(*event) == SyscallCode::Commit.spec_syscall_id()
                    || spec_a_prev_b0(*event)
                    == SyscallCode::CommitDeferredProofs.spec_syscall_id()) ==> event.b
                    < PV_DIGEST_NUM_WORDS)
            },
        ensures
            old(cols).selectors.is_syscall == 1 ==> *final(cols) == (CpuCols {
                opcode_specific_columns: OpcodeSpecificCols {
                    syscall: spec_syscall_cols(*event, nonce_lookup@),
                },
                syscall_mul_send_to_table: spec_a_prev_b1(*event),
                syscall_range_check_operand: bool01(
                    spec_a_prev_b0(*event) == SyscallCode::Halt.spec_syscall_id()
                        || spec_a_prev_b0(*event)
                        == SyscallCode::CommitDeferredProofs.spec_syscall_id(),
                ),
                ..*old(cols)
            }),
            old(cols).selectors.is_syscall != 1 ==> *final(cols) == *old(cols),
            is_halt == (old(cols).selectors.is_syscall == 1 && spec_a_prev_b0(*event)
                == SyscallCode::Halt.spec_syscall_id()),
    {
        let mut is_halt = false;

        if cols.selectors.is_syscall == 1 {
            let syscall_id = cols.op_a_access.prev_value.b0;
            cols.syscall_mul_send_to_table = cols.op_a_access.prev_value.b1;

            let mut syscall_cols = SyscallCols::zero();
            syscall_cols.is_enter_unconstrained = if syscall_id
                == SyscallCode::EnterUnconstrained.syscall_id() {
                1
            } else {
                0
            };
            syscall_cols.is_hint_len = if syscall_id == SyscallCode::Hintlen.syscall_id() {
                1
            } else {
                0
            };
            syscall_cols.is_halt = if syscall_id == SyscallCode::Halt.syscall_id() {
                1
            } else {
                0
            };
            syscall_cols.is_commit = if syscall_id == SyscallCode::Commit.syscall_id() {
                1
            } else {
                0
            };
            syscall_cols.is_commit_deferred_proofs = if syscall_id
                == SyscallCode::CommitDeferredProofs.syscall_id() {
                1
            } else {
                0
            };
            let nonce_idx = event.syscall_lookup_id.0;
            let nonce_len = nonce_lookup.len();
            assert(nonce_idx < nonce_len as u64);
            syscall_cols.syscall_nonce = nonce_lookup[nonce_idx as usize];

            is_halt = syscall_id == SyscallCode::Halt.syscall_id();

            if is_halt {
                syscall_cols.operand_to_check = WordCols::from_u32(event.b);
                cols.syscall_range_check_operand = 1;
            }
            if syscall_id == SyscallCode::CommitDeferredProofs.syscall_id() {
                syscall_cols.operand_to_check = WordCols::from_u32(event.c);
                cols.syscall_range_check_operand = 1;
            }

            if syscall_id == SyscallCode::Commit.syscall_id() || syscall_id
                == SyscallCode::CommitDeferredProofs.syscall_id() {
                proof {
                    lemma_word_cols_roundtrip(event.b);
                }
                let digest_idx = cols.op_b_access.value.to_u32() as usize;
                syscall_cols.set_bitmap_flag(digest_idx);
            }

            cols.opcode_specific_columns = OpcodeSpecificCols { syscall: syscall_cols };
        }

        is_halt
    }

    /// Converts one CPU event into its trace row, emitting the row's
    /// byte-lookup requests.
    pub fn event_to_row(
        &self,
        event: &CpuEvent,
        nonce_lookup: &Vec<u32>,
        cols: &mut CpuCols,
        blu_events: &mut Vec<ByteLookupEvent>,
        shard: u32,
        instruction: &Instruction,
    )
        requires
            shard <= 0xFFFF,
            *old(cols) == CpuCols::spec_zero(),
            spec_cpu_event_ok(*event, nonce_lookup@, *instruction),
        ensures
            *final(cols) == spec_cpu_row(*event, nonce_lookup@, shard, *instruction),
            final(blu_events)@ == old(blu_events)@ + spec_cpu_event_blus(shard, *event),
    {
        self.populate_shard_clk(cols, event, blu_events, shard);

        cols.nonce = if event.alu_lookup_id.0 < nonce_lookup.len() as u64 {
            nonce_lookup[event.alu_lookup_id.0 as usize]
        } else {
            0
        };

        cols.pc = event.pc;
        cols.next_pc = event.next_pc;
        cols.next_next_pc = event.next_next_pc;
        cols.instruction.populate(instruction);
        cols.selectors.populate(instruction);

        cols.op_a_immutable = if instruction.is_memory_store_instruction_except_sc()
            || instruction.is_branch_instruction() {
            1
        } else {
            0
        };

        match event.hi {
            Some(hi) => {
                cols.op_hi_access.value = WordCols::from_u32(hi);
            },
            None => {},
        }
        cols.op_a_access.value = WordCols::from_u32(event.a);
        cols.op_b_access.value = WordCols::from_u32(event.b);
        cols.op_c_access.value = WordCols::from_u32(event.c);

        match event.hi_record {
            Some(record) => {
                cols.op_hi_access.prev_value = WordCols::from_u32(record.prev_value);
                cols.op_hi_access.prev_shard = record.prev_shard;
                cols.op_hi_access.prev_clk = record.prev_timestamp;
            },
            None => {},
        }
        match event.a_record {
            Some(record) => {
                cols.op_a_access.prev_value = WordCols::from_u32(record.prev_value());
                cols.op_a_access.prev_shard = record.prev_shard();
                cols.op_a_access.prev_clk = record.prev_timestamp();
            },
            None => {},
        }
        match event.b_record {
            Some(crate::events::MemoryRecordEnum::Read(record)) => {
                cols.op_b_access.prev_shard = record.prev_shard;
                cols.op_b_access.prev_clk = record.prev_timestamp;
            },
            _ => {},
        }
        match event.c_record {
            Some(crate::events::MemoryRecordEnum::Read(record)) => {
                cols.op_c_access.prev_shard = record.prev_shard;
                cols.op_c_access.prev_clk = record.prev_timestamp;
            },
            _ => {},
        }

        let a_bytes = cols.op_a_access.value;
        blu_events.push(
            ByteLookupEvent {
                shard,
                opcode: ByteOpcode::U8Range,
                a1: 0,
                a2: 0,
                b: a_bytes.b0 as u8,
                c: a_bytes.b1 as u8,
            },
        );
        blu_events.push(
            ByteLookupEvent {
                shard,
                opcode: ByteOpcode::U8Range,
                a1: 0,
                a2: 0,
                b: a_bytes.b2 as u8,
                c: a_bytes.b3 as u8,
            },
        );
        proof {
            let a = event.a;
            assert(a & 0xFF <= 0xFF && (a >> 8) & 0xFF <= 0xFF && (a >> 16) & 0xFF <= 0xFF && (a
                >> 24) & 0xFF <= 0xFF) by (bit_vector);
            assert(final(blu_events)@ =~= old(blu_events)@ + spec_cpu_event_blus(shard, *event));
            lemma_word_cols_roundtrip(event.b);
            match event.a_record {
                Some(rec) => {
                    lemma_word_cols_roundtrip(rec.spec_prev_value());
                    let pv = rec.spec_prev_value();
                    assert(pv & 0xFF == spec_a_prev_b0(*event));
                    assert((pv >> 8) & 0xFF == spec_a_prev_b1(*event));
                },
                None => {},
            }
        }

        let is_halt = self.populate_syscall(cols, event, nonce_lookup);

        cols.is_sequential_instr = if !instruction.is_branch_instruction()
            && !instruction.is_jump_instruction() && !is_halt {
            1
        } else {
            0
        };

        cols.is_real = 1;

    }

    /// Generates the trace matrix of the CPU chip for one shard: one row per
    /// event, padded with default rows up to the shard's height.
    pub fn generate_trace(&self, input: &ExecutionRecord, output: &mut ExecutionRecord) -> (rows:
        Vec<CpuCols>)
        requires
            input.public_values.execution_shard <= 0xFFFF,
            forall|i: int|
                0 <= i < input.cpu_events@.len() ==> {
                    let event = #[trigger] input.cpu_events@[i];
                    &&& input.program.spec_fetchable(event.pc)
                    &&& spec_cpu_event_ok(
                        event,
                        input.nonce_lookup@,
                        input.program.spec_fetch(event.pc),
                    )
                },
            input.shape is Some ==> {
                &&& input.shape.unwrap().spec_height_of(MipsAirId::Cpu) is Some
                &&& input.shape.unwrap().spec_height_of(MipsAirId::Cpu).unwrap() <= 30
            },
            input.cpu_events@.len() <= 0x4000_0000,
        ensures
            *final(output) == *old(output),
            rows@.len() == spec_cpu_trace_height(*input),
            forall|i: int|
                0 <= i < rows@.len() && i < input.cpu_events@.len() ==> {
                    let event = #[trigger] input.cpu_events@[i];
                    rows@[i] == spec_cpu_row(
                        event,
                        input.nonce_lookup@,
                        input.public_values.execution_shard,
                        input.program.spec_fetch(event.pc),
                    )
                },
            forall|i: int|
                input.cpu_events@.len() <= i < rows@.len() ==> rows@[i]
                    == CpuCols::spec_padding(),
    {
        let n_real_rows = input.cpu_events.len();
        let shard = input.public_values.execution_shard;

        let padded_nb_rows: usize = match &input.shape {
            Some(shape) => {
                let log2 = shape.height_of(MipsAirId::Cpu).unwrap();
                exec_pow2(log2)
            },
            None => {
                if n_real_rows < 16 {
                    16
                } else {
                    next_pow2(n_real_rows)
                }
            },
        };

        let mut rows: Vec<CpuCols> = Vec::new();
        let mut i: usize = 0;
        #[verifier::loop_isolation(false)]
        while i < padded_nb_rows
            invariant
                0 <= i <= padded_nb_rows,
                rows@.len() == i,
                forall|j: int|
                    0 <= j < i && j < input.cpu_events@.len() ==> {
                        let event = #[trigger] input.cpu_events@[j];
                        rows@[j] == spec_cpu_row(
                            event,
                            input.nonce_lookup@,
                            shard,
                            input.program.spec_fetch(event.pc),
                        )
                    },
                forall|j: int|
                    input.cpu_events@.len() <= j < i ==> rows@[j] == CpuCols::spec_padding(),
            decreases padded_nb_rows - i,
        {
            if i < n_real_rows {
                let event = input.cpu_events[i];
                let instruction = input.program.fetch(event.pc);
                let mut cols = CpuCols::zeroed();
                let mut byte_lookup_events: Vec<ByteLookupEvent> = Vec::new();
                self.event_to_row(
                    &event,
                    &input.nonce_lookup,
                    &mut cols,
                    &mut byte_lookup_events,
                    shard,
                    &instruction,
                );
                rows.push(cols);
            } else {
                rows.push(CpuCols::padding());
            }
            i += 1;
        }
        rows
    }

    /// Runs the dependency pass of the CPU chip, sizing the chunks by the
    /// parallelism the machine offers. The result does not depend on the
    /// chunk size.
    pub fn generate_dependencies(&self, input: &ExecutionRecord, output: &mut ExecutionRecord)
        requires
            input.public_values.execution_shard <= 0xFFFF,
            forall|i: int|
                0 <= i < input.cpu_events@.len() ==> {
                    let event = #[trigger] input.cpu_events@[i];
                    &&& input.program.spec_fetchable(event.pc)
                    &&& spec_cpu_event_ok(
                        event,
                        input.nonce_lookup@,
                        input.program.spec_fetch(event.pc),
                    )
                },
            old(output).byte_lookups.wf(),
            old(output).byte_lookups.spec_total() + CPU_EVENT_NUM_BLUS * input.cpu_events@.len()
                <= u64::MAX,
        ensures
            final(output).byte_lookups.wf(),
            forall|k: ByteLookupEvent|
                final(output).byte_lookups.multiplicity(k) == old(
                    output,
                ).byte_lookups.multiplicity(k) + count_in(spec_cpu_record_blus(*input), k),
            final(output).byte_lookups.spec_total() == old(output).byte_lookups.spec_total()
                + CPU_EVENT_NUM_BLUS * input.cpu_events@.len(),
            *final(output) == (ExecutionRecord {
                byte_lookups: final(output).byte_lookups,
                ..*old(output)
            }),
            is_cpu_dependency_pass_result(
                old(output).byte_lookups,
                final(output).byte_lookups,
                *input,
            ),
    {
        let cpus = available_parallelism();
        let quotient = input.cpu_events.len() / cpus;
        let chunk_size = if quotient < 1 {
            1
        } else {
            quotient
        };
        self.generate_dependencies_chunked(input, output, chunk_size);
    }

    /// Runs the dependency pass of the CPU chip: partitions the events into
    /// chunks of `chunk_size`, derives each chunk's byte-lookup requests into
    /// a private multiplicity map, and merges the maps into the output
    /// record. The result does not depend on the chunking.
    pub fn generate_dependencies_chunked(
        &self,
        input: &ExecutionRecord,
        output: &mut ExecutionRecord,
        chunk_size: usize,
    )
        requires
            chunk_size >= 1,
            input.public_values.execution_shard <= 0xFFFF,
            forall|i: int|
                0 <= i < input.cpu_events@.len() ==> {
                    let event = #[trigger] input.cpu_events@[i];
                    &&& input.program.spec_fetchable(event.pc)
                    &&& spec_cpu_event_ok(
                        event,
                        input.nonce_lookup@,
                        input.program.spec_fetch(event.pc),
                    )
                },
            old(output).byte_lookups.wf(),
            old(output).byte_lookups.spec_total() + CPU_EVENT_NUM_BLUS * input.cpu_events@.len()
                <= u64::MAX,
        ensures
            final(output).byte_lookups.wf(),
            forall|k: ByteLookupEvent|
                final(output).byte_lookups.multiplicity(k) == old(
                    output,
                ).byte_lookups.multiplicity(k) + count_in(spec_cpu_record_blus(*input), k),
            final(output).byte_lookups.spec_total() == old(output).byte_lookups.spec_total()
                + CPU_EVENT_NUM_BLUS * input.cpu_events@.len(),
            *final(output) == (ExecutionRecord {
                byte_lookups: final(output).byte_lookups,
                ..*old(output)
            }),
            is_cpu_dependency_pass_result(
                old(output).byte_lookups,
                final(output).byte_lookups,
                *input,
            ),
    {
        let n = input.cpu_events.len();
        let shard = input.public_values.execution_shard;
        let ghost events = input.cpu_events@;
        proof {
            crate::byte::lemma_total_nonneg(old(output).byte_lookups);
        }

        let mut blu_maps: Vec<ByteLookupMap> = Vec::new();
        let mut start: usize = 0;
        #[verifier::loop_isolation(false)]
        while start < n
            invariant
                0 <= start <= n,
                forall|m: int|
                    0 <= m < blu_maps@.len() ==> (#[trigger] blu_maps@[m]).wf(),
                maps_total(blu_maps@) == CPU_EVENT_NUM_BLUS * start,
                forall|k: ByteLookupEvent|
                    maps_mult(blu_maps@, k) == count_in(
                        spec_cpu_blus_range(shard, events, 0, start as int),
                        k,
                    ),
            decreases n - start,
        {
            let remaining = n - start;
            let end = if chunk_size < remaining {
                start + chunk_size
            } else {
                n
            };
            let ghost maps0 = blu_maps@;

            let mut blu: Vec<ByteLookupEvent> = Vec::new();
            let mut j: usize = start;
            #[verifier::loop_isolation(false)]
            while j < end
                invariant
                    start <= j <= end <= n,
                    blu@ == spec_cpu_blus_range(shard, events, start as int, j as int),
                    blu@.len() == CPU_EVENT_NUM_BLUS * (j - start),
                decreases end - j,
            {
                let event = input.cpu_events[j];
                let instruction = input.program.fetch(event.pc);
                let mut row = CpuCols::zeroed();
                self.event_to_row(&event, &input.nonce_lookup, &mut row, &mut blu, shard,
                    &instruction);
                j += 1;
            }

            let mut local_map = ByteLookupMap::new();
            local_map.add_byte_lookup_events(&blu);
            let ghost local = local_map;
            blu_maps.push(local_map);
            proof {
                assert(blu_maps@.drop_last() =~= maps0);
                assert(blu_maps@.last() == local);
                assert(maps_total(blu_maps@) == maps_total(maps0) + local.spec_total());
                assert forall|k: ByteLookupEvent|
                    maps_mult(blu_maps@, k) == count_in(
                        spec_cpu_blus_range(shard, events, 0, end as int),
                        k,
                    ) by {
                    assert(maps_mult(blu_maps@, k) == maps_mult(maps0, k) + local.multiplicity(
                        k,
                    ));
                    assert(local.multiplicity(k) == count_in(blu@, k));
                    lemma_cpu_blus_range_concat(shard, events, 0, start as int, end as int);
                    crate::byte::lemma_count_in_concat(
                        spec_cpu_blus_range(shard, events, 0, start as int),
                        spec_cpu_blus_range(shard, events, start as int, end as int),
                        k,
                    );
                }
            }
            start = end;
        }

        output.add_sharded_byte_lookup_events(&blu_maps);
    }

    /// Flattens the rows of a trace into the row-major matrix of field
    /// elements the proving engine consumes.
    #[verifier::loop_isolation(false)]
    pub fn rows_to_matrix(&self, rows: &Vec<CpuCols>) -> (m: RowMajorMatrix)
        requires
            rows@.len() * NUM_CPU_COLS <= usize::MAX,
        ensures
            m.width == NUM_CPU_COLS,
            m.values@.len() == rows@.len() * NUM_CPU_COLS,
            forall|i: int|
                0 <= i < rows@.len() ==> m.values@.subrange(
                    i * NUM_CPU_COLS,
                    (i + 1) * NUM_CPU_COLS,
                ) == (#[trigger] rows@[i]).spec_row(),
    {
        let n = rows.len();
        let mut values: Vec<u32> = Vec::new();
        let mut i: usize = 0;
        while i < n
            invariant
                0 <= i <= n,
                values@.len() == i * NUM_CPU_COLS,
                forall|j: int|
                    0 <= j < i ==> values@.subrange(j * NUM_CPU_COLS, (j + 1) * NUM_CPU_COLS) == (
                    #[trigger] rows@[j]).spec_row(),
            decreases n - i,
        {
            let ghost values0 = values@;
            let mut row = rows[i].to_row();
            values.append(&mut row);
            proof {
                assert forall|j: int|
                    0 <= j < i + 1 implies values@.subrange(
                    j * NUM_CPU_COLS,
                    (j + 1) * NUM_CPU_COLS,
                ) == (#[trigger] rows@[j]).spec_row() by {
                    if j < i {
                        assert(values@.subrange(j * NUM_CPU_COLS, (j + 1) * NUM_CPU_COLS)
                            =~= values0.subrange(j * NUM_CPU_COLS, (j + 1) * NUM_CPU_COLS));
                    } else {
                        assert(values@.subrange(j * NUM_CPU_COLS, (j + 1) * NUM_CPU_COLS)
                            =~= rows@[j].spec_row());
                    }
                }
            }
            i += 1;
        }
        RowMajorMatrix::new(values, NUM_CPU_COLS)
    }

    /// Whether the CPU chip participates in a shard: the shape decides where
    /// one is given, otherwise the chip joins exactly the shards that hold
    /// CPU events.
    pub fn included(&self, shard: &ExecutionRecord) -> (r: bool)
        ensures
            r == match shard.shape {
                Some(shape) => shape.spec_included(MipsAirId::Cpu),
                None => shard.cpu_events@.len() > 0,
            },
    {
        match &shard.shape {
            Some(shape) => shape.included(MipsAirId::Cpu),
            None => shard.contains_cpu(),
        }
    }
}

/// What the dependency pass of the CPU chip leaves behind: starting from
/// the multiplicities of `base`, every request gains exactly its occurrence
/// count among the requests the shard's events derive.
pub open spec fn is_cpu_dependency_pass_result(
    base: ByteLookupMap,
    result: ByteLookupMap,
    input: ExecutionRecord,
) -> bool {
    forall|k: ByteLookupEvent|
        #![trigger result.multiplicity(k)]
        result.multiplicity(k) == base.multiplicity(k) + count_in(spec_cpu_record_blus(input), k)
}

/// Law: the dependency pass is deterministic. Two independent passes over
/// the same shard, started from the same multiplicities, leave identical
/// aggregated byte-lookup multiplicities.
pub proof fn lemma_dependency_pass_deterministic(
    base: ByteLookupMap,
    m1: ByteLookupMap,
    m2: ByteLookupMap,
    input: ExecutionRecord,
)
    requires
        is_cpu_dependency_pass_result(base, m1, input),
        is_cpu_dependency_pass_result(base, m2, input),
    ensures
        m1.same_multiplicities(m2),
{
}

/// A division of `[0, n)` into consecutive chunks: the cut points start at
/// zero, end at `n`, and never decrease.
pub open spec fn is_chunk_partition(cuts: Seq<int>, n: int) -> bool {
    &&& cuts.len() >= 1
    &&& cuts[0] == 0
    &&& cuts.last() == n
    &&& forall|i: int| 0 <= i < cuts.len() ==> 0 <= #[trigger] cuts[i] <= n
    &&& forall|i: int| 0 <= i < cuts.len() - 1 ==> #[trigger] cuts[i] <= cuts[i + 1]
}

/// Each map records exactly the multiplicities of its chunk's byte-lookup
/// requests.
pub open spec fn are_chunk_maps(
    maps: Seq<ByteLookupMap>,
    cuts: Seq<int>,
    shard: u32,
    events: Seq<CpuEvent>,
) -> bool {
    &&& cuts.len() == maps.len() + 1
    &&& forall|i: int, k: ByteLookupEvent|
        0 <= i < maps.len() ==> (#[trigger] maps[i].multiplicity(k)) == count_in(
            spec_cpu_blus_range(shard, events, cuts[i], cuts[i + 1]),
            k,
        )
}

/// Law: summing the byte-lookup multiplicities of independent chunk maps
/// equals the multiplicity a single sequential pass over the same events
/// records, whatever the chunking.
pub proof fn lemma_chunked_merge_equals_sequential(
    maps: Seq<ByteLookupMap>,
    cuts: Seq<int>,
    shard: u32,
    events: Seq<CpuEvent>,
    k: ByteLookupEvent,
)
    requires
        is_chunk_partition(cuts, events.len() as int),
        are_chunk_maps(maps, cuts, shard, events),
    ensures
        maps_mult(maps, k) == count_in(
            spec_cpu_blus_range(shard, events, 0, events.len() as int),
            k,
        ),
{
    lemma_chunk_merge_helper(maps, cuts, shard, events, k);
}

proof fn lemma_chunk_merge_helper(
    maps: Seq<ByteLookupMap>,
    cuts: Seq<int>,
    shard: u32,
    events: Seq<CpuEvent>,
    k: ByteLookupEvent,
)
    requires
        cuts.len() == maps.len() + 1,
        cuts[0] == 0,
        forall|i: int| 0 <= i < cuts.len() ==> 0 <= #[trigger] cuts[i],
        forall|i: int| 0 <= i < cuts.len() - 1 ==> #[trigger] cuts[i] <= cuts[i + 1],
        are_chunk_maps(maps, cuts, shard, events),
    ensures
        maps_mult(maps, k) == count_in(spec_cpu_blus_range(shard, events, 0, cuts.last()), k),
    decreases maps.len(),
{
    if maps.len() == 0 {
        assert(cuts.last() == cuts[0]);
    } else {
        let e = cuts.last();
        let m = cuts[cuts.len() - 2];
        let cuts2 = cuts.drop_last();
        let maps2 = maps.drop_last();
        assert(cuts2.last() == m);
        assert(m <= e);
        assert(are_chunk_maps(maps2, cuts2, shard, events));
        lemma_chunk_merge_helper(maps2, cuts2, shard, events, k);
        lemma_cpu_blus_range_concat(shard, events, 0, m, e);
        crate::byte::lemma_count_in_concat(
            spec_cpu_blus_range(shard, events, 0, m),
            spec_cpu_blus_range(shard, events, m, e),
            k,
        );
        assert(maps.last().multiplicity(k) == count_in(
            spec_cpu_blus_range(shard, events, m, e),
            k,
        ));
    }
}

/// Event-range byte lookups concatenate: the requests of `[lo, hi)` are
/// those of `[lo, mid)` followed by those of `[mid, hi)`.
pub proof fn lemma_cpu_blus_range_concat(
    shard: u32,
    events: Seq<CpuEvent>,
    lo: int,
    mid: int,
    hi: int,
)
    requires
        lo <= mid <= hi,
    ensures
        spec_cpu_blus_range(shard, events, lo, hi) == spec_cpu_blus_range(shard, events, lo, mid)
            + spec_cpu_blus_range(shard, events, mid, hi),
    decreases hi - mid,
{
    if hi == mid {
        assert(spec_cpu_blus_range(shard, events, lo, mid) + spec_cpu_blus_range(
            shard,
            events,
            mid,
            hi,
        ) =~= spec_cpu_blus_range(shard, events, lo, hi));
    } else {
        lemma_cpu_blus_range_concat(shard, events, lo, mid, hi - 1);
        assert(spec_cpu_blus_range(shard, events, lo, mid) + (spec_cpu_blus_range(
            shard,
            events,
            mid,
            hi - 1,
        ) + spec_cpu_event_blus(shard, events[hi - 1])) =~= (spec_cpu_blus_range(
            shard,
            events,
            lo,
            mid,
        ) + spec_cpu_blus_range(shard, events, mid, hi - 1)) + spec_cpu_event_blus(
            shard,
            events[hi - 1],
        ));
    }
}

} // verus!
