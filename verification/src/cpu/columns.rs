//! The column layout of the CPU chip. Every column holds the canonical
//! representation of one field element; a row is the fixed-width flattening
//! of this structure.
use vstd::prelude::*;
use crate::program::Instruction;

verus! {

/// A 32-bit word laid down as four byte limbs, least significant first.
#[derive(Clone, Copy, Debug, PartialEq, Eq, Structural)]
pub struct WordCols {
    /// The least significant byte.
    pub b0: u32,
    /// The second byte.
    pub b1: u32,
    /// The third byte.
    pub b2: u32,
    /// The most significant byte.
    pub b3: u32,
}

impl WordCols {
    /// The limbs in column order.
    pub open spec fn spec_cols(self) -> Seq<u32> {
        seq![self.b0, self.b1, self.b2, self.b3]
    }

    /// The word whose limbs are the little-endian bytes of `x`.
    pub open spec fn spec_from_u32(x: u32) -> WordCols {
        WordCols { b0: x & 0xFF, b1: (x >> 8) & 0xFF, b2: (x >> 16) & 0xFF, b3: (x >> 24) & 0xFF }
    }

    /// The all-zero word.
    pub open spec fn spec_zero() -> WordCols {
        WordCols { b0: 0, b1: 0, b2: 0, b3: 0 }
    }

    /// The value the four byte limbs spell.
    pub open spec fn spec_to_u32(self) -> u32 {
        (self.b0 & 0xFF) | ((self.b1 & 0xFF) << 8) | ((self.b2 & 0xFF) << 16) | ((self.b3 & 0xFF)
            << 24)
    }

    /// Lays the little-endian bytes of `x` down as limbs.
    pub fn from_u32(x: u32) -> (r: WordCols)
        ensures
            r == WordCols::spec_from_u32(x),
    {
        WordCols { b0: x & 0xFF, b1: (x >> 8) & 0xFF, b2: (x >> 16) & 0xFF, b3: (x >> 24) & 0xFF }
    }

    /// Returns the all-zero word.
    pub fn zero() -> (r: WordCols)
        ensures
            r == WordCols::spec_zero(),
    {
        WordCols { b0: 0, b1: 0, b2: 0, b3: 0 }
    }

    /// Reassembles the value the limbs spell.
    pub fn to_u32(self) -> (r: u32)
        ensures
            r == self.spec_to_u32(),
    {
        (self.b0 & 0xFF) | ((self.b1 & 0xFF) << 8u32) | ((self.b2 & 0xFF) << 16u32) | ((self.b3
            & 0xFF) << 24u32)
    }
}

/// Splitting a word into byte limbs and reassembling them gives the word
/// back, and each limb is a byte.
pub proof fn lemma_word_cols_roundtrip(x: u32)
    ensures
        WordCols::spec_from_u32(x).spec_to_u32() == x,
        WordCols::spec_from_u32(x).b0 <= 0xFF,
        WordCols::spec_from_u32(x).b1 <= 0xFF,
        WordCols::spec_from_u32(x).b2 <= 0xFF,
        WordCols::spec_from_u32(x).b3 <= 0xFF,
{
    assert((((x & 0xFF) & 0xFF) | ((((x >> 8) & 0xFF) & 0xFF) << 8) | ((((x >> 16) & 0xFF) & 0xFF)
        << 16) | ((((x >> 24) & 0xFF) & 0xFF) << 24)) == x) by (bit_vector);
    assert(x & 0xFF <= 0xFF && (x >> 8) & 0xFF <= 0xFF && (x >> 16) & 0xFF <= 0xFF && (x >> 24)
        & 0xFF <= 0xFF) by (bit_vector);
}

/// The memory access columns of a read-only operand.
#[derive(Clone, Copy, Debug, PartialEq, Eq, Structural)]
pub struct MemoryReadCols {
    /// The value read.
    pub value: WordCols,
    /// The shard of the previous access.
    pub prev_shard: u32,
    /// The timestamp of the previous access.
    pub prev_clk: u32,
}

impl MemoryReadCols {
    /// The all-zero columns.
    pub open spec fn spec_zero() -> MemoryReadCols {
        MemoryReadCols { value: WordCols::spec_zero(), prev_shard: 0, prev_clk: 0 }
    }

    /// The cells in column order.
    pub open spec fn spec_cols(self) -> Seq<u32> {
        self.value.spec_cols() + seq![self.prev_shard, self.prev_clk]
    }
}

/// The memory access columns of a read-write operand.
#[derive(Clone, Copy, Debug, PartialEq, Eq, Structural)]
pub struct MemoryReadWriteCols {
    /// The value before the access.
    pub prev_value: WordCols,
    /// The value after the access.
    pub value: WordCols,
    /// The shard of the previous access.
    pub prev_shard: u32,
    /// The timestamp of the previous access.
    pub prev_clk: u32,
}

impl MemoryReadWriteCols {
    /// The all-zero columns.
    pub open spec fn spec_zero() -> MemoryReadWriteCols {
        MemoryReadWriteCols {
            prev_value: WordCols::spec_zero(),
            value: WordCols::spec_zero(),
            prev_shard: 0,
            prev_clk: 0,
        }
    }

    /// The cells in column order.
    pub open spec fn spec_cols(self) -> Seq<u32> {
        self.prev_value.spec_cols() + self.value.spec_cols() + seq![self.prev_shard, self.prev_clk]
    }
}

/// The columns describing the decoded instruction of a row.
#[derive(Clone, Copy, Debug, PartialEq, Eq, Structural)]
pub struct InstructionCols {
    /// The numeric encoding of the opcode.
    pub opcode: u32,
    /// The destination operand slot.
    pub op_a: u32,
    /// The first source operand slot.
    pub op_b: WordCols,
    /// The second source operand slot.
    pub op_c: WordCols,
    /// Whether the destination is the always-zero register.
    pub op_a_0: u32,
}

impl InstructionCols {
    /// The columns that describe `instruction`.
    pub open spec fn spec_populate(instruction: Instruction) -> InstructionCols {
        InstructionCols {
            opcode: instruction.opcode.spec_field_value(),
            op_a: instruction.op_a,
            op_b: WordCols::spec_from_u32(instruction.op_b),
            op_c: WordCols::spec_from_u32(instruction.op_c),
            op_a_0: if instruction.op_a == 0 {
                1u32
            } else {
                0u32
            },
        }
    }

    /// The all-zero columns.
    pub open spec fn spec_zero() -> InstructionCols {
        InstructionCols {
            opcode: 0,
            op_a: 0,
            op_b: WordCols::spec_zero(),
            op_c: WordCols::spec_zero(),
            op_a_0: 0,
        }
    }

    /// The cells in column order.
    pub open spec fn spec_cols(self) -> Seq<u32> {
        seq![self.opcode, self.op_a] + self.op_b.spec_cols() + self.op_c.spec_cols()
            + seq![self.op_a_0]
    }

    /// Fills the columns from `instruction`.
    pub fn populate(&mut self, instruction: &Instruction)
        ensures
            *final(self) == InstructionCols::spec_populate(*instruction),
    {
        self.opcode = instruction.opcode.field_value();
        self.op_a = instruction.op_a;
        self.op_b = WordCols::from_u32(instruction.op_b);
        self.op_c = WordCols::from_u32(instruction.op_c);
        self.op_a_0 = if instruction.op_a == 0 {
            1
        } else {
            0
        };
    }
}

/// The opcode selector columns: one boolean column per instruction family,
/// plus the immediate-operand flags.
#[derive(Clone, Copy, Debug, PartialEq, Eq, Structural)]
pub struct OpcodeSelectorCols {
    /// Whether the operation writes the LO/HI register pair.
    pub has_hi: u32,
    /// Whether the first source operand is an immediate value.
    pub imm_b: u32,
    /// Whether the second source operand is an immediate value.
    pub imm_c: u32,
    /// Whether the instruction is an ALU instruction.
    pub is_alu: u32,
    /// Whether the instruction is a syscall.
    pub is_syscall: u32,
    /// Whether the instruction is unimplemented.
    pub is_unimpl: u32,
}

/// The number of opcode selector columns.
pub const NUM_OPCODE_SELECTOR_COLS: usize = 6;

impl OpcodeSelectorCols {
    /// The selectors that describe `instruction`.
    pub open spec fn spec_populate(instruction: Instruction) -> OpcodeSelectorCols {
        OpcodeSelectorCols {
            has_hi: if instruction.opcode.spec_is_use_lo_hi_alu() {
                1u32
            } else {
                0u32
            },
            imm_b: if instruction.imm_b {
                1u32
            } else {
                0u32
            },
            imm_c: if instruction.imm_c {
                1u32
            } else {
                0u32
            },
            is_alu: if instruction.opcode.spec_is_alu() {
                1u32
            } else {
                0u32
            },
            is_syscall: if !instruction.opcode.spec_is_alu()
                && instruction.opcode.spec_is_syscall() {
                1u32
            } else {
                0u32
            },
            is_unimpl: 0,
        }
    }

    /// The selectors of a padding row: every selector is zero but the
    /// immediate flags, whose default keeps the padding row's constraints
    /// trivially satisfied.
    pub open spec fn spec_padding() -> OpcodeSelectorCols {
        OpcodeSelectorCols { has_hi: 0, imm_b: 1, imm_c: 1, is_alu: 0, is_syscall: 0, is_unimpl: 0 }
    }

    /// The all-zero selectors.
    pub open spec fn spec_zero() -> OpcodeSelectorCols {
        OpcodeSelectorCols { has_hi: 0, imm_b: 0, imm_c: 0, is_alu: 0, is_syscall: 0, is_unimpl: 0 }
    }

    /// Fills the selectors from `instruction`.
    pub fn populate(&mut self, instruction: &Instruction)
        requires
            *old(self) == OpcodeSelectorCols::spec_zero(),
        ensures
            *final(self) == OpcodeSelectorCols::spec_populate(*instruction),
    {
        self.has_hi = if instruction.opcode.is_use_lo_hi_alu() {
            1
        } else {
            0
        };
        self.imm_b = if instruction.imm_b {
            1
        } else {
            0
        };
        self.imm_c = if instruction.imm_c {
            1
        } else {
            0
        };
        if instruction.is_alu_instruction() {
            self.is_alu = 1;
        } else if instruction.is_syscall_instruction() {
            self.is_syscall = 1;
        }
    }

    /// The selectors in column order.
    pub open spec fn spec_row(self) -> Seq<u32> {
        seq![self.has_hi, self.imm_b, self.imm_c, self.is_alu, self.is_syscall, self.is_unimpl]
    }

    /// Returns the selectors in column order.
    pub fn to_vec(self) -> (r: Vec<u32>)
        ensures
            r@ == self.spec_row(),
    {
        let r: Vec<u32> = vec![
            self.has_hi,
            self.imm_b,
            self.imm_c,
            self.is_alu,
            self.is_syscall,
            self.is_unimpl,
        ];
        proof {
            assert(r@ =~= self.spec_row());
        }
        r
    }
}

/// The syscall-specific columns, valid only on rows whose selector marks a
/// syscall.
#[derive(Clone, Copy, Debug, PartialEq, Eq, Structural)]
pub struct SyscallCols {
    /// Whether the syscall enters unconstrained execution.
    pub is_enter_unconstrained: u32,
    /// Whether the syscall reads a hint length.
    pub is_hint_len: u32,
    /// Whether the syscall halts the program.
    pub is_halt: u32,
    /// Whether the syscall commits a public-value digest word.
    pub is_commit: u32,
    /// Whether the syscall commits a deferred-proof digest word.
    pub is_commit_deferred_proofs: u32,
    /// Digest-word index flags: the flag of the committed index is set.
    pub bitmap0: u32,
    /// The flag of digest word one.
    pub bitmap1: u32,
    /// The flag of digest word two.
    pub bitmap2: u32,
    /// The flag of digest word three.
    pub bitmap3: u32,
    /// The flag of digest word four.
    pub bitmap4: u32,
    /// The flag of digest word five.
    pub bitmap5: u32,
    /// The flag of digest word six.
    pub bitmap6: u32,
    /// The flag of digest word seven.
    pub bitmap7: u32,
    /// The nonce of the syscall lookup.
    pub syscall_nonce: u32,
    /// The operand that must be range checked for halt and deferred commits.
    pub operand_to_check: WordCols,
}

/// The number of public-value digest words, and so the length of the commit
/// index bitmap.
pub const PV_DIGEST_NUM_WORDS: usize = 8;

impl SyscallCols {
    /// The all-zero syscall columns.
    pub open spec fn spec_zero() -> SyscallCols {
        SyscallCols {
            is_enter_unconstrained: 0,
            is_hint_len: 0,
            is_halt: 0,
            is_commit: 0,
            is_commit_deferred_proofs: 0,
            bitmap0: 0,
            bitmap1: 0,
            bitmap2: 0,
            bitmap3: 0,
            bitmap4: 0,
            bitmap5: 0,
            bitmap6: 0,
            bitmap7: 0,
            syscall_nonce: 0,
            operand_to_check: WordCols::spec_zero(),
        }
    }

    /// The cells in column order.
    pub open spec fn spec_cols(self) -> Seq<u32> {
        seq![
            self.is_enter_unconstrained,
            self.is_hint_len,
            self.is_halt,
            self.is_commit,
            self.is_commit_deferred_proofs,
            self.bitmap0,
            self.bitmap1,
            self.bitmap2,
            self.bitmap3,
            self.bitmap4,
            self.bitmap5,
            self.bitmap6,
            self.bitmap7,
            self.syscall_nonce,
        ] + self.operand_to_check.spec_cols()
    }

    /// The bitmap with exactly the flag of digest word `idx` set, over the
    /// all-zero columns `base`.
    pub open spec fn spec_with_bitmap_flag(base: SyscallCols, idx: int) -> SyscallCols {
        if idx == 0 {
            SyscallCols { bitmap0: 1, ..base }
        } else if idx == 1 {
            SyscallCols { bitmap1: 1, ..base }
        } else if idx == 2 {
            SyscallCols { bitmap2: 1, ..base }
        } else if idx == 3 {
            SyscallCols { bitmap3: 1, ..base }
        } else if idx == 4 {
            SyscallCols { bitmap4: 1, ..base }
        } else if idx == 5 {
            SyscallCols { bitmap5: 1, ..base }
        } else if idx == 6 {
            SyscallCols { bitmap6: 1, ..base }
        } else {
            SyscallCols { bitmap7: 1, ..base }
        }
    }

    /// Returns all-zero syscall columns.
    pub fn zero() -> (r: SyscallCols)
        ensures
            r == SyscallCols::spec_zero(),
    {
        SyscallCols {
            is_enter_unconstrained: 0,
            is_hint_len: 0,
            is_halt: 0,
            is_commit: 0,
            is_commit_deferred_proofs: 0,
            bitmap0: 0,
            bitmap1: 0,
            bitmap2: 0,
            bitmap3: 0,
            bitmap4: 0,
            bitmap5: 0,
            bitmap6: 0,
            bitmap7: 0,
            syscall_nonce: 0,
            operand_to_check: WordCols::zero(),
        }
    }

    /// Sets the bitmap flag of digest word `idx`.
    pub fn set_bitmap_flag(&mut self, idx: usize)
        requires
            idx < PV_DIGEST_NUM_WORDS,
        ensures
            *final(self) == SyscallCols::spec_with_bitmap_flag(*old(self), idx as int),
    {
        if idx == 0 {
            self.bitmap0 = 1;
        } else if idx == 1 {
            self.bitmap1 = 1;
        } else if idx == 2 {
            self.bitmap2 = 1;
        } else if idx == 3 {
            self.bitmap3 = 1;
        } else if idx == 4 {
            self.bitmap4 = 1;
        } else if idx == 5 {
            self.bitmap5 = 1;
        } else if idx == 6 {
            self.bitmap6 = 1;
        } else {
            self.bitmap7 = 1;
        }
    }
}

/// The space-shared opcode-specific columns. Exactly one overlay is valid
/// per row, chosen by the row's selector columns; the syscall overlay is the
/// widest and the only one this chip reads.
#[derive(Clone, Copy, Debug, PartialEq, Eq, Structural)]
pub struct OpcodeSpecificCols {
    /// The syscall overlay.
    pub syscall: SyscallCols,
}

impl OpcodeSpecificCols {
    /// Returns the syscall view of the shared columns. Only a row whose
    /// selectors mark a syscall may be read through it.
    pub fn syscall_cols(&self) -> (r: &SyscallCols)
        ensures
            *r == self.syscall,
    {
        &self.syscall
    }
}

/// The column layout of the CPU chip.
#[derive(Clone, Copy, Debug, PartialEq, Eq, Structural)]
pub struct CpuCols {
    /// The current shard.
    pub shard: u32,
    /// The nonce of the ALU lookup.
    pub nonce: u32,
    /// The clock cycle value, within 24 bits.
    pub clk: u32,
    /// The least significant 16-bit limb of the clock.
    pub clk_16bit_limb: u32,
    /// The most significant 8-bit limb of the clock.
    pub clk_8bit_limb: u32,
    /// The program counter.
    pub pc: u32,
    /// The expected next program counter.
    pub next_pc: u32,
    /// The expected program counter after the next instruction.
    pub next_next_pc: u32,
    /// The decoded instruction.
    pub instruction: InstructionCols,
    /// The opcode selectors.
    pub selectors: OpcodeSelectorCols,
    /// The HI operand access columns.
    pub op_hi_access: MemoryReadWriteCols,
    /// The first operand access columns.
    pub op_a_access: MemoryReadWriteCols,
    /// The second operand access columns.
    pub op_b_access: MemoryReadCols,
    /// The third operand access columns.
    pub op_c_access: MemoryReadCols,
    /// The opcode-specific shared columns.
    pub opcode_specific_columns: OpcodeSpecificCols,
    /// Whether this row is a real (non-padding) row.
    pub is_real: u32,
    /// The nonce of the sign-extension subtraction lookup.
    pub unsigned_mem_val_nonce: u32,
    /// The syscall selector times the send-to-table flag.
    pub syscall_mul_send_to_table: u32,
    /// Whether a syscall operand must be range checked on this row.
    pub syscall_range_check_operand: u32,
    /// Whether the instruction advances the program counter sequentially.
    pub is_sequential_instr: u32,
    /// Whether the first operand may not be written.
    pub op_a_immutable: u32,
}

impl CpuCols {
    /// The padding row: all zero except the immediate-operand selectors,
    /// whose default keeps the padding constraints trivially satisfied.
    pub open spec fn spec_padding() -> CpuCols {
        CpuCols {
            shard: 0,
            nonce: 0,
            clk: 0,
            clk_16bit_limb: 0,
            clk_8bit_limb: 0,
            pc: 0,
            next_pc: 0,
            next_next_pc: 0,
            instruction: InstructionCols::spec_zero(),
            selectors: OpcodeSelectorCols::spec_padding(),
            op_hi_access: MemoryReadWriteCols::spec_zero(),
            op_a_access: MemoryReadWriteCols::spec_zero(),
            op_b_access: MemoryReadCols::spec_zero(),
            op_c_access: MemoryReadCols::spec_zero(),
            opcode_specific_columns: OpcodeSpecificCols { syscall: SyscallCols::spec_zero() },
            is_real: 0,
            unsigned_mem_val_nonce: 0,
            syscall_mul_send_to_table: 0,
            syscall_range_check_operand: 0,
            is_sequential_instr: 0,
            op_a_immutable: 0,
        }
    }

    /// The all-zero row.
    pub open spec fn spec_zero() -> CpuCols {
        CpuCols {
            selectors: OpcodeSelectorCols::spec_zero(),
            ..CpuCols::spec_padding()
        }
    }

    /// Returns a padding row.
    pub fn padding() -> (r: CpuCols)
        ensures
            r == CpuCols::spec_padding(),
    {
        let r = CpuCols {
            shard: 0,
            nonce: 0,
            clk: 0,
            clk_16bit_limb: 0,
            clk_8bit_limb: 0,
            pc: 0,
            next_pc: 0,
            next_next_pc: 0,
            instruction: InstructionCols {
                opcode: 0,
                op_a: 0,
                op_b: WordCols::zero(),
                op_c: WordCols::zero(),
                op_a_0: 0,
            },
            selectors: OpcodeSelectorCols {
                has_hi: 0,
                imm_b: 1,
                imm_c: 1,
                is_alu: 0,
                is_syscall: 0,
                is_unimpl: 0,
            },
            op_hi_access: MemoryReadWriteCols {
                prev_value: WordCols::zero(),
                value: WordCols::zero(),
                prev_shard: 0,
                prev_clk: 0,
            },
            op_a_access: MemoryReadWriteCols {
                prev_value: WordCols::zero(),
                value: WordCols::zero(),
                prev_shard: 0,
                prev_clk: 0,
            },
            op_b_access: MemoryReadCols { value: WordCols::zero(), prev_shard: 0, prev_clk: 0 },
            op_c_access: MemoryReadCols { value: WordCols::zero(), prev_shard: 0, prev_clk: 0 },
            opcode_specific_columns: OpcodeSpecificCols { syscall: SyscallCols::zero() },
            is_real: 0,
            unsigned_mem_val_nonce: 0,
            syscall_mul_send_to_table: 0,
            syscall_range_check_operand: 0,
            is_sequential_instr: 0,
            op_a_immutable: 0,
        };
        r
    }

    /// Returns an all-zero row.
    pub fn zeroed() -> (r: CpuCols)
        ensures
            r == CpuCols::spec_zero(),
    {
        let mut r = CpuCols::padding();
        r.selectors.imm_b = 0;
        r.selectors.imm_c = 0;
        r
    }

    /// Gets the value of the upper bits of the output operand.
    pub fn op_hi_val(&self) -> (r: WordCols)
        ensures
            r == self.op_hi_access.value,
    {
        self.op_hi_access.value
    }

    /// Gets the value of the first operand.
    pub fn op_a_val(&self) -> (r: WordCols)
        ensures
            r == self.op_a_access.value,
    {
        self.op_a_access.value
    }

    /// Gets the value of the second operand.
    pub fn op_b_val(&self) -> (r: WordCols)
        ensures
            r == self.op_b_access.value,
    {
        self.op_b_access.value
    }

    /// Gets the value of the third operand.
    pub fn op_c_val(&self) -> (r: WordCols)
        ensures
            r == self.op_c_access.value,
    {
        self.op_c_access.value
    }

    /// The whole row in column order: the fixed-width flattening handed to
    /// the proving engine.
    pub open spec fn spec_row(self) -> Seq<u32> {
        seq![
            self.shard,
            self.nonce,
            self.clk,
            self.clk_16bit_limb,
            self.clk_8bit_limb,
            self.pc,
            self.next_pc,
            self.next_next_pc,
        ] + self.instruction.spec_cols() + self.selectors.spec_row()
            + self.op_hi_access.spec_cols() + self.op_a_access.spec_cols()
            + self.op_b_access.spec_cols() + self.op_c_access.spec_cols()
            + self.opcode_specific_columns.syscall.spec_cols()
            + seq![
            self.is_real,
            self.unsigned_mem_val_nonce,
            self.syscall_mul_send_to_table,
            self.syscall_range_check_operand,
            self.is_sequential_instr,
            self.op_a_immutable,
        ]
    }

    /// Lays the row down as the fixed-width cell vector.
    #[verifier::rlimit(50)]
    pub fn to_row(&self) -> (r: Vec<u32>)
        ensures
            r@ == self.spec_row(),
            r@.len() == NUM_CPU_COLS,
    {
        let s = self;
        let r: Vec<u32> = vec![
            s.shard,
            s.nonce,
            s.clk,
            s.clk_16bit_limb,
            s.clk_8bit_limb,
            s.pc,
            s.next_pc,
            s.next_next_pc,
            s.instruction.opcode,
            s.instruction.op_a,
            s.instruction.op_b.b0,
            s.instruction.op_b.b1,
            s.instruction.op_b.b2,
            s.instruction.op_b.b3,
            s.instruction.op_c.b0,
            s.instruction.op_c.b1,
            s.instruction.op_c.b2,
            s.instruction.op_c.b3,
            s.instruction.op_a_0,
            s.selectors.has_hi,
            s.selectors.imm_b,
            s.selectors.imm_c,
            s.selectors.is_alu,
            s.selectors.is_syscall,
            s.selectors.is_unimpl,
            s.op_hi_access.prev_value.b0,
            s.op_hi_access.prev_value.b1,
            s.op_hi_access.prev_value.b2,
            s.op_hi_access.prev_value.b3,
            s.op_hi_access.value.b0,
            s.op_hi_access.value.b1,
            s.op_hi_access.value.b2,
            s.op_hi_access.value.b3,
            s.op_hi_access.prev_shard,
            s.op_hi_access.prev_clk,
            s.op_a_access.prev_value.b0,
            s.op_a_access.prev_value.b1,
            s.op_a_access.prev_value.b2,
            s.op_a_access.prev_value.b3,
            s.op_a_access.value.b0,
            s.op_a_access.value.b1,
            s.op_a_access.value.b2,
            s.op_a_access.value.b3,
            s.op_a_access.prev_shard,
            s.op_a_access.prev_clk,
            s.op_b_access.value.b0,
            s.op_b_access.value.b1,
            s.op_b_access.value.b2,
            s.op_b_access.value.b3,
            s.op_b_access.prev_shard,
            s.op_b_access.prev_clk,
            s.op_c_access.value.b0,
            s.op_c_access.value.b1,
            s.op_c_access.value.b2,
            s.op_c_access.value.b3,
            s.op_c_access.prev_shard,
            s.op_c_access.prev_clk,
            s.opcode_specific_columns.syscall.is_enter_unconstrained,
            s.opcode_specific_columns.syscall.is_hint_len,
            s.opcode_specific_columns.syscall.is_halt,
            s.opcode_specific_columns.syscall.is_commit,
            s.opcode_specific_columns.syscall.is_commit_deferred_proofs,
            s.opcode_specific_columns.syscall.bitmap0,
            s.opcode_specific_columns.syscall.bitmap1,
            s.opcode_specific_columns.syscall.bitmap2,
            s.opcode_specific_columns.syscall.bitmap3,
            s.opcode_specific_columns.syscall.bitmap4,
            s.opcode_specific_columns.syscall.bitmap5,
            s.opcode_specific_columns.syscall.bitmap6,
            s.opcode_specific_columns.syscall.bitmap7,
            s.opcode_specific_columns.syscall.syscall_nonce,
            s.opcode_specific_columns.syscall.operand_to_check.b0,
            s.opcode_specific_columns.syscall.operand_to_check.b1,
            s.opcode_specific_columns.syscall.operand_to_check.b2,
            s.opcode_specific_columns.syscall.operand_to_check.b3,
            s.is_real,
            s.unsigned_mem_val_nonce,
            s.syscall_mul_send_to_table,
            s.syscall_range_check_operand,
            s.is_sequential_instr,
            s.op_a_immutable,
        ];
        proof {
            assert(r@ =~= self.spec_row());
        }
        r
    }
}

/// The fixed width of the CPU chip's trace rows, counted in field elements.
pub const NUM_CPU_COLS: usize = 81;

/// The index of the first immediate-operand selector within a row.
pub const IMM_B_COL: usize = 20;

/// The index of the second immediate-operand selector within a row.
pub const IMM_C_COL: usize = 21;

/// Law: a padding row is zero in every column except the immediate-operand
/// selectors, which take their padding default of one so that the padding
/// row's constraints hold trivially.
#[verifier::rlimit(100)]
pub proof fn lemma_padding_row_cells()
    ensures
        CpuCols::spec_padding().spec_row().len() == NUM_CPU_COLS,
        forall|i: int|
            0 <= i < NUM_CPU_COLS ==> CpuCols::spec_padding().spec_row()[i] == (if i == IMM_B_COL
                || i == IMM_C_COL {
                1u32
            } else {
                0u32
            }),
{
    let row = CpuCols::spec_padding().spec_row();
    let expected = Seq::new(NUM_CPU_COLS as nat, |i: int| if i == IMM_B_COL || i == IMM_C_COL {
        1u32
    } else {
        0u32
    });
    assert(row =~= expected);
}

} // verus!
