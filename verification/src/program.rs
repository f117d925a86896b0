//! The decoded program: instructions with their operand layout, and the
//! fetch abstraction the trace generators use.
use vstd::prelude::*;
use crate::opcode::Opcode;

verus! {

/// A decoded instruction: opcode, three operand slots, and flags marking
/// whether each source operand is an immediate. Immutable once decoded.
#[derive(Clone, Copy, Debug, PartialEq, Eq, Structural)]
pub struct Instruction {
    /// The opcode.
    pub opcode: Opcode,
    /// The destination operand slot.
    pub op_a: u32,
    /// The first source operand slot.
    pub op_b: u32,
    /// The second source operand slot.
    pub op_c: u32,
    /// Whether the first source is an immediate value.
    pub imm_b: bool,
    /// Whether the second source is an immediate value.
    pub imm_c: bool,
}

impl Instruction {
    /// Creates a new `Instruction`.
    pub fn new(opcode: Opcode, op_a: u32, op_b: u32, op_c: u32, imm_b: bool, imm_c: bool) -> (r:
        Instruction)
        ensures
            r == (Instruction { opcode, op_a, op_b, op_c, imm_b, imm_c }),
    {
        Instruction { opcode, op_a, op_b, op_c, imm_b, imm_c }
    }

    /// Whether this instruction is an ALU instruction.
    pub fn is_alu_instruction(&self) -> (r: bool)
        ensures
            r == self.opcode.spec_is_alu(),
    {
        self.opcode.is_alu()
    }

    /// Whether this instruction reads or writes memory.
    pub fn is_memory_instruction(&self) -> (r: bool)
        ensures
            r == self.opcode.spec_is_memory(),
    {
        self.opcode.is_memory()
    }

    /// Whether this instruction stores to memory (there is no
    /// store-conditional in the vocabulary, so this covers every store).
    pub fn is_memory_store_instruction_except_sc(&self) -> (r: bool)
        ensures
            r == self.opcode.spec_is_memory_store(),
    {
        self.opcode.is_memory_store()
    }

    /// Whether this instruction is a conditional branch.
    pub fn is_branch_instruction(&self) -> (r: bool)
        ensures
            r == self.opcode.spec_is_branch(),
    {
        self.opcode.is_branch()
    }

    /// Whether this instruction is a jump.
    pub fn is_jump_instruction(&self) -> (r: bool)
        ensures
            r == self.opcode.spec_is_jump(),
    {
        self.opcode.is_jump()
    }

    /// Whether this instruction is a syscall.
    pub fn is_syscall_instruction(&self) -> (r: bool)
        ensures
            r == self.opcode.spec_is_syscall(),
    {
        self.opcode.is_syscall()
    }
}

/// A loaded program: a contiguous window of decoded instructions starting at
/// a base program counter, each occupying four bytes.
#[derive(Clone, Debug, PartialEq, Eq)]
pub struct Program {
    /// The decoded instructions, in address order.
    pub instructions: Vec<Instruction>,
    /// The program counter of the first instruction.
    pub pc_start: u32,
    /// The base address of the instruction window.
    pub pc_base: u32,
}

impl Program {
    /// Creates a new `Program`.
    pub fn new(instructions: Vec<Instruction>, pc_start: u32, pc_base: u32) -> (r: Program)
        ensures
            r == (Program { instructions, pc_start, pc_base }),
    {
        Program { instructions, pc_start, pc_base }
    }

    /// Whether `pc` addresses an instruction of this program.
    pub open spec fn spec_fetchable(self, pc: u32) -> bool {
        &&& pc >= self.pc_base
        &&& (pc - self.pc_base) % 4 == 0
        &&& (pc - self.pc_base) / 4 < self.instructions@.len()
    }

    /// The instruction at `pc`.
    pub open spec fn spec_fetch(self, pc: u32) -> Instruction {
        self.instructions@[(pc - self.pc_base) / 4]
    }

    /// Fetches the instruction at address `pc`.
    pub fn fetch(&self, pc: u32) -> (r: Instruction)
        requires
            self.spec_fetchable(pc),
        ensures
            r == self.spec_fetch(pc),
    {
        let idx = ((pc - self.pc_base) / 4) as usize;
        self.instructions[idx]
    }
}

} // verus!
