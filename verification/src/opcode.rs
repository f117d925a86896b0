//! The closed vocabulary of machine operations, their classification
//! predicates, and the fixed-width arithmetic helpers shared by the
//! dependency emitter.
use vstd::prelude::*;

verus! {

/// A machine operation. Category membership (ALU, memory, branch, jump,
/// syscall, misc) is a total, exhaustive classification.
#[derive(Clone, Copy, Debug, PartialEq, Eq, Structural, Hash)]
pub enum Opcode {
    Add,
    Sub,
    Mult,
    Multu,
    Div,
    Divu,
    Sll,
    Srl,
    Sra,
    Slt,
    Sltu,
    And,
    Or,
    Xor,
    Nor,
    Clz,
    Clo,
    Lb,
    Lbu,
    Lh,
    Lhu,
    Lw,
    Sb,
    Sh,
    Sw,
    Beq,
    Bne,
    Bltz,
    Blez,
    Bgtz,
    Bgez,
    Jump,
    Jumpi,
    JumpDirect,
    Syscall,
    Unimpl,
}

impl Opcode {
    /// Whether the operation belongs to the ALU family.
    pub open spec fn spec_is_alu(self) -> bool {
        match self {
            Opcode::Add | Opcode::Sub | Opcode::Mult | Opcode::Multu | Opcode::Div
            | Opcode::Divu | Opcode::Sll | Opcode::Srl | Opcode::Sra | Opcode::Slt
            | Opcode::Sltu | Opcode::And | Opcode::Or | Opcode::Xor | Opcode::Nor
            | Opcode::Clz | Opcode::Clo => true,
            _ => false,
        }
    }

    /// Whether the operation reads or writes memory.
    pub open spec fn spec_is_memory(self) -> bool {
        match self {
            Opcode::Lb | Opcode::Lbu | Opcode::Lh | Opcode::Lhu | Opcode::Lw | Opcode::Sb
            | Opcode::Sh | Opcode::Sw => true,
            _ => false,
        }
    }

    /// Whether the operation stores to memory.
    pub open spec fn spec_is_memory_store(self) -> bool {
        match self {
            Opcode::Sb | Opcode::Sh | Opcode::Sw => true,
            _ => false,
        }
    }

    /// Whether the operation is a conditional branch.
    pub open spec fn spec_is_branch(self) -> bool {
        match self {
            Opcode::Beq | Opcode::Bne | Opcode::Bltz | Opcode::Blez | Opcode::Bgtz
            | Opcode::Bgez => true,
            _ => false,
        }
    }

    /// Whether the operation is a jump.
    pub open spec fn spec_is_jump(self) -> bool {
        match self {
            Opcode::Jump | Opcode::Jumpi | Opcode::JumpDirect => true,
            _ => false,
        }
    }

    /// Whether the operation is a syscall.
    pub open spec fn spec_is_syscall(self) -> bool {
        self == Opcode::Syscall
    }

    /// Whether the operation writes the LO/HI register pair.
    pub open spec fn spec_is_use_lo_hi_alu(self) -> bool {
        match self {
            Opcode::Mult | Opcode::Multu | Opcode::Div | Opcode::Divu => true,
            _ => false,
        }
    }

    /// Whether the operation divides with signed semantics.
    pub open spec fn spec_is_signed_divrem(self) -> bool {
        self == Opcode::Div
    }

    /// Whether the operation is a division or remainder operation.
    pub open spec fn spec_is_divrem(self) -> bool {
        self == Opcode::Div || self == Opcode::Divu
    }

    #[verifier::when_used_as_spec(spec_is_alu)]
    pub fn is_alu(self) -> (r: bool)
        ensures
            r == self.spec_is_alu(),
    {
        match self {
            Opcode::Add | Opcode::Sub | Opcode::Mult | Opcode::Multu | Opcode::Div
            | Opcode::Divu | Opcode::Sll | Opcode::Srl | Opcode::Sra | Opcode::Slt
            | Opcode::Sltu | Opcode::And | Opcode::Or | Opcode::Xor | Opcode::Nor
            | Opcode::Clz | Opcode::Clo => true,
            _ => false,
        }
    }

    #[verifier::when_used_as_spec(spec_is_memory)]
    pub fn is_memory(self) -> (r: bool)
        ensures
            r == self.spec_is_memory(),
    {
        match self {
            Opcode::Lb | Opcode::Lbu | Opcode::Lh | Opcode::Lhu | Opcode::Lw | Opcode::Sb
            | Opcode::Sh | Opcode::Sw => true,
            _ => false,
        }
    }

    #[verifier::when_used_as_spec(spec_is_memory_store)]
    pub fn is_memory_store(self) -> (r: bool)
        ensures
            r == self.spec_is_memory_store(),
    {
        match self {
            Opcode::Sb | Opcode::Sh | Opcode::Sw => true,
            _ => false,
        }
    }

    #[verifier::when_used_as_spec(spec_is_branch)]
    pub fn is_branch(self) -> (r: bool)
        ensures
            r == self.spec_is_branch(),
    {
        match self {
            Opcode::Beq | Opcode::Bne | Opcode::Bltz | Opcode::Blez | Opcode::Bgtz
            | Opcode::Bgez => true,
            _ => false,
        }
    }

    #[verifier::when_used_as_spec(spec_is_jump)]
    pub fn is_jump(self) -> (r: bool)
        ensures
            r == self.spec_is_jump(),
    {
        match self {
            Opcode::Jump | Opcode::Jumpi | Opcode::JumpDirect => true,
            _ => false,
        }
    }

    #[verifier::when_used_as_spec(spec_is_syscall)]
    pub fn is_syscall(self) -> (r: bool)
        ensures
            r == self.spec_is_syscall(),
    {
        match self {
            Opcode::Syscall => true,
            _ => false,
        }
    }

    #[verifier::when_used_as_spec(spec_is_use_lo_hi_alu)]
    pub fn is_use_lo_hi_alu(self) -> (r: bool)
        ensures
            r == self.spec_is_use_lo_hi_alu(),
    {
        match self {
            Opcode::Mult | Opcode::Multu | Opcode::Div | Opcode::Divu => true,
            _ => false,
        }
    }

    /// A stable numeric encoding of the operation, used when an instruction is
    /// laid down in a trace row of field elements.
    pub open spec fn spec_field_value(self) -> u32 {
        match self {
            Opcode::Add => 0,
            Opcode::Sub => 1,
            Opcode::Mult => 2,
            Opcode::Multu => 3,
            Opcode::Div => 4,
            Opcode::Divu => 5,
            Opcode::Sll => 6,
            Opcode::Srl => 7,
            Opcode::Sra => 8,
            Opcode::Slt => 9,
            Opcode::Sltu => 10,
            Opcode::And => 11,
            Opcode::Or => 12,
            Opcode::Xor => 13,
            Opcode::Nor => 14,
            Opcode::Clz => 15,
            Opcode::Clo => 16,
            Opcode::Lb => 17,
            Opcode::Lbu => 18,
            Opcode::Lh => 19,
            Opcode::Lhu => 20,
            Opcode::Lw => 21,
            Opcode::Sb => 22,
            Opcode::Sh => 23,
            Opcode::Sw => 24,
            Opcode::Beq => 25,
            Opcode::Bne => 26,
            Opcode::Bltz => 27,
            Opcode::Blez => 28,
            Opcode::Bgtz => 29,
            Opcode::Bgez => 30,
            Opcode::Jump => 31,
            Opcode::Jumpi => 32,
            Opcode::JumpDirect => 33,
            Opcode::Syscall => 34,
            Opcode::Unimpl => 35,
        }
    }

    #[verifier::when_used_as_spec(spec_field_value)]
    pub fn field_value(self) -> (r: u32)
        ensures
            r == self.spec_field_value(),
    {
        match self {
            Opcode::Add => 0,
            Opcode::Sub => 1,
            Opcode::Mult => 2,
            Opcode::Multu => 3,
            Opcode::Div => 4,
            Opcode::Divu => 5,
            Opcode::Sll => 6,
            Opcode::Srl => 7,
            Opcode::Sra => 8,
            Opcode::Slt => 9,
            Opcode::Sltu => 10,
            Opcode::And => 11,
            Opcode::Or => 12,
            Opcode::Xor => 13,
            Opcode::Nor => 14,
            Opcode::Clz => 15,
            Opcode::Clo => 16,
            Opcode::Lb => 17,
            Opcode::Lbu => 18,
            Opcode::Lh => 19,
            Opcode::Lhu => 20,
            Opcode::Lw => 21,
            Opcode::Sb => 22,
            Opcode::Sh => 23,
            Opcode::Sw => 24,
            Opcode::Beq => 25,
            Opcode::Bne => 26,
            Opcode::Bltz => 27,
            Opcode::Blez => 28,
            Opcode::Bgtz => 29,
            Opcode::Bgez => 30,
            Opcode::Jump => 31,
            Opcode::Jumpi => 32,
            Opcode::JumpDirect => 33,
            Opcode::Syscall => 34,
            Opcode::Unimpl => 35,
        }
    }
}

/// Whether a division opcode uses signed semantics.
pub fn is_signed_operation(opcode: Opcode) -> (r: bool)
    ensures
        r == opcode.spec_is_signed_divrem(),
{
    match opcode {
        Opcode::Div => true,
        _ => false,
    }
}

/// The value of a 32-bit word read as a two's-complement signed integer.
pub open spec fn as_signed(x: u32) -> int {
    if x < 0x8000_0000 {
        x as int
    } else {
        x as int - 0x1_0000_0000
    }
}

/// The absolute value of an integer.
pub open spec fn abs_int(x: int) -> int {
    if x < 0 {
        -x
    } else {
        x
    }
}

/// The two's-complement encoding of `-m`, for a magnitude `0 <= m <= 2^31`.
pub open spec fn neg_encode(m: int) -> u32 {
    (((0x1_0000_0000 - m) % 0x1_0000_0000) as u32)
}

/// The most significant bit of a 32-bit word.
pub open spec fn spec_msb(x: u32) -> u32 {
    if x >= 0x8000_0000 {
        1
    } else {
        0
    }
}

/// Returns the most significant bit of `a`.
#[verifier::when_used_as_spec(spec_msb)]
pub fn get_msb(a: u32) -> (r: u32)
    ensures
        r == spec_msb(a),
{
    if a >= 0x8000_0000 {
        1
    } else {
        0
    }
}

/// The two's-complement absolute value of a word read as a signed integer.
/// The result is the magnitude `|x|`, which always fits in a `u32`.
pub open spec fn spec_abs_u32(x: u32) -> u32 {
    if x >= 0x8000_0000 {
        ((0x1_0000_0000 - x) as u32)
    } else {
        x
    }
}

/// Computes the magnitude of `x` read as a signed word (its `unsigned_abs`).
#[verifier::when_used_as_spec(spec_abs_u32)]
pub fn abs_u32(x: u32) -> (r: u32)
    ensures
        r == spec_abs_u32(x),
        r as int == abs_int(as_signed(x)),
{
    if x >= 0x8000_0000 {
        (0u32.wrapping_sub(x))
    } else {
        x
    }
}

/// The quotient of a division event, as the constraint system defines it:
/// all-ones for a zero divisor, otherwise the (signed or unsigned) quotient
/// truncated toward zero and encoded in two's complement.
pub open spec fn spec_quotient(b: u32, c: u32, signed: bool) -> u32 {
    if c == 0 {
        0xFFFF_FFFFu32
    } else if !signed {
        (b as int / c as int) as u32
    } else {
        let mag = abs_int(as_signed(b)) / abs_int(as_signed(c));
        if (as_signed(b) < 0) != (as_signed(c) < 0) {
            neg_encode(mag)
        } else {
            mag as u32
        }
    }
}

/// The remainder of a division event, as the constraint system defines it:
/// the dividend itself for a zero divisor, otherwise the remainder whose sign
/// follows the dividend, encoded in two's complement.
pub open spec fn spec_remainder(b: u32, c: u32, signed: bool) -> u32 {
    if c == 0 {
        b
    } else if !signed {
        (b as int % c as int) as u32
    } else {
        let mag = abs_int(as_signed(b)) % abs_int(as_signed(c));
        if as_signed(b) < 0 {
            neg_encode(mag)
        } else {
            mag as u32
        }
    }
}

/// Computes the quotient and remainder for a division or remainder operation.
/// Signedness is chosen by the opcode; a zero divisor yields the fixed answer
/// the constraint system expects (all-ones quotient, dividend remainder).
pub fn get_quotient_and_remainder(b: u32, c: u32, opcode: Opcode) -> (r: (u32, u32))
    ensures
        r.0 == spec_quotient(b, c, opcode.spec_is_signed_divrem()),
        r.1 == spec_remainder(b, c, opcode.spec_is_signed_divrem()),
{
    if c == 0 {
        (0xFFFF_FFFFu32, b)
    } else if is_signed_operation(opcode) {
        let abs_b = abs_u32(b);
        let abs_c = abs_u32(c);
        assert(abs_c != 0) by {
            assert(as_signed(c) != 0);
        };
        let mag_q: u32 = abs_b / abs_c;
        let mag_r: u32 = abs_b % abs_c;
        let q: u32 = if get_msb(b) != get_msb(c) {
            0u32.wrapping_sub(mag_q)
        } else {
            mag_q
        };
        let r: u32 = if get_msb(b) == 1 {
            0u32.wrapping_sub(mag_r)
        } else {
            mag_r
        };
        (q, r)
    } else {
        (b / c, b % c)
    }
}

} // verus!
