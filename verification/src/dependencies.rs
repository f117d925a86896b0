//! The dependency emitter: given a primary event, it synthesizes the
//! auxiliary events that decompose the operation into primitives the
//! constraint system can check directly. The emitter is append-only and
//! draws fresh correlation identifiers from the shard's allocator.
use vstd::prelude::*;
use vstd::arithmetic::div_mod::{
    lemma_fundamental_div_mod, lemma_mod_bound, lemma_mul_mod_noop_general, lemma_small_mod,
};
use vstd::arithmetic::mul::{lemma_mul_nonnegative, lemma_mul_unary_negation,
    lemma_mul_upper_bound};
use crate::opcode::abs_int;
use crate::events::{AluEvent, BranchEvent, CpuEvent, JumpEvent, LookupId, MemInstrEvent,
    MemoryRecord};
use crate::executor::Executor;
use crate::opcode::{
    abs_u32, as_signed, get_msb, get_quotient_and_remainder, is_signed_operation, spec_abs_u32,
    spec_msb, spec_quotient, spec_remainder, Opcode,
};
use crate::record::{lookup_id_seq, ExecutionRecord};
use crate::UNUSED_PC;

verus! {

/// The 64-bit two's-complement product of a quotient and a divisor word,
/// under the signedness of the division opcode.
pub open spec fn spec_prod_tc(q: u32, c: u32, signed: bool) -> int {
    if signed {
        (as_signed(q) * as_signed(c)) % 0x1_0000_0000_0000_0000
    } else {
        (q as int * c as int) % 0x1_0000_0000_0000_0000
    }
}

/// The lower word of the 64-bit product `q * c`.
pub open spec fn spec_mul_lo(q: u32, c: u32, signed: bool) -> u32 {
    (spec_prod_tc(q, c, signed) % 0x1_0000_0000) as u32
}

/// The upper word of the 64-bit product `q * c`.
pub open spec fn spec_mul_hi(q: u32, c: u32, signed: bool) -> u32 {
    (spec_prod_tc(q, c, signed) / 0x1_0000_0000) as u32
}

/// The larger of one and `x`: the divisor bound checked by the comparison
/// auxiliary event.
pub open spec fn spec_max1(x: u32) -> u32 {
    if x < 1 {
        1u32
    } else {
        x
    }
}

/// The 64-bit two's-complement encoding of a word read as a signed integer.
fn sign_extend64(x: u32) -> (r: u64)
    ensures
        r as int == as_signed(x) % 0x1_0000_0000_0000_0000,
{
    if x >= 0x8000_0000 {
        x as u64 + 0xFFFF_FFFF_0000_0000u64
    } else {
        x as u64
    }
}

/// An auxiliary addition event proving `x = -|x|`, emitted for a negative
/// signed operand of a division.
pub open spec fn is_abs_add_event(
    e: AluEvent,
    x: u32,
    lid: LookupId,
    shard: u32,
    clk: u32,
    n0: u64,
) -> bool {
    &&& e.lookup_id == lid
    &&& e.shard == shard
    &&& e.clk == clk
    &&& e.pc == UNUSED_PC
    &&& e.next_pc == 0
    &&& e.opcode == Opcode::Add
    &&& e.hi == 0
    &&& e.a == 0
    &&& e.b == x
    &&& e.c == spec_abs_u32(x)
    &&& e.op_a_0 == false
    &&& e.sub_lookups@ == lookup_id_seq(n0)
}

/// The multiplication-verification event of a division: it proves that
/// quotient times divisor reconstructs the dividend, as a 64-bit product
/// split into a low and a high word.
pub open spec fn is_divrem_mul_event(e: AluEvent, event: AluEvent, shard: u32, n0: u64) -> bool {
    let signed = event.opcode.spec_is_signed_divrem();
    let q = spec_quotient(event.b, event.c, signed);
    &&& e.lookup_id == event.sub_lookups@[0]
    &&& e.shard == shard
    &&& e.clk == event.clk
    &&& e.pc == UNUSED_PC
    &&& e.next_pc == 0
    &&& e.opcode == (if signed {
        Opcode::Mult
    } else {
        Opcode::Multu
    })
    &&& e.a == spec_mul_lo(q, event.c, signed)
    &&& e.hi == spec_mul_hi(q, event.c, signed)
    &&& e.b == q
    &&& e.c == event.c
    &&& e.op_a_0 == false
    &&& e.sub_lookups@ == lookup_id_seq(n0)
}

/// The comparison event of a division: it proves `|remainder| < max(1, |divisor|)`.
pub open spec fn is_divrem_lt_event(e: AluEvent, event: AluEvent, shard: u32, n0: u64) -> bool {
    let signed = event.opcode.spec_is_signed_divrem();
    let r = spec_remainder(event.b, event.c, signed);
    &&& e.lookup_id == (if signed {
        event.sub_lookups@[1]
    } else {
        event.sub_lookups@[2]
    })
    &&& e.shard == shard
    &&& e.clk == event.clk
    &&& e.pc == UNUSED_PC
    &&& e.next_pc == 0
    &&& e.opcode == Opcode::Sltu
    &&& e.hi == 0
    &&& e.a == 1
    &&& e.b == (if signed {
        spec_abs_u32(r)
    } else {
        r
    })
    &&& e.c == (if signed {
        spec_max1(spec_abs_u32(event.c))
    } else {
        spec_max1(event.c)
    })
    &&& e.op_a_0 == false
    &&& e.sub_lookups@ == lookup_id_seq(n0)
}

/// Emits the dependencies for division and remainder operations.
///
/// For a signed division with a negative divisor, an addition event proves
/// `divisor = -|divisor|`; likewise for a negative remainder. A
/// multiplication event always proves that quotient times divisor
/// reconstructs the dividend. A comparison event proves that the remainder's
/// magnitude is below `max(1, |divisor|)`; it is omitted entirely when the
/// divisor is zero, whose result the constraint system fixes on its own.
pub fn emit_divrem_dependencies(executor: &mut Executor, event: AluEvent)
    requires
        event.opcode == Opcode::Div || event.opcode == Opcode::Divu,
        old(executor).record.next_lookup_id + 24 <= u64::MAX,
    ensures
        ({
            let rec0 = old(executor).record;
            let rec1 = final(executor).record;
            let shard = old(executor).current_shard;
            let signed = event.opcode.spec_is_signed_divrem();
            let r = spec_remainder(event.b, event.c, signed);
            let c_neg = signed && spec_msb(event.c) == 1;
            let rem_neg = signed && spec_msb(r) == 1;
            let n0 = rec0.next_lookup_id as int;
            let n1 = n0 + if c_neg {
                6int
            } else {
                0int
            };
            let n2 = n1 + if rem_neg {
                6int
            } else {
                0int
            };
            let n3 = n2 + 6;
            &&& final(executor).current_shard == old(executor).current_shard
            &&& rec1.add_events@.len() == rec0.add_events@.len() + (if c_neg {
                1int
            } else {
                0int
            }) + (if rem_neg {
                1int
            } else {
                0int
            })
            &&& rec1.add_events@.take(rec0.add_events@.len() as int) == rec0.add_events@
            &&& (c_neg ==> is_abs_add_event(
                rec1.add_events@[rec0.add_events@.len() as int],
                event.c,
                event.sub_lookups@[3],
                shard,
                event.clk,
                n0 as u64,
            ))
            &&& (rem_neg ==> is_abs_add_event(
                rec1.add_events@.last(),
                r,
                event.sub_lookups@[4],
                shard,
                event.clk,
                n1 as u64,
            ))
            &&& rec1.mul_events@.len() == rec0.mul_events@.len() + 1
            &&& rec1.mul_events@.take(rec0.mul_events@.len() as int) == rec0.mul_events@
            &&& is_divrem_mul_event(rec1.mul_events@.last(), event, shard, n2 as u64)
            &&& (event.c != 0 ==> {
                &&& rec1.lt_events@.len() == rec0.lt_events@.len() + 1
                &&& rec1.lt_events@.take(rec0.lt_events@.len() as int) == rec0.lt_events@
                &&& is_divrem_lt_event(rec1.lt_events@.last(), event, shard, n3 as u64)
            })
            &&& (event.c == 0 ==> rec1.lt_events@ == rec0.lt_events@)
            &&& rec1.next_lookup_id == n3 + 6
            &&& rec1 == (ExecutionRecord {
                add_events: rec1.add_events,
                mul_events: rec1.mul_events,
                lt_events: rec1.lt_events,
                next_lookup_id: rec1.next_lookup_id,
                ..rec0
            })
        }),
{
    let shard = executor.shard();
    let (quotient, remainder) = get_quotient_and_remainder(event.b, event.c, event.opcode);
    let c_msb = get_msb(event.c);
    let rem_msb = get_msb(remainder);
    let mut c_neg: u32 = 0;
    let mut rem_neg: u32 = 0;
    let signed = is_signed_operation(event.opcode);
    if signed {
        c_neg = c_msb;
        rem_neg = rem_msb;
    }
    let ghost rec0 = executor.record;

    if c_neg == 1 {
        let ids = executor.record.create_lookup_ids();
        executor.record.add_events.push(
            AluEvent {
                lookup_id: event.sub_lookups[3],
                shard,
                clk: event.clk,
                pc: UNUSED_PC,
                next_pc: 0,
                opcode: Opcode::Add,
                hi: 0,
                a: 0,
                b: event.c,
                c: abs_u32(event.c),
                op_a_0: false,
                sub_lookups: ids,
            },
        );
    }
    if rem_neg == 1 {
        let ids = executor.record.create_lookup_ids();
        executor.record.add_events.push(
            AluEvent {
                lookup_id: event.sub_lookups[4],
                shard,
                clk: event.clk,
                pc: UNUSED_PC,
                next_pc: 0,
                opcode: Opcode::Add,
                hi: 0,
                a: 0,
                b: remainder,
                c: abs_u32(remainder),
                op_a_0: false,
                sub_lookups: ids,
            },
        );
    }

    let prod: u64 = if signed {
        let sq = sign_extend64(quotient);
        let sc = sign_extend64(event.c);
        let p = sq.wrapping_mul(sc);
        proof {
            lemma_mul_mod_noop_general(
                as_signed(quotient),
                as_signed(event.c),
                0x1_0000_0000_0000_0000,
            );
        }
        p
    } else {
        proof {
            lemma_mul_upper_bound(
                quotient as int,
                0xFFFF_FFFFint,
                event.c as int,
                0xFFFF_FFFFint,
            );
            lemma_mul_nonnegative(quotient as int, event.c as int);
            lemma_small_mod((quotient as int * event.c as int) as nat, 0x1_0000_0000_0000_0000nat);
        }
        (quotient as u64) * (event.c as u64)
    };
    assert(prod as int == spec_prod_tc(quotient, event.c, signed));
    let lower_word: u32 = (prod % 0x1_0000_0000u64) as u32;
    let upper_word: u32 = (prod / 0x1_0000_0000u64) as u32;

    let mul_ids = executor.record.create_lookup_ids();
    let multiplication = AluEvent {
        lookup_id: event.sub_lookups[0],
        shard,
        clk: event.clk,
        pc: UNUSED_PC,
        next_pc: 0,
        opcode: if signed {
            Opcode::Mult
        } else {
            Opcode::Multu
        },
        a: lower_word,
        hi: upper_word,
        b: quotient,
        c: event.c,
        op_a_0: false,
        sub_lookups: mul_ids,
    };
    executor.record.mul_events.push(multiplication);

    let lt_ids = executor.record.create_lookup_ids();
    let lt_event = if signed {
        AluEvent {
            lookup_id: event.sub_lookups[1],
            shard,
            clk: event.clk,
            pc: UNUSED_PC,
            next_pc: 0,
            opcode: Opcode::Sltu,
            hi: 0,
            a: 1,
            b: abs_u32(remainder),
            c: {
                let m = abs_u32(event.c);
                if m < 1 {
                    1u32
                } else {
                    m
                }
            },
            op_a_0: false,
            sub_lookups: lt_ids,
        }
    } else {
        AluEvent {
            lookup_id: event.sub_lookups[2],
            shard,
            clk: event.clk,
            pc: UNUSED_PC,
            next_pc: 0,
            opcode: Opcode::Sltu,
            hi: 0,
            a: 1,
            b: remainder,
            c: if event.c < 1 {
                1u32
            } else {
                event.c
            },
            op_a_0: false,
            sub_lookups: lt_ids,
        }
    };

    if event.c != 0 {
        executor.record.lt_events.push(lt_event);
    }

    proof {
        assert(executor.record.add_events@.take(rec0.add_events@.len() as int)
            =~= rec0.add_events@);
        assert(executor.record.mul_events@.take(rec0.mul_events@.len() as int)
            =~= rec0.mul_events@);
        if event.c != 0 {
            assert(executor.record.lt_events@.take(rec0.lt_events@.len() as int)
                =~= rec0.lt_events@);
        }
    }
}

/// The word the count-leading-bits decomposition inspects: the raw operand
/// for count-leading-zeros, its bitwise complement for count-leading-ones.
pub open spec fn spec_cloclz_operand(event: AluEvent) -> u32 {
    if event.opcode == Opcode::Clz {
        event.b
    } else {
        !event.b
    }
}

/// The logical-right-shift event that decomposes a count-leading-bits
/// operation on a nonzero (possibly complemented) word.
pub open spec fn is_cloclz_srl_event(e: AluEvent, event: AluEvent, shard: u32, n0: u64) -> bool {
    let bb = spec_cloclz_operand(event);
    &&& e.lookup_id == event.sub_lookups@[0]
    &&& e.shard == shard
    &&& e.clk == event.clk
    &&& e.pc == UNUSED_PC
    &&& e.next_pc == 0
    &&& e.opcode == Opcode::Srl
    &&& e.hi == 0
    &&& e.a == (bb >> ((31 - event.a) as u32))
    &&& e.b == bb
    &&& e.c == 31 - event.a
    &&& e.op_a_0 == false
    &&& e.sub_lookups@ == lookup_id_seq(n0)
}

/// Emits the dependencies for count-leading-zeros and count-leading-ones
/// operations.
///
/// If the (possibly complemented) operand is nonzero, a logical-right-shift
/// event proves the claimed count: shifting the operand right by 31 minus the
/// count. If the operand is zero, no auxiliary event is emitted.
pub fn emit_cloclz_dependencies(executor: &mut Executor, event: AluEvent)
    requires
        event.opcode == Opcode::Clz || event.opcode == Opcode::Clo,
        spec_cloclz_operand(event) != 0 ==> event.a <= 31,
        old(executor).record.next_lookup_id + 6 <= u64::MAX,
    ensures
        final(executor).current_shard == old(executor).current_shard,
        ({
            let rec0 = old(executor).record;
            let rec1 = final(executor).record;
            let shard = old(executor).current_shard;
            let bb = spec_cloclz_operand(event);
            if bb != 0 {
                &&& rec1.shift_right_events@.len() == rec0.shift_right_events@.len() + 1
                &&& rec1.shift_right_events@.take(rec0.shift_right_events@.len() as int)
                    == rec0.shift_right_events@
                &&& is_cloclz_srl_event(
                    rec1.shift_right_events@.last(),
                    event,
                    shard,
                    rec0.next_lookup_id,
                )
                &&& rec1.next_lookup_id == rec0.next_lookup_id + 6
                &&& rec1 == (ExecutionRecord {
                    shift_right_events: rec1.shift_right_events,
                    next_lookup_id: rec1.next_lookup_id,
                    ..rec0
                })
            } else {
                rec1 == rec0
            }
        }),
{
    let shard = executor.shard();
    let ghost rec0 = executor.record;

    let b = if event.opcode == Opcode::Clz {
        event.b
    } else {
        !event.b
    };
    if b != 0 {
        let ids = executor.record.create_lookup_ids();
        let srl_event = AluEvent {
            lookup_id: event.sub_lookups[0],
            shard,
            clk: event.clk,
            pc: UNUSED_PC,
            next_pc: 0,
            opcode: Opcode::Srl,
            hi: 0,
            a: b >> (31 - event.a),
            b,
            c: 31 - event.a,
            op_a_0: false,
            sub_lookups: ids,
        };
        executor.record.shift_right_events.push(srl_event);
        proof {
            assert(executor.record.shift_right_events@.take(
                rec0.shift_right_events@.len() as int,
            ) =~= rec0.shift_right_events@);
        }
    }
}

/// The effective address of a memory instruction: base plus offset, with
/// 32-bit wraparound.
pub open spec fn spec_memory_addr(event: MemInstrEvent) -> u32 {
    (((event.b + event.c) % 0x1_0000_0000) as u32)
}

/// The sub-word value a sign-extending load reads out of the addressed word:
/// the addressed byte for a byte load, the addressed half-word for a
/// half-word load.
pub open spec fn spec_unsigned_mem_val(event: MemInstrEvent, mem_value: u32) -> u32 {
    let addr_offset = spec_memory_addr(event) % 4;
    if event.opcode == Opcode::Lb {
        (mem_value >> (8 * addr_offset)) & 0xFF
    } else {
        if (addr_offset >> 1) % 2 == 0 {
            mem_value & 0x0000_FFFF
        } else {
            (mem_value & 0xFFFF_0000) >> 16
        }
    }
}

/// The fixed sign constant of a sign-extending load: 256 for a byte load,
/// 65536 for a half-word load.
pub open spec fn spec_sign_value(opcode: Opcode) -> u32 {
    if opcode == Opcode::Lb {
        256u32
    } else {
        65536u32
    }
}

/// Whether a sign-extending load must prove the sign relation: the opcode is
/// a signed byte or half-word load and the top bit of the most significant
/// loaded byte is one.
pub open spec fn spec_mem_sign_extend(event: MemInstrEvent, mem_value: u32) -> bool {
    let v = spec_unsigned_mem_val(event, mem_value);
    let msbyte = if event.opcode == Opcode::Lb {
        v
    } else {
        (v >> 8) & 0xFF
    };
    &&& (event.opcode == Opcode::Lb || event.opcode == Opcode::Lh)
    &&& ((msbyte >> 7) & 0x01) == 1
}

/// The addition event proving that the effective address of a memory
/// instruction equals base plus offset.
pub open spec fn is_memory_add_event(
    e: AluEvent,
    event: MemInstrEvent,
    cpu_event: CpuEvent,
    shard: u32,
    n0: u64,
) -> bool {
    &&& e.lookup_id == cpu_event.memory_add_lookup_id
    &&& e.shard == shard
    &&& e.clk == event.clk
    &&& e.pc == UNUSED_PC
    &&& e.next_pc == 0
    &&& e.opcode == Opcode::Add
    &&& e.hi == 0
    &&& e.a == spec_memory_addr(event)
    &&& e.b == event.b
    &&& e.c == event.c
    &&& e.op_a_0 == false
    &&& e.sub_lookups@ == lookup_id_seq(n0)
}

/// The subtraction event proving the relation between the unsigned loaded
/// value and the fixed sign constant of a sign-extending load.
pub open spec fn is_memory_sub_event(
    e: AluEvent,
    event: MemInstrEvent,
    cpu_event: CpuEvent,
    mem_value: u32,
    shard: u32,
    n0: u64,
) -> bool {
    &&& e.lookup_id == cpu_event.memory_sub_lookup_id
    &&& e.shard == shard
    &&& e.clk == event.clk
    &&& e.pc == UNUSED_PC
    &&& e.next_pc == 0
    &&& e.opcode == Opcode::Sub
    &&& e.hi == 0
    &&& e.a == event.a
    &&& e.b == spec_unsigned_mem_val(event, mem_value)
    &&& e.c == spec_sign_value(event.opcode)
    &&& e.op_a_0 == false
    &&& e.sub_lookups@ == lookup_id_seq(n0)
}

/// Emits the dependencies for memory instructions.
///
/// An addition event always proves that the effective address equals base
/// plus offset. For a sign-extending byte or half-word load whose most
/// significant loaded byte has its top bit set, a subtraction event proves
/// the relation between the unsigned loaded value and the fixed sign
/// constant.
pub fn emit_memory_dependencies(
    executor: &mut Executor,
    event: MemInstrEvent,
    memory_record: MemoryRecord,
    index: usize,
)
    requires
        event.opcode.spec_is_memory(),
        index < old(executor).record.cpu_events@.len(),
        old(executor).record.next_lookup_id + 12 <= u64::MAX,
    ensures
        final(executor).current_shard == old(executor).current_shard,
        ({
            let rec0 = old(executor).record;
            let rec1 = final(executor).record;
            let shard = old(executor).current_shard;
            let cpu_event = rec0.cpu_events@[index as int];
            let sub_needed = spec_mem_sign_extend(event, memory_record.value);
            &&& rec1.add_events@.len() == rec0.add_events@.len() + 1 + (if sub_needed {
                1int
            } else {
                0int
            })
            &&& rec1.add_events@.take(rec0.add_events@.len() as int) == rec0.add_events@
            &&& is_memory_add_event(
                rec1.add_events@[rec0.add_events@.len() as int],
                event,
                cpu_event,
                shard,
                rec0.next_lookup_id,
            )
            &&& (sub_needed ==> is_memory_sub_event(
                rec1.add_events@.last(),
                event,
                cpu_event,
                memory_record.value,
                shard,
                (rec0.next_lookup_id + 6) as u64,
            ))
            &&& rec1.next_lookup_id == rec0.next_lookup_id + 6 + (if sub_needed {
                6int
            } else {
                0int
            })
            &&& rec1 == (ExecutionRecord {
                add_events: rec1.add_events,
                next_lookup_id: rec1.next_lookup_id,
                ..rec0
            })
        }),
{
    let cpu_event = executor.record.cpu_events[index];
    let shard = executor.shard();
    let ghost rec0 = executor.record;
    let memory_addr = event.b.wrapping_add(event.c);
    let add_ids = executor.record.create_lookup_ids();
    let add_event = AluEvent {
        lookup_id: cpu_event.memory_add_lookup_id,
        shard,
        clk: event.clk,
        pc: UNUSED_PC,
        next_pc: 0,
        opcode: Opcode::Add,
        hi: 0,
        a: memory_addr,
        b: event.b,
        c: event.c,
        op_a_0: false,
        sub_lookups: add_ids,
    };
    executor.record.add_events.push(add_event);
    let addr_offset: u32 = memory_addr % 4u32;
    let mem_value = memory_record.value;

    if matches!(event.opcode, Opcode::Lb | Opcode::Lh) {
        let (unsigned_mem_val, most_sig_mem_value_byte, sign_value): (u32, u32, u32) = match event
            .opcode {
            Opcode::Lb => {
                let byte: u32 = (mem_value >> (8 * addr_offset)) & 0xFF;
                (byte, byte, 256u32)
            },
            _ => {
                let half: u32 = if (addr_offset >> 1) % 2 == 0 {
                    mem_value & 0x0000_FFFF
                } else {
                    (mem_value & 0xFFFF_0000) >> 16
                };
                let byte: u32 = (half >> 8) & 0xFF;
                (half, byte, 65536u32)
            },
        };

        if (most_sig_mem_value_byte >> 7) & 0x01 == 1 {
            let sub_ids = executor.record.create_lookup_ids();
            let sub_event = AluEvent {
                lookup_id: cpu_event.memory_sub_lookup_id,
                shard,
                clk: event.clk,
                pc: UNUSED_PC,
                next_pc: 0,
                opcode: Opcode::Sub,
                hi: 0,
                a: event.a,
                b: unsigned_mem_val,
                c: sign_value,
                op_a_0: false,
                sub_lookups: sub_ids,
            };
            executor.record.add_events.push(sub_event);
        }
    }
    proof {
        assert(executor.record.add_events@.take(rec0.add_events@.len() as int)
            =~= rec0.add_events@);
    }
}

/// Whether the signed value of `x` is below the signed value of `y`.
fn signed_lt(x: u32, y: u32) -> (r: bool)
    ensures
        r == (as_signed(x) < as_signed(y)),
{
    if (x >= 0x8000_0000) == (y >= 0x8000_0000) {
        x < y
    } else {
        x >= 0x8000_0000
    }
}

/// The opcode-specific branch predicate over the two operand values.
pub open spec fn spec_branch_taken(opcode: Opcode, a: u32, b: u32) -> bool {
    match opcode {
        Opcode::Beq => a == b,
        Opcode::Bne => a != b,
        Opcode::Bltz => as_signed(a) < as_signed(b),
        Opcode::Blez => as_signed(a) < as_signed(b) || a == b,
        Opcode::Bgtz => as_signed(a) > as_signed(b),
        Opcode::Bgez => a == b || as_signed(a) > as_signed(b),
        _ => false,
    }
}

/// The comparison event proving `a < b` (signed) for a branch.
pub open spec fn is_branch_lt_event(
    e: AluEvent,
    event: BranchEvent,
    cpu_event: CpuEvent,
    shard: u32,
    n0: u64,
) -> bool {
    &&& e.lookup_id == cpu_event.branch_lt_lookup_id
    &&& e.shard == shard
    &&& e.clk == cpu_event.clk
    &&& e.pc == UNUSED_PC
    &&& e.next_pc == 0
    &&& e.opcode == Opcode::Slt
    &&& e.hi == 0
    &&& e.a == (if as_signed(event.a) < as_signed(event.b) {
        1u32
    } else {
        0u32
    })
    &&& e.b == event.a
    &&& e.c == event.b
    &&& e.op_a_0 == false
    &&& e.sub_lookups@ == lookup_id_seq(n0)
}

/// The comparison event proving `a > b` (signed) for a branch.
pub open spec fn is_branch_gt_event(
    e: AluEvent,
    event: BranchEvent,
    cpu_event: CpuEvent,
    shard: u32,
    n0: u64,
) -> bool {
    &&& e.lookup_id == cpu_event.branch_gt_lookup_id
    &&& e.shard == shard
    &&& e.clk == cpu_event.clk
    &&& e.pc == UNUSED_PC
    &&& e.next_pc == 0
    &&& e.opcode == Opcode::Slt
    &&& e.hi == 0
    &&& e.a == (if as_signed(event.b) < as_signed(event.a) {
        1u32
    } else {
        0u32
    })
    &&& e.b == event.b
    &&& e.c == event.a
    &&& e.op_a_0 == false
    &&& e.sub_lookups@ == lookup_id_seq(n0)
}

/// The addition event proving that the post-branch program counter equals
/// the fall-through counter plus the branch offset, emitted only for a taken
/// branch.
pub open spec fn is_branch_add_event(
    e: AluEvent,
    event: BranchEvent,
    cpu_event: CpuEvent,
    shard: u32,
    n0: u64,
) -> bool {
    &&& e.lookup_id == cpu_event.branch_add_lookup_id
    &&& e.shard == shard
    &&& e.clk == cpu_event.clk
    &&& e.pc == UNUSED_PC
    &&& e.next_pc == 0
    &&& e.opcode == Opcode::Add
    &&& e.hi == 0
    &&& e.a == event.next_next_pc
    &&& e.b == event.next_pc
    &&& e.c == event.c
    &&& e.op_a_0 == false
    &&& e.sub_lookups@ == lookup_id_seq(n0)
}

/// Emits the dependencies for branch instructions.
///
/// Exactly two comparison events are emitted for every branch, whatever its
/// opcode and outcome: operand-a-less-than-b and operand-a-greater-than-b.
/// An addition event proving the post-branch program counter is emitted if
/// and only if the opcode-specific predicate holds of the operands.
pub fn emit_branch_dependencies(executor: &mut Executor, event: BranchEvent, index: usize)
    requires
        event.opcode.spec_is_branch(),
        index < old(executor).record.cpu_events@.len(),
        old(executor).record.next_lookup_id + 18 <= u64::MAX,
    ensures
        final(executor).current_shard == old(executor).current_shard,
        ({
            let rec0 = old(executor).record;
            let rec1 = final(executor).record;
            let shard = old(executor).current_shard;
            let cpu_event = rec0.cpu_events@[index as int];
            let taken = spec_branch_taken(event.opcode, event.a, event.b);
            let n0 = rec0.next_lookup_id;
            &&& rec1.lt_events@.len() == rec0.lt_events@.len() + 2
            &&& rec1.lt_events@.take(rec0.lt_events@.len() as int) == rec0.lt_events@
            &&& is_branch_lt_event(
                rec1.lt_events@[rec0.lt_events@.len() as int],
                event,
                cpu_event,
                shard,
                n0,
            )
            &&& is_branch_gt_event(rec1.lt_events@.last(), event, cpu_event, shard, (n0 + 6) as u64)
            &&& (taken ==> {
                &&& rec1.add_events@.len() == rec0.add_events@.len() + 1
                &&& rec1.add_events@.take(rec0.add_events@.len() as int) == rec0.add_events@
                &&& is_branch_add_event(
                    rec1.add_events@.last(),
                    event,
                    cpu_event,
                    shard,
                    (n0 + 12) as u64,
                )
            })
            &&& (!taken ==> rec1.add_events@ == rec0.add_events@)
            &&& rec1.next_lookup_id == n0 + 12 + (if taken {
                6int
            } else {
                0int
            })
            &&& rec1 == (ExecutionRecord {
                lt_events: rec1.lt_events,
                add_events: rec1.add_events,
                next_lookup_id: rec1.next_lookup_id,
                ..rec0
            })
        }),
{
    let cpu_event = executor.record.cpu_events[index];
    let shard = executor.shard();
    let ghost rec0 = executor.record;
    let a_eq_b = event.a == event.b;
    let a_lt_b = signed_lt(event.a, event.b);
    let a_gt_b = signed_lt(event.b, event.a);

    let lt_ids = executor.record.create_lookup_ids();
    let lt_comp_event = AluEvent {
        lookup_id: cpu_event.branch_lt_lookup_id,
        shard,
        clk: cpu_event.clk,
        pc: UNUSED_PC,
        next_pc: 0,
        opcode: Opcode::Slt,
        hi: 0,
        a: if a_lt_b {
            1
        } else {
            0
        },
        b: event.a,
        c: event.b,
        op_a_0: false,
        sub_lookups: lt_ids,
    };
    let gt_ids = executor.record.create_lookup_ids();
    let gt_comp_event = AluEvent {
        lookup_id: cpu_event.branch_gt_lookup_id,
        shard,
        clk: cpu_event.clk,
        pc: UNUSED_PC,
        next_pc: 0,
        opcode: Opcode::Slt,
        hi: 0,
        a: if a_gt_b {
            1
        } else {
            0
        },
        b: event.b,
        c: event.a,
        op_a_0: false,
        sub_lookups: gt_ids,
    };
    executor.record.lt_events.push(lt_comp_event);
    executor.record.lt_events.push(gt_comp_event);

    let branching = match event.opcode {
        Opcode::Beq => a_eq_b,
        Opcode::Bne => !a_eq_b,
        Opcode::Bltz => a_lt_b,
        Opcode::Blez => a_lt_b || a_eq_b,
        Opcode::Bgtz => a_gt_b,
        _ => a_eq_b || a_gt_b,
    };
    if branching {
        let add_ids = executor.record.create_lookup_ids();
        let add_event = AluEvent {
            lookup_id: cpu_event.branch_add_lookup_id,
            shard,
            clk: cpu_event.clk,
            pc: UNUSED_PC,
            next_pc: 0,
            opcode: Opcode::Add,
            hi: 0,
            a: event.next_next_pc,
            b: event.next_pc,
            c: event.c,
            op_a_0: false,
            sub_lookups: add_ids,
        };
        executor.record.add_events.push(add_event);
        proof {
            assert(executor.record.add_events@.take(rec0.add_events@.len() as int)
                =~= rec0.add_events@);
        }
    }
    proof {
        assert(executor.record.lt_events@.take(rec0.lt_events@.len() as int)
            =~= rec0.lt_events@);
    }
}

/// The addition event proving that the target of an indirect jump equals the
/// fall-through counter plus the offset register value.
pub open spec fn is_jump_add_event(
    e: AluEvent,
    event: JumpEvent,
    cpu_event: CpuEvent,
    shard: u32,
    n0: u64,
) -> bool {
    &&& e.lookup_id == cpu_event.jump_jumpd_lookup_id
    &&& e.shard == shard
    &&& e.clk == cpu_event.clk
    &&& e.pc == UNUSED_PC
    &&& e.next_pc == 0
    &&& e.opcode == Opcode::Add
    &&& e.hi == 0
    &&& e.a == (((event.next_pc + event.b) % 0x1_0000_0000) as u32)
    &&& e.b == event.next_pc
    &&& e.c == event.b
    &&& e.op_a_0 == false
    &&& e.sub_lookups@ == lookup_id_seq(n0)
}

/// Emits the dependencies for jump instructions.
///
/// A jump-and-link-style direct jump needs an addition event proving that
/// the target equals the fall-through counter plus the offset; register and
/// immediate jumps need no auxiliary event, since their target is already
/// carried by the operand.
pub fn emit_jump_dependencies(executor: &mut Executor, event: JumpEvent, index: usize)
    requires
        event.opcode.spec_is_jump(),
        index < old(executor).record.cpu_events@.len(),
        old(executor).record.next_lookup_id + 6 <= u64::MAX,
    ensures
        final(executor).current_shard == old(executor).current_shard,
        ({
            let rec0 = old(executor).record;
            let rec1 = final(executor).record;
            let shard = old(executor).current_shard;
            let cpu_event = rec0.cpu_events@[index as int];
            if event.opcode == Opcode::JumpDirect {
                &&& rec1.add_events@.len() == rec0.add_events@.len() + 1
                &&& rec1.add_events@.take(rec0.add_events@.len() as int) == rec0.add_events@
                &&& is_jump_add_event(
                    rec1.add_events@.last(),
                    event,
                    cpu_event,
                    shard,
                    rec0.next_lookup_id,
                )
                &&& rec1.next_lookup_id == rec0.next_lookup_id + 6
                &&& rec1 == (ExecutionRecord {
                    add_events: rec1.add_events,
                    next_lookup_id: rec1.next_lookup_id,
                    ..rec0
                })
            } else {
                rec1 == rec0
            }
        }),
{
    let cpu_event = executor.record.cpu_events[index];
    let shard = executor.shard();
    let ghost rec0 = executor.record;
    match event.opcode {
        Opcode::JumpDirect => {
            let target_pc = event.next_pc.wrapping_add(event.b);
            let add_ids = executor.record.create_lookup_ids();
            let add_event = AluEvent {
                lookup_id: cpu_event.jump_jumpd_lookup_id,
                shard,
                clk: cpu_event.clk,
                pc: UNUSED_PC,
                next_pc: 0,
                opcode: Opcode::Add,
                hi: 0,
                a: target_pc,
                b: event.next_pc,
                c: event.b,
                op_a_0: false,
                sub_lookups: add_ids,
            };
            executor.record.add_events.push(add_event);
            proof {
                assert(executor.record.add_events@.take(rec0.add_events@.len() as int)
                    =~= rec0.add_events@);
            }
        },
        _ => {},
    }
}

/// Law: for a nonzero divisor, the unsigned division decomposition is
/// sound. The multiplication event's claim reconstructs the dividend
/// exactly, and the comparison event's claim holds: the remainder is below
/// `max(1, divisor)`.
pub proof fn lemma_divrem_reconstruction_unsigned(b: u32, c: u32)
    requires
        c != 0,
    ensures
        spec_quotient(b, c, false) as int * c as int + spec_remainder(b, c, false) as int
            == b as int,
        spec_remainder(b, c, false) < spec_max1(c),
{
    lemma_fundamental_div_mod(b as int, c as int);
    lemma_mod_bound(b as int, c as int);
    vstd::arithmetic::mul::lemma_mul_is_commutative(c as int, b as int / c as int);
    vstd::arithmetic::div_mod::lemma_div_pos_is_pos(b as int, c as int);
    vstd::arithmetic::div_mod::lemma_div_is_ordered_by_denominator(b as int, 1, c as int);
    vstd::arithmetic::div_mod::lemma_div_basics(b as int);
}

/// Law: for a nonzero divisor, the signed division decomposition is sound.
/// The multiplication event's claim reconstructs the dividend modulo the
/// word size, and the comparison event's claim holds: the remainder's
/// magnitude is below `max(1, |divisor|)`.
pub proof fn lemma_divrem_reconstruction_signed(b: u32, c: u32)
    requires
        c != 0,
    ensures
        (as_signed(spec_quotient(b, c, true)) * as_signed(c) + as_signed(
            spec_remainder(b, c, true),
        )) % 0x1_0000_0000 == as_signed(b) % 0x1_0000_0000,
        spec_abs_u32(spec_remainder(b, c, true)) < spec_max1(spec_abs_u32(c)),
{
    let bs = as_signed(b);
    let cs = as_signed(c);
    let ab = abs_int(bs);
    let ac = abs_int(cs);
    let mq = ab / ac;
    let mr = ab % ac;
    lemma_fundamental_div_mod(ab, ac);
    lemma_mod_bound(ab, ac);
    vstd::arithmetic::div_mod::lemma_div_pos_is_pos(ab, ac);
    vstd::arithmetic::div_mod::lemma_div_is_ordered_by_denominator(ab, 1, ac);
    vstd::arithmetic::div_mod::lemma_div_basics(ab);
    vstd::arithmetic::mul::lemma_mul_is_commutative(ac, mq);
    lemma_mul_unary_negation(mq, cs);
    lemma_mul_unary_negation(-mq, cs);

    let q = spec_quotient(b, c, true);
    let r = spec_remainder(b, c, true);
    // The true quotient and remainder of truncated division.
    let tq = if (bs < 0) != (cs < 0) {
        -mq
    } else {
        mq
    };
    let tr = if bs < 0 {
        -mr
    } else {
        mr
    };
    assert(tq * cs + tr == bs) by {
        if bs < 0 && cs < 0 {
            assert(tq == mq && tr == -mr && cs == -ac && ab == -bs);
            assert(mq * cs == -(mq * ac)) by {
                lemma_mul_unary_negation(mq, ac);
            };
            assert(ac * mq + mr == ab);
            vstd::arithmetic::mul::lemma_mul_is_commutative(ac, mq);
        } else if bs < 0 {
            assert(tq == -mq && tr == -mr && cs == ac && ab == -bs);
            assert((-mq) * cs == -(mq * ac)) by {
                lemma_mul_unary_negation(mq, ac);
            };
            assert(ac * mq + mr == ab);
            vstd::arithmetic::mul::lemma_mul_is_commutative(ac, mq);
        } else if cs < 0 {
            assert(tq == -mq && tr == mr && cs == -ac && ab == bs);
            assert((-mq) * cs == mq * ac) by {
                lemma_mul_unary_negation(mq, ac);
                vstd::arithmetic::mul::lemma_mul_cancels_negatives(mq, ac);
            };
            assert(ac * mq + mr == ab);
            vstd::arithmetic::mul::lemma_mul_is_commutative(ac, mq);
        } else {
            assert(tq == mq && tr == mr && cs == ac && ab == bs);
            assert(ac * mq + mr == ab);
            vstd::arithmetic::mul::lemma_mul_is_commutative(ac, mq);
        }
    };

    // The remainder's encoding is exact, and its magnitude is the true one.
    assert(as_signed(r) == tr && spec_abs_u32(r) == mr);
    assert(spec_abs_u32(c) == ac);
    assert(spec_abs_u32(r) < spec_max1(spec_abs_u32(c)));

    // The quotient's encoding equals the true quotient except on the one
    // overflowing edge, where it differs by a full word and the identity
    // holds modulo the word size either way.
    if b == 0x8000_0000 && c == 0xFFFF_FFFF {
        assert(mq == 0x8000_0000) by {
            assert(ab == 0x8000_0000 && ac == 1);
        };
        assert(as_signed(q) * cs + as_signed(r) == 0x8000_0000int) by {
            assert(q == 0x8000_0000u32 && as_signed(q) == -0x8000_0000);
            assert(mr == 0);
        };
        assert(0x8000_0000int % 0x1_0000_0000 == (-0x8000_0000int) % 0x1_0000_0000);
    } else {
        assert(as_signed(q) == tq) by {
            if (bs < 0) != (cs < 0) {
                assert(mq < 0x8000_0000 || mq == 0x8000_0000);
            } else {
                assert(mq < 0x8000_0000) by {
                    if mq >= 0x8000_0000 {
                        assert(ab == 0x8000_0000 && ac == 1);
                        assert(bs == -0x8000_0000 && (cs == 1 || cs == -1));
                        assert(bs < 0 && cs > 0 ==> (bs < 0) != (cs < 0));
                        assert(cs == -1);
                        assert(c == 0xFFFF_FFFF && b == 0x8000_0000);
                    }
                };
            }
        };
        assert((as_signed(q) * cs + as_signed(r)) == bs);
    }
}

} // verus!
