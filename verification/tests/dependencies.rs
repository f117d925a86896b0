//! Tests of the dependency emitter: division, count-leading-bits, memory,
//! branch and jump decompositions.
use zkvm_core::dependencies::{
    emit_branch_dependencies, emit_cloclz_dependencies, emit_divrem_dependencies,
    emit_jump_dependencies, emit_memory_dependencies,
};
use zkvm_core::events::{
    AluEvent, BranchEvent, CpuEvent, JumpEvent, LookupId, MemInstrEvent, MemoryReadRecord,
    MemoryRecord, MemoryRecordEnum,
};
use zkvm_core::executor::Executor;
use zkvm_core::opcode::Opcode;
use zkvm_core::program::Program;
use zkvm_core::record::ExecutionRecord;

fn fresh_executor(shard: u32) -> Executor {
    let record = ExecutionRecord::new(Program::new(Vec::new(), 0, 0));
    Executor::new(record, shard)
}

fn divrem_event(opcode: Opcode, b: u32, c: u32, clk: u32) -> AluEvent {
    AluEvent {
        lookup_id: LookupId(9),
        shard: 0,
        clk,
        pc: 0,
        next_pc: 4,
        opcode,
        hi: 0,
        a: 0,
        b,
        c,
        op_a_0: false,
        sub_lookups: [
            LookupId(100),
            LookupId(101),
            LookupId(102),
            LookupId(103),
            LookupId(104),
            LookupId(105),
        ],
    }
}

fn cpu_event() -> CpuEvent {
    CpuEvent {
        clk: 10,
        pc: 100,
        next_pc: 104,
        next_next_pc: 108,
        a: 0,
        b: 0,
        c: 0,
        hi: None,
        a_record: None,
        b_record: None,
        c_record: None,
        hi_record: None,
        alu_lookup_id: LookupId(1),
        syscall_lookup_id: LookupId(2),
        memory_add_lookup_id: LookupId(3),
        memory_sub_lookup_id: LookupId(4),
        branch_lt_lookup_id: LookupId(5),
        branch_gt_lookup_id: LookupId(6),
        branch_add_lookup_id: LookupId(7),
        jump_jumpd_lookup_id: LookupId(8),
    }
}

#[test]
fn test_divrem_unsigned_17_5() {
    let mut ex = fresh_executor(2);
    emit_divrem_dependencies(&mut ex, divrem_event(Opcode::Divu, 17, 5, 77));

    // Quotient 3, remainder 2; no absolute-value events on the unsigned path.
    assert_eq!(ex.record.add_events.len(), 0);
    assert_eq!(ex.record.mul_events.len(), 1);
    let mul = ex.record.mul_events[0];
    assert_eq!(mul.opcode, Opcode::Multu);
    assert_eq!(mul.b, 3);
    assert_eq!(mul.c, 5);
    assert_eq!(mul.a, 15);
    assert_eq!(mul.hi, 0);
    assert_eq!(mul.clk, 77);
    assert_eq!(mul.shard, 2);
    assert_eq!(mul.lookup_id, LookupId(100));

    // The comparison event asserts 2 < max(1, 5).
    assert_eq!(ex.record.lt_events.len(), 1);
    let lt = ex.record.lt_events[0];
    assert_eq!(lt.opcode, Opcode::Sltu);
    assert_eq!(lt.a, 1);
    assert_eq!(lt.b, 2);
    assert_eq!(lt.c, 5);
    assert_eq!(lt.lookup_id, LookupId(102));
}

#[test]
fn test_divrem_zero_divisor_no_comparison() {
    let mut ex = fresh_executor(0);
    emit_divrem_dependencies(&mut ex, divrem_event(Opcode::Divu, 17, 0, 1));
    assert_eq!(ex.record.lt_events.len(), 0);
    assert_eq!(ex.record.mul_events.len(), 1);
    // Division by zero yields the fixed all-ones quotient.
    assert_eq!(ex.record.mul_events[0].b, 0xFFFF_FFFF);

    let mut ex2 = fresh_executor(0);
    emit_divrem_dependencies(&mut ex2, divrem_event(Opcode::Div, 17, 0, 1));
    assert_eq!(ex2.record.lt_events.len(), 0);
}

#[test]
fn test_divrem_signed_negative_remainder() {
    // -7 / 3 truncates to -2 with remainder -1.
    let mut ex = fresh_executor(0);
    emit_divrem_dependencies(&mut ex, divrem_event(Opcode::Div, (-7i32) as u32, 3, 5));

    // One absolute-value event proves remainder = -|remainder|.
    assert_eq!(ex.record.add_events.len(), 1);
    let abs = ex.record.add_events[0];
    assert_eq!(abs.opcode, Opcode::Add);
    assert_eq!(abs.a, 0);
    assert_eq!(abs.b, 0xFFFF_FFFF);
    assert_eq!(abs.c, 1);
    assert_eq!(abs.lookup_id, LookupId(104));

    let mul = ex.record.mul_events[0];
    assert_eq!(mul.opcode, Opcode::Mult);
    assert_eq!(mul.b, (-2i32) as u32);
    assert_eq!(mul.c, 3);
    // (-2) * 3 = -6, split into 64-bit two's-complement words.
    assert_eq!(mul.a, 0xFFFF_FFFA);
    assert_eq!(mul.hi, 0xFFFF_FFFF);

    let lt = ex.record.lt_events[0];
    assert_eq!(lt.b, 1);
    assert_eq!(lt.c, 3);
    assert_eq!(lt.lookup_id, LookupId(101));
}

#[test]
fn test_divrem_signed_negative_divisor() {
    // 7 / -3 truncates to -2 with remainder 1.
    let mut ex = fresh_executor(0);
    emit_divrem_dependencies(&mut ex, divrem_event(Opcode::Div, 7, (-3i32) as u32, 5));
    assert_eq!(ex.record.add_events.len(), 1);
    let abs = ex.record.add_events[0];
    assert_eq!(abs.b, (-3i32) as u32);
    assert_eq!(abs.c, 3);
    assert_eq!(abs.lookup_id, LookupId(103));
    let lt = ex.record.lt_events[0];
    assert_eq!(lt.b, 1);
    assert_eq!(lt.c, 3);
}

#[test]
fn test_divrem_signed_overflow_edge() {
    // The smallest signed value divided by minus one: the quotient wraps.
    let mut ex = fresh_executor(0);
    emit_divrem_dependencies(
        &mut ex,
        divrem_event(Opcode::Div, 0x8000_0000, 0xFFFF_FFFF, 9),
    );

    // The negative divisor needs its absolute-value event; the remainder is
    // zero and needs none.
    assert_eq!(ex.record.add_events.len(), 1);
    assert_eq!(ex.record.add_events[0].b, 0xFFFF_FFFF);
    assert_eq!(ex.record.add_events[0].c, 1);

    let mul = ex.record.mul_events[0];
    assert_eq!(mul.b, 0x8000_0000);
    assert_eq!(mul.c, 0xFFFF_FFFF);
    // (-2^31) * (-1) = 2^31, split into low and high words.
    assert_eq!(mul.a, 0x8000_0000);
    assert_eq!(mul.hi, 0);

    let lt = ex.record.lt_events[0];
    assert_eq!(lt.b, 0);
    assert_eq!(lt.c, 1);
}

fn run_branch(opcode: Opcode, a: u32, b: u32) -> (usize, usize) {
    let mut ex = fresh_executor(0);
    ex.record.cpu_events.push(cpu_event());
    let event = BranchEvent::new(100, 104, 120, opcode, a, b, 16, false);
    emit_branch_dependencies(&mut ex, event, 0);
    (ex.record.lt_events.len(), ex.record.add_events.len())
}

#[test]
fn test_branch_beq() {
    assert_eq!(run_branch(Opcode::Beq, 5, 5), (2, 1));
    assert_eq!(run_branch(Opcode::Beq, 5, 6), (2, 0));
}

#[test]
fn test_branch_bne() {
    assert_eq!(run_branch(Opcode::Bne, 5, 6), (2, 1));
    assert_eq!(run_branch(Opcode::Bne, 5, 5), (2, 0));
}

#[test]
fn test_branch_bltz() {
    assert_eq!(run_branch(Opcode::Bltz, (-1i32) as u32, 0), (2, 1));
    assert_eq!(run_branch(Opcode::Bltz, 1, 0), (2, 0));
}

#[test]
fn test_branch_blez() {
    assert_eq!(run_branch(Opcode::Blez, 0, 0), (2, 1));
    assert_eq!(run_branch(Opcode::Blez, (-4i32) as u32, 0), (2, 1));
    assert_eq!(run_branch(Opcode::Blez, 3, 0), (2, 0));
}

#[test]
fn test_branch_bgtz() {
    assert_eq!(run_branch(Opcode::Bgtz, 3, 0), (2, 1));
    assert_eq!(run_branch(Opcode::Bgtz, (-3i32) as u32, 0), (2, 0));
    assert_eq!(run_branch(Opcode::Bgtz, 0, 0), (2, 0));
}

#[test]
fn test_branch_bgez() {
    assert_eq!(run_branch(Opcode::Bgez, 0, 0), (2, 1));
    assert_eq!(run_branch(Opcode::Bgez, 9, 0), (2, 1));
    assert_eq!(run_branch(Opcode::Bgez, (-9i32) as u32, 0), (2, 0));
}

#[test]
fn test_branch_comparison_contents() {
    let mut ex = fresh_executor(3);
    ex.record.cpu_events.push(cpu_event());
    let event = BranchEvent::new(100, 104, 120, Opcode::Beq, 7, 9, 16, false);
    emit_branch_dependencies(&mut ex, event, 0);

    let lt = ex.record.lt_events[0];
    assert_eq!(lt.opcode, Opcode::Slt);
    assert_eq!(lt.a, 1); // 7 < 9 signed
    assert_eq!(lt.b, 7);
    assert_eq!(lt.c, 9);
    assert_eq!(lt.lookup_id, LookupId(5));
    assert_eq!(lt.clk, 10); // the primary event's clock

    let gt = ex.record.lt_events[1];
    assert_eq!(gt.a, 0); // 7 > 9 is false
    assert_eq!(gt.b, 9);
    assert_eq!(gt.c, 7);
    assert_eq!(gt.lookup_id, LookupId(6));
}

#[test]
fn test_branch_taken_add_event() {
    let mut ex = fresh_executor(0);
    ex.record.cpu_events.push(cpu_event());
    let event = BranchEvent::new(100, 104, 120, Opcode::Beq, 5, 5, 16, false);
    emit_branch_dependencies(&mut ex, event, 0);
    let add = ex.record.add_events[0];
    assert_eq!(add.opcode, Opcode::Add);
    assert_eq!(add.a, 120); // next_next_pc
    assert_eq!(add.b, 104); // next_pc
    assert_eq!(add.c, 16); // branch offset
    assert_eq!(add.lookup_id, LookupId(7));
}

#[test]
fn test_cloclz_zero_operand() {
    // A count-leading-zeros of zero emits no auxiliary event.
    let mut ex = fresh_executor(0);
    let mut event = divrem_event(Opcode::Clz, 0, 0, 3);
    event.a = 32;
    emit_cloclz_dependencies(&mut ex, event);
    assert_eq!(ex.record.shift_right_events.len(), 0);

    // Count-leading-ones of an all-ones word inspects the complement, zero.
    let mut ex2 = fresh_executor(0);
    let mut event2 = divrem_event(Opcode::Clo, 0xFFFF_FFFF, 0, 3);
    event2.a = 32;
    emit_cloclz_dependencies(&mut ex2, event2);
    assert_eq!(ex2.record.shift_right_events.len(), 0);
}

#[test]
fn test_cloclz_one() {
    // clz(1) = 31, so the shift event shifts right by 31 - 31 = 0.
    let mut ex = fresh_executor(0);
    let mut event = divrem_event(Opcode::Clz, 1, 0, 3);
    event.a = 31;
    emit_cloclz_dependencies(&mut ex, event);
    assert_eq!(ex.record.shift_right_events.len(), 1);
    let srl = ex.record.shift_right_events[0];
    assert_eq!(srl.opcode, Opcode::Srl);
    assert_eq!(srl.b, 1);
    assert_eq!(srl.c, 0);
    assert_eq!(srl.a, 1);
    assert_eq!(srl.lookup_id, LookupId(100));
}

#[test]
fn test_cloclz_high_bit_clear() {
    // clz(0x0800_0000) = 4: shift right by 27 recovers the top bit.
    let mut ex = fresh_executor(0);
    let mut event = divrem_event(Opcode::Clz, 0x0800_0000, 0, 3);
    event.a = 4;
    emit_cloclz_dependencies(&mut ex, event);
    let srl = ex.record.shift_right_events[0];
    assert_eq!(srl.c, 27);
    assert_eq!(srl.a, 1);
}

fn read_record(value: u32) -> MemoryRecordEnum {
    MemoryRecordEnum::Read(MemoryReadRecord {
        value,
        shard: 0,
        timestamp: 0,
        prev_shard: 0,
        prev_timestamp: 0,
    })
}

#[test]
fn test_memory_word_load() {
    let mut ex = fresh_executor(0);
    ex.record.cpu_events.push(cpu_event());
    let event = MemInstrEvent::new(
        0,
        10,
        100,
        104,
        Opcode::Lw,
        0,
        100,
        8,
        false,
        read_record(42),
        read_record(0),
    );
    let record = MemoryRecord { value: 42, shard: 0, timestamp: 0 };
    emit_memory_dependencies(&mut ex, event, record, 0);

    // Only the address check: addr = 100 + 8.
    assert_eq!(ex.record.add_events.len(), 1);
    let add = ex.record.add_events[0];
    assert_eq!(add.a, 108);
    assert_eq!(add.b, 100);
    assert_eq!(add.c, 8);
    assert_eq!(add.lookup_id, LookupId(3));
}

#[test]
fn test_memory_signed_byte_load() {
    // A signed byte load of 0x80 needs the sign-extension subtraction.
    let mut ex = fresh_executor(0);
    ex.record.cpu_events.push(cpu_event());
    let event = MemInstrEvent::new(
        0,
        10,
        100,
        104,
        Opcode::Lb,
        (-128i32) as u32,
        0,
        0,
        false,
        read_record(0x80),
        read_record(0),
    );
    let record = MemoryRecord { value: 0x80, shard: 0, timestamp: 0 };
    emit_memory_dependencies(&mut ex, event, record, 0);

    assert_eq!(ex.record.add_events.len(), 2);
    let sub = ex.record.add_events[1];
    assert_eq!(sub.opcode, Opcode::Sub);
    assert_eq!(sub.a, (-128i32) as u32);
    assert_eq!(sub.b, 0x80);
    assert_eq!(sub.c, 256);
    assert_eq!(sub.lookup_id, LookupId(4));
}

#[test]
fn test_memory_signed_half_load() {
    // A signed half-word load from the upper half of the word.
    let mut ex = fresh_executor(0);
    ex.record.cpu_events.push(cpu_event());
    let event = MemInstrEvent::new(
        0,
        10,
        100,
        104,
        Opcode::Lh,
        0xFFFF_8000,
        0,
        2,
        false,
        read_record(0x8000_0000),
        read_record(0),
    );
    let record = MemoryRecord { value: 0x8000_0000, shard: 0, timestamp: 0 };
    emit_memory_dependencies(&mut ex, event, record, 0);

    let sub = ex.record.add_events[1];
    assert_eq!(sub.b, 0x8000);
    assert_eq!(sub.c, 65536);
}

#[test]
fn test_memory_positive_byte_no_sub() {
    let mut ex = fresh_executor(0);
    ex.record.cpu_events.push(cpu_event());
    let event = MemInstrEvent::new(
        0,
        10,
        100,
        104,
        Opcode::Lb,
        0x7F,
        0,
        0,
        false,
        read_record(0x7F),
        read_record(0),
    );
    let record = MemoryRecord { value: 0x7F, shard: 0, timestamp: 0 };
    emit_memory_dependencies(&mut ex, event, record, 0);
    assert_eq!(ex.record.add_events.len(), 1);
}

#[test]
fn test_jump_direct() {
    let mut ex = fresh_executor(0);
    ex.record.cpu_events.push(cpu_event());
    let event = JumpEvent::new(100, 104, 304, Opcode::JumpDirect, 0, 200, 0, false);
    emit_jump_dependencies(&mut ex, event, 0);
    assert_eq!(ex.record.add_events.len(), 1);
    let add = ex.record.add_events[0];
    assert_eq!(add.a, 304); // 104 + 200
    assert_eq!(add.b, 104);
    assert_eq!(add.c, 200);
    assert_eq!(add.lookup_id, LookupId(8));
}

#[test]
fn test_jump_register_no_event() {
    let mut ex = fresh_executor(0);
    ex.record.cpu_events.push(cpu_event());
    let event = JumpEvent::new(100, 104, 304, Opcode::Jump, 0, 200, 0, false);
    emit_jump_dependencies(&mut ex, event, 0);
    assert_eq!(ex.record.add_events.len(), 0);
    let event2 = JumpEvent::new(100, 104, 304, Opcode::Jumpi, 0, 200, 0, false);
    emit_jump_dependencies(&mut ex, event2, 0);
    assert_eq!(ex.record.add_events.len(), 0);
}
