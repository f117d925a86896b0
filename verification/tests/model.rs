//! Tests of the opcode arithmetic helpers, the event constructors, and the
//! network prover builder.
use zkvm_core::events::{
    AluEvent, BranchEvent, JumpEvent, LookupId, MemInstrEvent, MemoryReadRecord, MemoryRecordEnum,
    MemoryWriteRecord, MiscEvent,
};
use zkvm_core::opcode::{abs_u32, get_msb, get_quotient_and_remainder, Opcode};
use zkvm_core::program::{Instruction, Program};
use zkvm_core::sdk::NetworkProverBuilder;

#[test]
fn test_quotient_and_remainder_unsigned() {
    assert_eq!(get_quotient_and_remainder(17, 5, Opcode::Divu), (3, 2));
    assert_eq!(get_quotient_and_remainder(15, 5, Opcode::Divu), (3, 0));
    assert_eq!(get_quotient_and_remainder(3, 5, Opcode::Divu), (0, 3));
}

#[test]
fn test_quotient_and_remainder_signed() {
    // Truncated signed division: the remainder follows the dividend's sign.
    assert_eq!(
        get_quotient_and_remainder((-7i32) as u32, 3, Opcode::Div),
        ((-2i32) as u32, (-1i32) as u32)
    );
    assert_eq!(
        get_quotient_and_remainder(7, (-3i32) as u32, Opcode::Div),
        ((-2i32) as u32, 1)
    );
    assert_eq!(
        get_quotient_and_remainder((-7i32) as u32, (-3i32) as u32, Opcode::Div),
        (2, (-1i32) as u32)
    );
}

#[test]
fn test_quotient_and_remainder_zero_divisor() {
    // The fixed answer of the constraint system: all-ones quotient, dividend
    // remainder.
    assert_eq!(get_quotient_and_remainder(17, 0, Opcode::Divu), (0xFFFF_FFFF, 17));
    assert_eq!(get_quotient_and_remainder(17, 0, Opcode::Div), (0xFFFF_FFFF, 17));
}

#[test]
fn test_quotient_and_remainder_overflow_edge() {
    // The smallest signed value divided by minus one wraps.
    let min = i32::MIN as u32;
    assert_eq!(
        get_quotient_and_remainder(min, (-1i32) as u32, Opcode::Div),
        (min, 0)
    );
}

#[test]
fn test_msb_and_abs() {
    assert_eq!(get_msb(0), 0);
    assert_eq!(get_msb(0x7FFF_FFFF), 0);
    assert_eq!(get_msb(0x8000_0000), 1);
    assert_eq!(abs_u32(5), 5);
    assert_eq!(abs_u32((-5i32) as u32), 5);
    assert_eq!(abs_u32(i32::MIN as u32), 0x8000_0000);
}

#[test]
fn test_opcode_classification() {
    assert!(Opcode::Add.is_alu());
    assert!(Opcode::Clz.is_alu());
    assert!(!Opcode::Lw.is_alu());
    assert!(Opcode::Lb.is_memory());
    assert!(Opcode::Sw.is_memory_store());
    assert!(!Opcode::Lw.is_memory_store());
    assert!(Opcode::Beq.is_branch());
    assert!(!Opcode::Jump.is_branch());
    assert!(Opcode::JumpDirect.is_jump());
    assert!(Opcode::Syscall.is_syscall());
    assert!(Opcode::Div.is_use_lo_hi_alu());
    assert!(!Opcode::Add.is_use_lo_hi_alu());
}

#[test]
fn test_alu_event_new() {
    let e = AluEvent::new(8, Opcode::Add, 3, 1, 2, false);
    assert_eq!(e.pc, 8);
    assert_eq!(e.next_pc, 12);
    assert_eq!(e.opcode, Opcode::Add);
    assert_eq!(e.a, 3);
    assert_eq!(e.b, 1);
    assert_eq!(e.c, 2);
    assert_eq!(e.hi, 0);
    assert!(!e.op_a_0);

    let h = AluEvent::new_with_hi(8, Opcode::Mult, 3, 1, 2, true, 9);
    assert_eq!(h.hi, 9);
    assert!(h.op_a_0);
}

#[test]
fn test_other_event_constructors() {
    let read = MemoryRecordEnum::Read(MemoryReadRecord {
        value: 7,
        shard: 0,
        timestamp: 1,
        prev_shard: 0,
        prev_timestamp: 0,
    });
    let m = MemInstrEvent::new(1, 2, 3, 7, Opcode::Lw, 4, 5, 6, false, read, read);
    assert_eq!(m.shard, 1);
    assert_eq!(m.next_pc, 7);
    assert_eq!(m.mem_access.value(), 7);
    assert_eq!(m.mem_access.prev_value(), 7);

    let b = BranchEvent::new(1, 2, 3, Opcode::Bne, 4, 5, 6, true);
    assert_eq!(b.next_next_pc, 3);
    assert!(b.op_a_0);

    let j = JumpEvent::new(1, 2, 3, Opcode::Jumpi, 4, 5, 6, false);
    assert_eq!(j.opcode, Opcode::Jumpi);

    let w = MemoryWriteRecord {
        value: 8,
        shard: 0,
        timestamp: 2,
        prev_value: 3,
        prev_shard: 0,
        prev_timestamp: 1,
    };
    let misc = MiscEvent::new(1, 2, Opcode::Unimpl, 4, 5, 6, 9, w, w, false);
    assert_eq!(misc.hi, 9);
    assert_eq!(misc.a_record.prev_value, 3);
}

#[test]
fn test_program_fetch() {
    let program = Program::new(
        vec![
            Instruction::new(Opcode::Add, 29, 0, 1, false, true),
            Instruction::new(Opcode::Sub, 30, 29, 1, false, true),
        ],
        400,
        400,
    );
    assert_eq!(program.fetch(400).opcode, Opcode::Add);
    assert_eq!(program.fetch(404).opcode, Opcode::Sub);
    assert_eq!(program.fetch(404).op_a, 30);
}

#[test]
fn test_network_prover_builder() {
    let builder = NetworkProverBuilder::new()
        .private_key(String::from("key"))
        .rpc_url(String::from("http://localhost:3000"));
    let prover = builder.build_v2();
    assert_eq!(prover.private_key, "key");
    assert_eq!(prover.rpc_url, Some(String::from("http://localhost:3000")));
    assert!(!prover.skip_simulation);

    let skipping = NetworkProverBuilder::new()
        .private_key(String::from("key"))
        .skip_simulation()
        .build_v2();
    assert!(skipping.skip_simulation);
    assert_eq!(skipping.rpc_url, None);
}

#[test]
fn test_lookup_id_identity() {
    // Correlation identifiers are compared only for identity.
    assert_eq!(LookupId(4), LookupId(4));
    assert_ne!(LookupId(4), LookupId(5));
}
