//! Tests of the byte-lookup subsystem and of CPU trace generation:
//! multiplicity accounting, chunking independence, determinism, and the
//! padding of trace rows.
use zkvm_core::byte::{ByteLookupEvent, ByteLookupMap, ByteOpcode};
use zkvm_core::cpu::CpuChip;
use zkvm_core::events::{CpuEvent, LookupId};
use zkvm_core::opcode::Opcode;
use zkvm_core::program::{Instruction, Program};
use zkvm_core::record::{CoreShape, ExecutionRecord, PublicValues};
use zkvm_core::air::MipsAirId;

fn cpu_event(pc: u32, clk: u32, a: u32) -> CpuEvent {
    CpuEvent {
        clk,
        pc,
        next_pc: pc + 4,
        next_next_pc: pc + 8,
        a,
        b: 0,
        c: 0,
        hi: None,
        a_record: None,
        b_record: None,
        c_record: None,
        hi_record: None,
        alu_lookup_id: LookupId(0),
        syscall_lookup_id: LookupId(0),
        memory_add_lookup_id: LookupId(0),
        memory_sub_lookup_id: LookupId(0),
        branch_lt_lookup_id: LookupId(0),
        branch_gt_lookup_id: LookupId(0),
        branch_add_lookup_id: LookupId(0),
        jump_jumpd_lookup_id: LookupId(0),
    }
}

fn two_event_record() -> ExecutionRecord {
    let program = Program::new(
        vec![
            Instruction::new(Opcode::Add, 29, 0, 1, false, true),
            Instruction::new(Opcode::Sub, 30, 29, 1, false, true),
        ],
        0,
        0,
    );
    let mut record = ExecutionRecord::new(program);
    record.public_values = PublicValues { execution_shard: 1 };
    record.cpu_events.push(cpu_event(0, 7, 0));
    record.cpu_events.push(cpu_event(4, 8, 0));
    record
}

#[test]
fn test_byte_lookup_multiplicities() {
    let mut map = ByteLookupMap::new();
    let e1 = ByteLookupEvent::new(0, ByteOpcode::U8Range, 0, 0, 1, 2);
    let e2 = ByteLookupEvent::new(0, ByteOpcode::U16Range, 500, 0, 0, 0);
    map.add_byte_lookup_event(e1);
    map.add_byte_lookup_event(e1);
    map.add_byte_lookup_event(e2);
    assert_eq!(map.get_multiplicity(e1), 2);
    assert_eq!(map.get_multiplicity(e2), 1);
    assert_eq!(map.total(), 3);
    let absent = ByteLookupEvent::new(9, ByteOpcode::Xor, 0, 0, 0, 0);
    assert_eq!(map.get_multiplicity(absent), 0);
}

#[test]
fn test_byte_lookup_merge_sums() {
    // Merging per-chunk maps equals one sequential pass over all events.
    let e1 = ByteLookupEvent::new(0, ByteOpcode::U8Range, 0, 0, 1, 2);
    let e2 = ByteLookupEvent::new(0, ByteOpcode::U16Range, 500, 0, 0, 0);
    let e3 = ByteLookupEvent::new(1, ByteOpcode::Xor, 3, 0, 1, 2);
    let chunk1 = vec![e1, e2, e1];
    let chunk2 = vec![e2, e1, e3];

    let mut m1 = ByteLookupMap::new();
    m1.add_byte_lookup_events(&chunk1);
    let mut m2 = ByteLookupMap::new();
    m2.add_byte_lookup_events(&chunk2);
    m1.merge(&m2);

    let mut sequential = ByteLookupMap::new();
    let mut all = chunk1.clone();
    all.extend(chunk2.clone());
    sequential.add_byte_lookup_events(&all);

    for e in [e1, e2, e3] {
        assert_eq!(m1.get_multiplicity(e), sequential.get_multiplicity(e));
    }
    assert_eq!(m1.total(), sequential.total());
    assert_eq!(m1.get_multiplicity(e1), 3);
    assert_eq!(m1.get_multiplicity(e2), 2);
    assert_eq!(m1.get_multiplicity(e3), 1);
}

#[test]
fn test_dependency_pass_deterministic() {
    // Two independent passes over the same shard agree everywhere.
    let chip = CpuChip::new();
    let input = two_event_record();
    let mut out1 = ExecutionRecord::new(input.program.clone());
    let mut out2 = ExecutionRecord::new(input.program.clone());
    chip.generate_dependencies(&input, &mut out1);
    chip.generate_dependencies(&input, &mut out2);

    let keys = [
        ByteLookupEvent::new(1, ByteOpcode::U16Range, 1, 0, 0, 0),
        ByteLookupEvent::new(1, ByteOpcode::U16Range, 7, 0, 0, 0),
        ByteLookupEvent::new(1, ByteOpcode::U16Range, 8, 0, 0, 0),
        ByteLookupEvent::new(1, ByteOpcode::U8Range, 0, 0, 0, 0),
        ByteLookupEvent::new(0, ByteOpcode::Xor, 0, 0, 0, 0),
    ];
    for k in keys {
        assert_eq!(
            out1.byte_lookups.get_multiplicity(k),
            out2.byte_lookups.get_multiplicity(k)
        );
    }
    assert_eq!(out1.byte_lookups.total(), out2.byte_lookups.total());
}

#[test]
fn test_chunked_equals_sequential() {
    // Every chunk size leaves the same multiplicities.
    let chip = CpuChip::new();
    let input = two_event_record();
    let mut by_one = ExecutionRecord::new(input.program.clone());
    let mut by_two = ExecutionRecord::new(input.program.clone());
    let mut by_many = ExecutionRecord::new(input.program.clone());
    chip.generate_dependencies_chunked(&input, &mut by_one, 1);
    chip.generate_dependencies_chunked(&input, &mut by_two, 2);
    chip.generate_dependencies_chunked(&input, &mut by_many, 64);

    // Each event contributes: one shard range check, one clock range check,
    // one clock-byte check, and two operand byte checks.
    let shard_check = ByteLookupEvent::new(1, ByteOpcode::U16Range, 1, 0, 0, 0);
    assert_eq!(by_one.byte_lookups.get_multiplicity(shard_check), 2);
    assert_eq!(by_two.byte_lookups.get_multiplicity(shard_check), 2);
    assert_eq!(by_many.byte_lookups.get_multiplicity(shard_check), 2);

    let zero_u8 = ByteLookupEvent::new(1, ByteOpcode::U8Range, 0, 0, 0, 0);
    // Per event: the clock byte check and both operand byte checks coincide
    // on the all-zero request.
    assert_eq!(by_one.byte_lookups.get_multiplicity(zero_u8), 6);
    assert_eq!(by_two.byte_lookups.get_multiplicity(zero_u8), 6);
    assert_eq!(by_many.byte_lookups.get_multiplicity(zero_u8), 6);

    assert_eq!(by_one.byte_lookups.total(), 10);
    assert_eq!(by_two.byte_lookups.total(), 10);
    assert_eq!(by_many.byte_lookups.total(), 10);
}

#[test]
fn test_empty_shard_trace_padding() {
    // A shard with no events still has the minimum height, and every row is
    // zero except the immediate-operand selectors.
    let chip = CpuChip::new();
    let input = ExecutionRecord::new(Program::new(Vec::new(), 0, 0));
    let mut out = ExecutionRecord::new(Program::new(Vec::new(), 0, 0));
    let rows = chip.generate_trace(&input, &mut out);
    assert_eq!(rows.len(), 16);
    for row in &rows {
        assert_eq!(row.is_real, 0);
        assert_eq!(row.shard, 0);
        assert_eq!(row.clk, 0);
        assert_eq!(row.pc, 0);
        assert_eq!(row.nonce, 0);
        assert_eq!(row.instruction.opcode, 0);
        assert_eq!(row.selectors.imm_b, 1);
        assert_eq!(row.selectors.imm_c, 1);
        assert_eq!(row.selectors.is_alu, 0);
        assert_eq!(row.selectors.is_syscall, 0);
        assert_eq!(row.selectors.has_hi, 0);
        assert_eq!(row.op_a_access.value.b0, 0);
        assert_eq!(row.opcode_specific_columns.syscall.is_halt, 0);
        assert_eq!(row.is_sequential_instr, 0);
    }
}

#[test]
fn test_trace_real_rows() {
    let chip = CpuChip::new();
    let input = two_event_record();
    let mut out = ExecutionRecord::new(input.program.clone());
    let rows = chip.generate_trace(&input, &mut out);
    assert_eq!(rows.len(), 16);

    let row0 = &rows[0];
    assert_eq!(row0.is_real, 1);
    assert_eq!(row0.shard, 1);
    assert_eq!(row0.clk, 7);
    assert_eq!(row0.pc, 0);
    assert_eq!(row0.next_pc, 4);
    assert_eq!(row0.next_next_pc, 8);
    assert_eq!(row0.clk_16bit_limb, 7);
    assert_eq!(row0.clk_8bit_limb, 0);
    assert_eq!(row0.selectors.is_alu, 1);
    assert_eq!(row0.selectors.imm_b, 0);
    assert_eq!(row0.selectors.imm_c, 1);
    assert_eq!(row0.instruction.op_a, 29);
    assert_eq!(row0.is_sequential_instr, 1);

    let row1 = &rows[1];
    assert_eq!(row1.is_real, 1);
    assert_eq!(row1.clk, 8);
    assert_eq!(row1.pc, 4);

    for row in rows.iter().skip(2) {
        assert_eq!(row.is_real, 0);
        assert_eq!(row.selectors.imm_b, 1);
    }
}

#[test]
fn test_trace_height_follows_shape() {
    let chip = CpuChip::new();
    let mut input = two_event_record();
    input.shape = Some(CoreShape { inner: vec![(MipsAirId::Cpu, 5)] });
    let mut out = ExecutionRecord::new(input.program.clone());
    let rows = chip.generate_trace(&input, &mut out);
    assert_eq!(rows.len(), 32);
}

#[test]
fn test_trace_height_power_of_two() {
    let chip = CpuChip::new();
    let program = Program::new(
        vec![Instruction::new(Opcode::Add, 29, 0, 1, false, true)],
        0,
        0,
    );
    let mut input = ExecutionRecord::new(program.clone());
    for i in 0..20u32 {
        input.cpu_events.push(cpu_event(0, i, 0));
    }
    let mut out = ExecutionRecord::new(program);
    let rows = chip.generate_trace(&input, &mut out);
    assert_eq!(rows.len(), 32);
}

#[test]
fn test_chip_included() {
    let chip = CpuChip::new();
    let empty = ExecutionRecord::new(Program::new(Vec::new(), 0, 0));
    assert!(!chip.included(&empty));
    let with_events = two_event_record();
    assert!(chip.included(&with_events));
    let mut shaped = ExecutionRecord::new(Program::new(Vec::new(), 0, 0));
    shaped.shape = Some(CoreShape { inner: vec![(MipsAirId::Cpu, 4)] });
    assert!(chip.included(&shaped));
    let mut shaped_out = ExecutionRecord::new(Program::new(Vec::new(), 0, 0));
    shaped_out.shape = Some(CoreShape { inner: vec![(MipsAirId::Mul, 4)] });
    assert!(!chip.included(&shaped_out));
}

#[test]
fn test_chip_name() {
    let chip = CpuChip::new();
    assert_eq!(chip.name(), "CPU");
}

#[test]
fn test_rows_to_matrix_shape() {
    let chip = CpuChip::new();
    let input = two_event_record();
    let mut out = ExecutionRecord::new(input.program.clone());
    let rows = chip.generate_trace(&input, &mut out);
    let matrix = chip.rows_to_matrix(&rows);
    assert_eq!(matrix.width, 81);
    assert_eq!(matrix.values.len(), 16 * 81);
    // The first cell of row 0 is the shard; the row's is-real cell is set.
    assert_eq!(matrix.values[0], 1);
    assert_eq!(matrix.values[75], 1);
}

#[test]
fn test_padding_row_cells_zero_except_selectors() {
    let chip = CpuChip::new();
    let input = ExecutionRecord::new(Program::new(Vec::new(), 0, 0));
    let mut out = ExecutionRecord::new(Program::new(Vec::new(), 0, 0));
    let rows = chip.generate_trace(&input, &mut out);
    let matrix = chip.rows_to_matrix(&rows);
    for (i, &cell) in matrix.values.iter().enumerate() {
        let col = i % 81;
        if col == 20 || col == 21 {
            assert_eq!(cell, 1);
        } else {
            assert_eq!(cell, 0);
        }
    }
}
