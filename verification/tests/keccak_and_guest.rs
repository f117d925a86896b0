//! Tests of the Keccak-256 xor precompile chip and the guest-side hashing
//! helpers.
use zkvm_core::byte::{ByteLookupEvent, ByteOpcode};
use zkvm_core::events::{Keccak256XorEvent, LookupId, MemoryReadRecord, MemoryWriteRecord};
use zkvm_core::guest::{
    absorb_chunk, bytes_to_be_words, bytes_to_field_elements, keccak256_pad, poseidon2_output,
    poseidon2_pad,
};
use zkvm_core::keccak_xor::{xor_rate, Keccak256XorChip, Keccak256XorSyscall};
use zkvm_core::program::Program;
use zkvm_core::record::ExecutionRecord;

fn demo_event() -> Keccak256XorEvent {
    let original_rate: Vec<u32> = (0..34).map(|i| i as u32 + 1).collect();
    let block: Vec<u32> = vec![0xFF; 34];
    let xored_rate = xor_rate(&original_rate, &block);
    let rate_read_records: Vec<MemoryReadRecord> = original_rate
        .iter()
        .map(|&value| MemoryReadRecord {
            value,
            shard: 2,
            timestamp: 10,
            prev_shard: 1,
            prev_timestamp: 5,
        })
        .collect();
    let block_read_records: Vec<MemoryReadRecord> = block
        .iter()
        .map(|&value| MemoryReadRecord {
            value,
            shard: 2,
            timestamp: 10,
            prev_shard: 1,
            prev_timestamp: 6,
        })
        .collect();
    let rate_write_records: Vec<MemoryWriteRecord> = xored_rate
        .iter()
        .zip(original_rate.iter())
        .map(|(&value, &prev_value)| MemoryWriteRecord {
            value,
            shard: 2,
            timestamp: 11,
            prev_value,
            prev_shard: 2,
            prev_timestamp: 10,
        })
        .collect();
    Keccak256XorEvent {
        lookup_id: LookupId(1),
        shard: 2,
        clk: 10,
        original_rate,
        block,
        xored_rate,
        rate_read_records,
        block_read_records,
        rate_write_records,
        rate_addr: 100,
        block_addr: 500,
    }
}

#[test]
fn test_xor_rate() {
    let a = vec![0x0F0F_0F0F, 0xFFFF_0000, 0];
    let b = vec![0x00FF_00FF, 0x0000_FFFF, 7];
    let x = xor_rate(&a, &b);
    assert_eq!(x, vec![0x0FF0_0FF0, 0xFFFF_FFFF, 7]);
}

#[test]
fn test_keccak_chip_trace() {
    let chip = Keccak256XorChip::new();
    let mut input = ExecutionRecord::new(Program::new(Vec::new(), 0, 0));
    input.keccak256_xor_events.push(demo_event());
    let mut out = ExecutionRecord::new(Program::new(Vec::new(), 0, 0));
    let rows = chip.generate_trace(&input, &mut out);

    // One event pads up to the minimum height of eight.
    assert_eq!(rows.len(), 8);
    let row0 = &rows[0];
    assert_eq!(row0.is_real, 1);
    assert_eq!(row0.shard, 2);
    assert_eq!(row0.clk, 10);
    assert_eq!(row0.rate_addr, 100);
    assert_eq!(row0.block_addr, 500);
    // Word 0: 1 ^ 0xFF = 0xFE.
    assert_eq!(row0.xored_rate[0].value.b0, 0xFE);
    assert_eq!(row0.xored_rate[0].value.b1, 0);
    assert_eq!(row0.original_rate_mem[0].value.b0, 1);
    assert_eq!(row0.block_mem[0].value.b0, 0xFF);
    assert_eq!(row0.xored_rate_mem[0].value.b0, 0xFE);
    assert_eq!(row0.xored_rate_mem[0].prev_clk, 10);

    for row in rows.iter().skip(1) {
        assert_eq!(row.is_real, 0);
        assert_eq!(row.shard, 0);
        assert_eq!(row.xored_rate.len(), 34);
        assert_eq!(row.xored_rate[0].value.b0, 0);
    }
}

#[test]
fn test_keccak_chip_dependencies() {
    let chip = Keccak256XorChip::new();
    let mut input = ExecutionRecord::new(Program::new(Vec::new(), 0, 0));
    input.keccak256_xor_events.push(demo_event());
    let mut out = ExecutionRecord::new(Program::new(Vec::new(), 0, 0));
    chip.generate_dependencies(&input, &mut out);

    // Each event contributes 34 * (4 + 2 + 2 + 2) requests.
    assert_eq!(out.byte_lookups.total(), 340);
    // The xor check of the lowest byte of word 0: 1 ^ 0xFF = 0xFE.
    let xor_key = ByteLookupEvent::new(2, ByteOpcode::Xor, 0xFE, 0, 1, 0xFF);
    assert_eq!(out.byte_lookups.get_multiplicity(xor_key), 1);
}

#[test]
fn test_keccak_chip_included() {
    let chip = Keccak256XorChip::new();
    let empty = ExecutionRecord::new(Program::new(Vec::new(), 0, 0));
    assert!(!chip.included(&empty));
    let mut with_event = ExecutionRecord::new(Program::new(Vec::new(), 0, 0));
    with_event.keccak256_xor_events.push(demo_event());
    assert!(chip.included(&with_event));
    assert_eq!(chip.name(), "Keccak256Xor");
    assert_eq!(chip.width(), 889);
}

#[test]
fn test_keccak_syscall_extra_cycles() {
    let syscall = Keccak256XorSyscall;
    assert_eq!(syscall.num_extra_cycles(), 1);
}

#[test]
fn test_keccak256_pad_short_message() {
    let data = vec![0xAAu8; 5];
    let padded = keccak256_pad(&data);
    assert_eq!(padded.len(), 136);
    assert_eq!(&padded[0..5], &data[..]);
    assert_eq!(padded[5], 1);
    for i in 6..135 {
        assert_eq!(padded[i], 0);
    }
    assert_eq!(padded[135], 0x80);
}

#[test]
fn test_keccak256_pad_markers_merge() {
    // One byte short of a whole block: both markers land in one byte.
    let data = vec![7u8; 135];
    let padded = keccak256_pad(&data);
    assert_eq!(padded.len(), 136);
    assert_eq!(padded[134], 7);
    assert_eq!(padded[135], 0x81);
}

#[test]
fn test_keccak256_pad_full_block() {
    // A whole block gains a fresh padding block.
    let data = vec![9u8; 136];
    let padded = keccak256_pad(&data);
    assert_eq!(padded.len(), 272);
    assert_eq!(padded[136], 1);
    assert_eq!(padded[271], 0x80);
}

#[test]
fn test_bytes_to_be_words() {
    let bytes = vec![0x01, 0x02, 0x03, 0x04, 0xAA, 0xBB, 0xCC, 0xDD];
    let words = bytes_to_be_words(&bytes);
    assert_eq!(words, vec![0x0102_0304, 0xAABB_CCDD]);
}

#[test]
fn test_poseidon2_pad() {
    let input = vec![1u8, 2, 3];
    let padded = poseidon2_pad(&input);
    assert_eq!(padded, vec![1, 2, 3, 1, 0, 0x80]);

    // Two bytes modulo three: both markers land in one byte.
    let input2 = vec![5u8, 6];
    let padded2 = poseidon2_pad(&input2);
    assert_eq!(padded2, vec![5, 6, 0x81]);

    let input3 = vec![9u8];
    let padded3 = poseidon2_pad(&input3);
    assert_eq!(padded3, vec![9, 1, 0x80]);
}

#[test]
fn test_bytes_to_field_elements() {
    let bytes = vec![0x01, 0x02, 0x03, 0x04, 0x05];
    let elements = bytes_to_field_elements(&bytes);
    assert_eq!(elements.len(), 2);
    assert_eq!(elements[0], 0x01 | (0x02 << 8) | (0x03 << 16));
    assert_eq!(elements[1], 0x04 | (0x05 << 8));
}

#[test]
fn test_absorb_and_output() {
    let mut state: Vec<u32> = (100..116).collect();
    let chunk: Vec<u32> = vec![1, 2, 3, 4, 5, 6, 7, 8];
    absorb_chunk(&mut state, &chunk);
    assert_eq!(&state[0..8], &chunk[..]);
    assert_eq!(state[8], 108);

    let digest = poseidon2_output(&state);
    assert_eq!(digest.len(), 32);
    assert_eq!(digest[0], 1);
    assert_eq!(digest[4], 2);
    assert_eq!(&digest[1..4], &[0, 0, 0]);
}

#[test]
fn test_keccak_dependency_pass_deterministic() {
    let chip = Keccak256XorChip::new();
    let mut input = ExecutionRecord::new(Program::new(Vec::new(), 0, 0));
    input.keccak256_xor_events.push(demo_event());
    let mut out1 = ExecutionRecord::new(Program::new(Vec::new(), 0, 0));
    let mut out2 = ExecutionRecord::new(Program::new(Vec::new(), 0, 0));
    chip.generate_dependencies(&input, &mut out1);
    chip.generate_dependencies(&input, &mut out2);
    let xor_key = ByteLookupEvent::new(2, ByteOpcode::Xor, 0xFE, 0, 1, 0xFF);
    assert_eq!(
        out1.byte_lookups.get_multiplicity(xor_key),
        out2.byte_lookups.get_multiplicity(xor_key)
    );
    assert_eq!(out1.byte_lookups.total(), out2.byte_lookups.total());
}
