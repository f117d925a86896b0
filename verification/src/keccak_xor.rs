//! The Keccak-256 rate-xor precompile chip: the xor of a sponge rate with a
//! message block, its event record, and the conversion of those events into
//! trace rows and byte-lookup requests.
use vstd::prelude::*;
use crate::byte::{count_in, maps_mult, maps_total, ByteLookupEvent, ByteLookupMap, ByteOpcode};
use crate::cpu::columns::{MemoryReadCols, MemoryReadWriteCols, WordCols};
use crate::cpu::trace::spec_a_range_blus;
use crate::events::Keccak256XorEvent;
use crate::record::ExecutionRecord;
use crate::trace_util::{next_pow2, RowMajorMatrix};

verus! {

/// The number of words in the sponge rate handled by one syscall.
pub const RATE_SIZE_U32S: usize = 34;

/// The number of trace rows one xor event occupies.
pub const NUM_KECCAK256_XOR_ROUNDS: usize = 1;

/// The number of byte-lookup requests one xor event contributes: four xor
/// checks per word and two byte range checks per accessed word.
pub const KECCAK_EVENT_NUM_BLUS: usize = 340;

/// The fixed width of the chip's trace rows, counted in field elements.
pub const NUM_KECCAK256_XOR_COLS: usize = 889;

/// The witness columns of one byte-wise xor of two words.
#[derive(Clone, Copy, Debug, PartialEq, Eq, Structural)]
pub struct XorOperation {
    /// The xor result, as byte limbs.
    pub value: WordCols,
}

/// The byte-lookup requests of one byte-wise word xor.
pub open spec fn spec_xor_blus(shard: u32, a: u32, b: u32) -> Seq<ByteLookupEvent> {
    seq![
        ByteLookupEvent {
            shard,
            opcode: ByteOpcode::Xor,
            a1: ((a ^ b) & 0xFF) as u16,
            a2: 0,
            b: (a & 0xFF) as u8,
            c: (b & 0xFF) as u8,
        },
        ByteLookupEvent {
            shard,
            opcode: ByteOpcode::Xor,
            a1: (((a ^ b) >> 8) & 0xFF) as u16,
            a2: 0,
            b: ((a >> 8) & 0xFF) as u8,
            c: ((b >> 8) & 0xFF) as u8,
        },
        ByteLookupEvent {
            shard,
            opcode: ByteOpcode::Xor,
            a1: (((a ^ b) >> 16) & 0xFF) as u16,
            a2: 0,
            b: ((a >> 16) & 0xFF) as u8,
            c: ((b >> 16) & 0xFF) as u8,
        },
        ByteLookupEvent {
            shard,
            opcode: ByteOpcode::Xor,
            a1: (((a ^ b) >> 24) & 0xFF) as u16,
            a2: 0,
            b: ((a >> 24) & 0xFF) as u8,
            c: ((b >> 24) & 0xFF) as u8,
        },
    ]
}

impl XorOperation {
    /// Populates the xor witness of `a ^ b` and emits the four byte xor
    /// checks.
    pub fn populate(shard: u32, a: u32, b: u32, blu: &mut Vec<ByteLookupEvent>) -> (r:
        XorOperation)
        ensures
            r.value == WordCols::spec_from_u32(a ^ b),
            final(blu)@ == old(blu)@ + spec_xor_blus(shard, a, b),
    {
        let x = a ^ b;
        blu.push(
            ByteLookupEvent {
                shard,
                opcode: ByteOpcode::Xor,
                a1: (x & 0xFF) as u16,
                a2: 0,
                b: (a & 0xFF) as u8,
                c: (b & 0xFF) as u8,
            },
        );
        blu.push(
            ByteLookupEvent {
                shard,
                opcode: ByteOpcode::Xor,
                a1: ((x >> 8) & 0xFF) as u16,
                a2: 0,
                b: ((a >> 8) & 0xFF) as u8,
                c: ((b >> 8) & 0xFF) as u8,
            },
        );
        blu.push(
            ByteLookupEvent {
                shard,
                opcode: ByteOpcode::Xor,
                a1: ((x >> 16) & 0xFF) as u16,
                a2: 0,
                b: ((a >> 16) & 0xFF) as u8,
                c: ((b >> 16) & 0xFF) as u8,
            },
        );
        blu.push(
            ByteLookupEvent {
                shard,
                opcode: ByteOpcode::Xor,
                a1: ((x >> 24) & 0xFF) as u16,
                a2: 0,
                b: ((a >> 24) & 0xFF) as u8,
                c: ((b >> 24) & 0xFF) as u8,
            },
        );
        proof {
            assert(final(blu)@ =~= old(blu)@ + spec_xor_blus(shard, a, b));
        }
        XorOperation { value: WordCols::from_u32(x) }
    }
}

/// The column layout of the Keccak-256 xor chip.
#[derive(Clone, Debug, PartialEq, Eq)]
pub struct Keccak256XorCols {
    /// The shard of the event.
    pub shard: u32,
    /// The clock cycle of the event.
    pub clk: u32,
    /// The address of the rate.
    pub rate_addr: u32,
    /// The address of the block.
    pub block_addr: u32,
    /// The memory columns for reading the rate.
    pub original_rate_mem: Vec<MemoryReadCols>,
    /// The memory columns for reading the block.
    pub block_mem: Vec<MemoryReadCols>,
    /// The memory columns for writing the xored rate.
    pub xored_rate_mem: Vec<MemoryReadWriteCols>,
    /// The xor witnesses.
    pub xored_rate: Vec<XorOperation>,
    /// Whether this row is a real (non-padding) row.
    pub is_real: u32,
}

/// Consistency of one event: every word list and record list holds exactly
/// one entry per rate word.
pub open spec fn spec_keccak_event_wf(event: Keccak256XorEvent) -> bool {
    &&& event.original_rate@.len() == RATE_SIZE_U32S
    &&& event.block@.len() == RATE_SIZE_U32S
    &&& event.xored_rate@.len() == RATE_SIZE_U32S
    &&& event.rate_read_records@.len() == RATE_SIZE_U32S
    &&& event.block_read_records@.len() == RATE_SIZE_U32S
    &&& event.rate_write_records@.len() == RATE_SIZE_U32S
}

/// The trace row of one xor event.
pub open spec fn is_keccak_row(cols: Keccak256XorCols, event: Keccak256XorEvent) -> bool {
    &&& cols.shard == event.shard
    &&& cols.clk == event.clk
    &&& cols.rate_addr == event.rate_addr
    &&& cols.block_addr == event.block_addr
    &&& cols.is_real == 1
    &&& cols.original_rate_mem@.len() == RATE_SIZE_U32S
    &&& cols.block_mem@.len() == RATE_SIZE_U32S
    &&& cols.xored_rate_mem@.len() == RATE_SIZE_U32S
    &&& cols.xored_rate@.len() == RATE_SIZE_U32S
    &&& forall|j: int|
        0 <= j < RATE_SIZE_U32S ==> (#[trigger] cols.xored_rate@[j]).value
            == WordCols::spec_from_u32(event.original_rate@[j] ^ event.block@[j])
    &&& forall|j: int|
        0 <= j < RATE_SIZE_U32S ==> (#[trigger] cols.original_rate_mem@[j]) == (MemoryReadCols {
            value: WordCols::spec_from_u32(event.rate_read_records@[j].value),
            prev_shard: event.rate_read_records@[j].prev_shard,
            prev_clk: event.rate_read_records@[j].prev_timestamp,
        })
    &&& forall|j: int|
        0 <= j < RATE_SIZE_U32S ==> (#[trigger] cols.block_mem@[j]) == (MemoryReadCols {
            value: WordCols::spec_from_u32(event.block_read_records@[j].value),
            prev_shard: event.block_read_records@[j].prev_shard,
            prev_clk: event.block_read_records@[j].prev_timestamp,
        })
    &&& forall|j: int|
        0 <= j < RATE_SIZE_U32S ==> (#[trigger] cols.xored_rate_mem@[j]) == (MemoryReadWriteCols {
            value: WordCols::spec_from_u32(event.rate_write_records@[j].value),
            prev_value: WordCols::spec_from_u32(event.rate_write_records@[j].prev_value),
            prev_shard: event.rate_write_records@[j].prev_shard,
            prev_clk: event.rate_write_records@[j].prev_timestamp,
        })
}

/// A padding row: zero everywhere, with the full column shape.
pub open spec fn is_keccak_padding_row(cols: Keccak256XorCols) -> bool {
    &&& cols.shard == 0
    &&& cols.clk == 0
    &&& cols.rate_addr == 0
    &&& cols.block_addr == 0
    &&& cols.is_real == 0
    &&& cols.original_rate_mem@.len() == RATE_SIZE_U32S
    &&& cols.block_mem@.len() == RATE_SIZE_U32S
    &&& cols.xored_rate_mem@.len() == RATE_SIZE_U32S
    &&& cols.xored_rate@.len() == RATE_SIZE_U32S
    &&& forall|j: int|
        0 <= j < RATE_SIZE_U32S ==> (#[trigger] cols.original_rate_mem@[j])
            == MemoryReadCols::spec_zero()
    &&& forall|j: int|
        0 <= j < RATE_SIZE_U32S ==> (#[trigger] cols.block_mem@[j]) == MemoryReadCols::spec_zero()
    &&& forall|j: int|
        0 <= j < RATE_SIZE_U32S ==> (#[trigger] cols.xored_rate_mem@[j])
            == MemoryReadWriteCols::spec_zero()
    &&& forall|j: int|
        0 <= j < RATE_SIZE_U32S ==> (#[trigger] cols.xored_rate@[j]) == (XorOperation {
            value: WordCols::spec_zero(),
        })
}

/// The xor byte-lookup requests of the first `i` words of an event.
pub open spec fn spec_xor_blus_range(
    shard: u32,
    rate: Seq<u32>,
    block: Seq<u32>,
    i: int,
) -> Seq<ByteLookupEvent>
    decreases i,
{
    if i <= 0 {
        Seq::empty()
    } else {
        spec_xor_blus_range(shard, rate, block, i - 1) + spec_xor_blus(
            shard,
            rate[i - 1],
            block[i - 1],
        )
    }
}

/// The byte range-check requests of the first `i` values of a word list.
pub open spec fn spec_value_range_blus(shard: u32, values: Seq<u32>, i: int) -> Seq<
    ByteLookupEvent,
>
    decreases i,
{
    if i <= 0 {
        Seq::empty()
    } else {
        spec_value_range_blus(shard, values, i - 1) + spec_a_range_blus(shard, values[i - 1])
    }
}

/// The values carried by a list of read records.
pub open spec fn spec_read_values(records: Seq<crate::events::MemoryReadRecord>) -> Seq<u32> {
    records.map(|j: int, r: crate::events::MemoryReadRecord| r.value)
}

/// The values carried by a list of write records.
pub open spec fn spec_write_values(records: Seq<crate::events::MemoryWriteRecord>) -> Seq<u32> {
    records.map(|j: int, r: crate::events::MemoryWriteRecord| r.value)
}

/// All byte-lookup requests one xor event contributes, in emission order:
/// the xor checks, then the byte range checks of the read and written words.
pub open spec fn spec_keccak_event_blus(event: Keccak256XorEvent) -> Seq<ByteLookupEvent> {
    let shard = event.shard;
    spec_xor_blus_range(shard, event.original_rate@, event.block@, RATE_SIZE_U32S as int)
        + spec_value_range_blus(
        shard,
        spec_read_values(event.rate_read_records@),
        RATE_SIZE_U32S as int,
    ) + spec_value_range_blus(
        shard,
        spec_read_values(event.block_read_records@),
        RATE_SIZE_U32S as int,
    ) + spec_value_range_blus(
        shard,
        spec_write_values(event.rate_write_records@),
        RATE_SIZE_U32S as int,
    )
}

/// The Keccak-256 xor chip. One syscall xors a rate with a message block; a
/// pointer to the rate and a pointer to the block are its two arguments.
pub struct Keccak256XorChip;

impl Keccak256XorChip {
    /// Creates the chip.
    pub fn new() -> (r: Keccak256XorChip) {
        Keccak256XorChip {  }
    }

    /// The name of the chip.
    pub fn name(&self) -> (r: &'static str)
        ensures
            r@ == "Keccak256Xor"@,
    {
        "Keccak256Xor"
    }

    /// The fixed width of the chip's trace rows.
    pub fn width(&self) -> (r: usize)
        ensures
            r == NUM_KECCAK256_XOR_COLS,
    {
        NUM_KECCAK256_XOR_COLS
    }

    /// Converts one xor event into its trace row, emitting the row's
    /// byte-lookup requests.
    #[verifier::loop_isolation(false)]
    pub fn populate_chunk(
        event: &Keccak256XorEvent,
        chunk: &mut Keccak256XorCols,
        new_byte_lookup_events: &mut Vec<ByteLookupEvent>,
    )
        requires
            spec_keccak_event_wf(*event),
        ensures
            is_keccak_row(*final(chunk), *event),
            final(new_byte_lookup_events)@ == old(new_byte_lookup_events)@
                + spec_keccak_event_blus(*event),
    {
        let ghost blu0 = new_byte_lookup_events@;
        let shard = event.shard;
        chunk.shard = shard;
        chunk.clk = event.clk;
        chunk.rate_addr = event.rate_addr;
        chunk.block_addr = event.block_addr;
        chunk.is_real = 1;

        let mut xored_rate: Vec<XorOperation> = Vec::new();
        let mut j: usize = 0;
        while j < RATE_SIZE_U32S
            invariant
                0 <= j <= RATE_SIZE_U32S,
                xored_rate@.len() == j,
                forall|t: int|
                    0 <= t < j ==> (#[trigger] xored_rate@[t]).value == WordCols::spec_from_u32(
                        event.original_rate@[t] ^ event.block@[t],
                    ),
                new_byte_lookup_events@ == blu0 + spec_xor_blus_range(
                    shard,
                    event.original_rate@,
                    event.block@,
                    j as int,
                ),
            decreases RATE_SIZE_U32S - j,
        {
            let op = XorOperation::populate(
                shard,
                event.original_rate[j],
                event.block[j],
                new_byte_lookup_events,
            );
            xored_rate.push(op);
            j += 1;
        }
        chunk.xored_rate = xored_rate;
        let ghost blu1 = new_byte_lookup_events@;

        let mut original_rate_mem: Vec<MemoryReadCols> = Vec::new();
        let mut j2: usize = 0;
        while j2 < RATE_SIZE_U32S
            invariant
                0 <= j2 <= RATE_SIZE_U32S,
                original_rate_mem@.len() == j2,
                forall|t: int|
                    0 <= t < j2 ==> (#[trigger] original_rate_mem@[t]) == (MemoryReadCols {
                        value: WordCols::spec_from_u32(event.rate_read_records@[t].value),
                        prev_shard: event.rate_read_records@[t].prev_shard,
                        prev_clk: event.rate_read_records@[t].prev_timestamp,
                    }),
                new_byte_lookup_events@ == blu1 + spec_value_range_blus(
                    shard,
                    spec_read_values(event.rate_read_records@),
                    j2 as int,
                ),
            decreases RATE_SIZE_U32S - j2,
        {
            let record = event.rate_read_records[j2];
            original_rate_mem.push(
                MemoryReadCols {
                    value: WordCols::from_u32(record.value),
                    prev_shard: record.prev_shard,
                    prev_clk: record.prev_timestamp,
                },
            );
            add_u8_range_checks(shard, record.value, new_byte_lookup_events);
            proof {
                assert(spec_read_values(event.rate_read_records@)[j2 as int] == record.value);
            }
            j2 += 1;
        }
        chunk.original_rate_mem = original_rate_mem;
        let ghost blu2 = new_byte_lookup_events@;

        let mut block_mem: Vec<MemoryReadCols> = Vec::new();
        let mut j3: usize = 0;
        while j3 < RATE_SIZE_U32S
            invariant
                0 <= j3 <= RATE_SIZE_U32S,
                block_mem@.len() == j3,
                forall|t: int|
                    0 <= t < j3 ==> (#[trigger] block_mem@[t]) == (MemoryReadCols {
                        value: WordCols::spec_from_u32(event.block_read_records@[t].value),
                        prev_shard: event.block_read_records@[t].prev_shard,
                        prev_clk: event.block_read_records@[t].prev_timestamp,
                    }),
                new_byte_lookup_events@ == blu2 + spec_value_range_blus(
                    shard,
                    spec_read_values(event.block_read_records@),
                    j3 as int,
                ),
            decreases RATE_SIZE_U32S - j3,
        {
            let record = event.block_read_records[j3];
            block_mem.push(
                MemoryReadCols {
                    value: WordCols::from_u32(record.value),
                    prev_shard: record.prev_shard,
                    prev_clk: record.prev_timestamp,
                },
            );
            add_u8_range_checks(shard, record.value, new_byte_lookup_events);
            proof {
                assert(spec_read_values(event.block_read_records@)[j3 as int] == record.value);
            }
            j3 += 1;
        }
        chunk.block_mem = block_mem;
        let ghost blu3 = new_byte_lookup_events@;

        let mut xored_rate_mem: Vec<MemoryReadWriteCols> = Vec::new();
        let mut j4: usize = 0;
        while j4 < RATE_SIZE_U32S
            invariant
                0 <= j4 <= RATE_SIZE_U32S,
                xored_rate_mem@.len() == j4,
                forall|t: int|
                    0 <= t < j4 ==> (#[trigger] xored_rate_mem@[t]) == (MemoryReadWriteCols {
                        value: WordCols::spec_from_u32(event.rate_write_records@[t].value),
                        prev_value: WordCols::spec_from_u32(
                            event.rate_write_records@[t].prev_value,
                        ),
                        prev_shard: event.rate_write_records@[t].prev_shard,
                        prev_clk: event.rate_write_records@[t].prev_timestamp,
                    }),
                new_byte_lookup_events@ == blu3 + spec_value_range_blus(
                    shard,
                    spec_write_values(event.rate_write_records@),
                    j4 as int,
                ),
            decreases RATE_SIZE_U32S - j4,
        {
            let record = event.rate_write_records[j4];
            xored_rate_mem.push(
                MemoryReadWriteCols {
                    value: WordCols::from_u32(record.value),
                    prev_value: WordCols::from_u32(record.prev_value),
                    prev_shard: record.prev_shard,
                    prev_clk: record.prev_timestamp,
                },
            );
            add_u8_range_checks(shard, record.value, new_byte_lookup_events);
            proof {
                assert(spec_write_values(event.rate_write_records@)[j4 as int] == record.value);
            }
            j4 += 1;
        }
        chunk.xored_rate_mem = xored_rate_mem;

        proof {
            assert(final(new_byte_lookup_events)@ =~= old(new_byte_lookup_events)@
                + spec_keccak_event_blus(*event));
        }
    }

    /// Returns an all-zero padding row.
    #[verifier::loop_isolation(false)]
    pub fn padding_row() -> (r: Keccak256XorCols)
        ensures
            is_keccak_padding_row(r),
    {
        let mut original_rate_mem: Vec<MemoryReadCols> = Vec::new();
        let mut block_mem: Vec<MemoryReadCols> = Vec::new();
        let mut xored_rate_mem: Vec<MemoryReadWriteCols> = Vec::new();
        let mut xored_rate: Vec<XorOperation> = Vec::new();
        let mut j: usize = 0;
        while j < RATE_SIZE_U32S
            invariant
                0 <= j <= RATE_SIZE_U32S,
                original_rate_mem@.len() == j,
                block_mem@.len() == j,
                xored_rate_mem@.len() == j,
                xored_rate@.len() == j,
                forall|t: int|
                    0 <= t < j ==> (#[trigger] original_rate_mem@[t])
                        == MemoryReadCols::spec_zero(),
                forall|t: int|
                    0 <= t < j ==> (#[trigger] block_mem@[t]) == MemoryReadCols::spec_zero(),
                forall|t: int|
                    0 <= t < j ==> (#[trigger] xored_rate_mem@[t])
                        == MemoryReadWriteCols::spec_zero(),
                forall|t: int|
                    0 <= t < j ==> (#[trigger] xored_rate@[t]) == (XorOperation {
                        value: WordCols::spec_zero(),
                    }),
            decreases RATE_SIZE_U32S - j,
        {
            original_rate_mem.push(
                MemoryReadCols { value: WordCols::zero(), prev_shard: 0, prev_clk: 0 },
            );
            block_mem.push(MemoryReadCols { value: WordCols::zero(), prev_shard: 0, prev_clk: 0 });
            xored_rate_mem.push(
                MemoryReadWriteCols {
                    value: WordCols::zero(),
                    prev_value: WordCols::zero(),
                    prev_shard: 0,
                    prev_clk: 0,
                },
            );
            xored_rate.push(XorOperation { value: WordCols::zero() });
            j += 1;
        }
        Keccak256XorCols {
            shard: 0,
            clk: 0,
            rate_addr: 0,
            block_addr: 0,
            original_rate_mem,
            block_mem,
            xored_rate_mem,
            xored_rate,
            is_real: 0,
        }
    }

    /// Generates the trace matrix of the chip for one shard: one row per xor
    /// event, padded with zero rows up to the next power of two, with a
    /// height of at least eight.
    #[verifier::loop_isolation(false)]
    pub fn generate_trace(&self, input: &ExecutionRecord, output: &mut ExecutionRecord) -> (rows:
        Vec<Keccak256XorCols>)
        requires
            forall|i: int|
                0 <= i < input.keccak256_xor_events@.len() ==> spec_keccak_event_wf(
                    #[trigger] input.keccak256_xor_events@[i],
                ),
            input.keccak256_xor_events@.len() <= 0x4000_0000,
        ensures
            *final(output) == *old(output),
            rows@.len() == spec_keccak_trace_height(*input),
            rows@.len() >= 8,
            forall|i: int|
                0 <= i < input.keccak256_xor_events@.len() ==> is_keccak_row(
                    #[trigger] rows@[i],
                    input.keccak256_xor_events@[i],
                ),
            forall|i: int|
                input.keccak256_xor_events@.len() <= i < rows@.len() ==> is_keccak_padding_row(
                    #[trigger] rows@[i],
                ),
            forall|i: int| 0 <= i < rows@.len() ==> spec_keccak_cols_shape(#[trigger] rows@[i]),
    {
        let num_events = input.keccak256_xor_events.len();
        let p = next_pow2(num_events);
        let num_rows = if p < 8 {
            8
        } else {
            p
        };

        let mut rows: Vec<Keccak256XorCols> = Vec::new();
        let mut i: usize = 0;
        while i < num_rows
            invariant
                0 <= i <= num_rows,
                rows@.len() == i,
                forall|t: int|
                    0 <= t < i && t < input.keccak256_xor_events@.len() ==> is_keccak_row(
                        #[trigger] rows@[t],
                        input.keccak256_xor_events@[t],
                    ),
                forall|t: int|
                    input.keccak256_xor_events@.len() <= t < i ==> is_keccak_padding_row(
                        #[trigger] rows@[t],
                    ),
                forall|t: int| 0 <= t < i ==> spec_keccak_cols_shape(#[trigger] rows@[t]),
            decreases num_rows - i,
        {
            if i < num_events {
                let mut chunk = Keccak256XorChip::padding_row();
                let mut blu: Vec<ByteLookupEvent> = Vec::new();
                Keccak256XorChip::populate_chunk(
                    &input.keccak256_xor_events[i],
                    &mut chunk,
                    &mut blu,
                );
                rows.push(chunk);
            } else {
                rows.push(Keccak256XorChip::padding_row());
            }
            i += 1;
        }
        rows
    }

    /// Runs the dependency pass of the chip: derives each event's
    /// byte-lookup requests into a private multiplicity map, one event per
    /// chunk, and merges the maps into the output record.
    #[verifier::loop_isolation(false)]
    pub fn generate_dependencies(&self, input: &ExecutionRecord, output: &mut ExecutionRecord)
        requires
            forall|i: int|
                0 <= i < input.keccak256_xor_events@.len() ==> spec_keccak_event_wf(
                    #[trigger] input.keccak256_xor_events@[i],
                ),
            old(output).byte_lookups.wf(),
            old(output).byte_lookups.spec_total() + KECCAK_EVENT_NUM_BLUS
                * input.keccak256_xor_events@.len() <= u64::MAX,
        ensures
            final(output).byte_lookups.wf(),
            forall|k: ByteLookupEvent|
                final(output).byte_lookups.multiplicity(k) == old(
                    output,
                ).byte_lookups.multiplicity(k) + count_in(spec_keccak_record_blus(*input), k),
            final(output).byte_lookups.spec_total() == old(output).byte_lookups.spec_total()
                + KECCAK_EVENT_NUM_BLUS * input.keccak256_xor_events@.len(),
            *final(output) == (ExecutionRecord {
                byte_lookups: final(output).byte_lookups,
                ..*old(output)
            }),
            is_keccak_dependency_pass_result(
                old(output).byte_lookups,
                final(output).byte_lookups,
                *input,
            ),
    {
        let n = input.keccak256_xor_events.len();
        let ghost events = input.keccak256_xor_events@;
        proof {
            crate::byte::lemma_total_nonneg(old(output).byte_lookups);
        }

        let mut blu_maps: Vec<ByteLookupMap> = Vec::new();
        let mut i: usize = 0;
        while i < n
            invariant
                0 <= i <= n,
                forall|m: int|
                    0 <= m < blu_maps@.len() ==> (#[trigger] blu_maps@[m]).wf(),
                maps_total(blu_maps@) == KECCAK_EVENT_NUM_BLUS * i,
                forall|k: ByteLookupEvent|
                    maps_mult(blu_maps@, k) == count_in(
                        spec_keccak_blus_range(events, 0, i as int),
                        k,
                    ),
            decreases n - i,
        {
            let ghost maps0 = blu_maps@;
            let mut blu: Vec<ByteLookupEvent> = Vec::new();
            let mut chunk = Keccak256XorChip::padding_row();
            Keccak256XorChip::populate_chunk(&input.keccak256_xor_events[i], &mut chunk, &mut blu);
            proof {
                lemma_keccak_event_blus_len(events[i as int]);
            }

            let mut local_map = ByteLookupMap::new();
            local_map.add_byte_lookup_events(&blu);
            let ghost local = local_map;
            blu_maps.push(local_map);
            proof {
                assert(blu_maps@.drop_last() =~= maps0);
                assert(blu_maps@.last() == local);
                assert(maps_total(blu_maps@) == maps_total(maps0) + local.spec_total());
                assert forall|k: ByteLookupEvent|
                    maps_mult(blu_maps@, k) == count_in(
                        spec_keccak_blus_range(events, 0, i + 1),
                        k,
                    ) by {
                    assert(maps_mult(blu_maps@, k) == maps_mult(maps0, k) + local.multiplicity(
                        k,
                    ));
                    assert(local.multiplicity(k) == count_in(blu@, k));
                    assert(spec_keccak_blus_range(events, 0, i + 1) == spec_keccak_blus_range(
                        events,
                        0,
                        i as int,
                    ) + spec_keccak_event_blus(events[i as int]));
                    crate::byte::lemma_count_in_concat(
                        spec_keccak_blus_range(events, 0, i as int),
                        spec_keccak_event_blus(events[i as int]),
                        k,
                    );
                }
            }
            i += 1;
        }

        output.add_sharded_byte_lookup_events(&blu_maps);
    }

    /// Flattens the rows of a trace into the row-major matrix of field
    /// elements the proving engine consumes.
    #[verifier::loop_isolation(false)]
    pub fn rows_to_matrix(&self, rows: &Vec<Keccak256XorCols>) -> (m: RowMajorMatrix)
        requires
            rows@.len() * NUM_KECCAK256_XOR_COLS <= usize::MAX,
            forall|i: int|
                0 <= i < rows@.len() ==> spec_keccak_cols_shape(#[trigger] rows@[i]),
        ensures
            m.width == NUM_KECCAK256_XOR_COLS,
            m.values@.len() == rows@.len() * NUM_KECCAK256_XOR_COLS,
            forall|i: int|
                0 <= i < rows@.len() ==> m.values@.subrange(
                    i * NUM_KECCAK256_XOR_COLS,
                    (i + 1) * NUM_KECCAK256_XOR_COLS,
                ) == (#[trigger] rows@[i]).spec_row(),
    {
        let n = rows.len();
        let mut values: Vec<u32> = Vec::new();
        let mut i: usize = 0;
        while i < n
            invariant
                0 <= i <= n,
                values@.len() == i * NUM_KECCAK256_XOR_COLS,
                forall|j: int|
                    0 <= j < i ==> values@.subrange(
                        j * NUM_KECCAK256_XOR_COLS,
                        (j + 1) * NUM_KECCAK256_XOR_COLS,
                    ) == (#[trigger] rows@[j]).spec_row(),
            decreases n - i,
        {
            let ghost values0 = values@;
            let mut row = rows[i].to_row();
            values.append(&mut row);
            proof {
                assert forall|j: int|
                    0 <= j < i + 1 implies values@.subrange(
                    j * NUM_KECCAK256_XOR_COLS,
                    (j + 1) * NUM_KECCAK256_XOR_COLS,
                ) == (#[trigger] rows@[j]).spec_row() by {
                    if j < i {
                        assert(values@.subrange(
                            j * NUM_KECCAK256_XOR_COLS,
                            (j + 1) * NUM_KECCAK256_XOR_COLS,
                        ) =~= values0.subrange(
                            j * NUM_KECCAK256_XOR_COLS,
                            (j + 1) * NUM_KECCAK256_XOR_COLS,
                        ));
                    } else {
                        assert(values@.subrange(
                            j * NUM_KECCAK256_XOR_COLS,
                            (j + 1) * NUM_KECCAK256_XOR_COLS,
                        ) =~= rows@[j].spec_row());
                    }
                }
            }
            i += 1;
        }
        RowMajorMatrix::new(values, NUM_KECCAK256_XOR_COLS)
    }

    /// Whether the chip participates in a shard: exactly the shards that
    /// hold xor events. The registry lists no identifier for this chip, so
    /// an explicit shape cannot name it.
    pub fn included(&self, shard: &ExecutionRecord) -> (r: bool)
        ensures
            r == (shard.keccak256_xor_events@.len() > 0),
    {
        shard.keccak256_xor_events.len() > 0
    }
}

/// The column shape of a row: every per-word column list holds one entry
/// per rate word.
pub open spec fn spec_keccak_cols_shape(cols: Keccak256XorCols) -> bool {
    &&& cols.original_rate_mem@.len() == RATE_SIZE_U32S
    &&& cols.block_mem@.len() == RATE_SIZE_U32S
    &&& cols.xored_rate_mem@.len() == RATE_SIZE_U32S
    &&& cols.xored_rate@.len() == RATE_SIZE_U32S
}

/// The cells of the first `i` read-operand column groups, in column order.
pub open spec fn spec_read_cols_cells(s: Seq<MemoryReadCols>, i: int) -> Seq<u32>
    decreases i,
{
    if i <= 0 {
        Seq::empty()
    } else {
        spec_read_cols_cells(s, i - 1) + s[i - 1].spec_cols()
    }
}

/// The cells of the first `i` write-operand column groups, in column order.
pub open spec fn spec_rw_cols_cells(s: Seq<MemoryReadWriteCols>, i: int) -> Seq<u32>
    decreases i,
{
    if i <= 0 {
        Seq::empty()
    } else {
        spec_rw_cols_cells(s, i - 1) + s[i - 1].spec_cols()
    }
}

/// The cells of the first `i` xor witnesses, in column order.
pub open spec fn spec_xor_cells(s: Seq<XorOperation>, i: int) -> Seq<u32>
    decreases i,
{
    if i <= 0 {
        Seq::empty()
    } else {
        spec_xor_cells(s, i - 1) + s[i - 1].value.spec_cols()
    }
}

proof fn lemma_read_cols_cells_len(s: Seq<MemoryReadCols>, i: int)
    requires
        i >= 0,
    ensures
        spec_read_cols_cells(s, i).len() == 6 * i,
    decreases i,
{
    if i > 0 {
        lemma_read_cols_cells_len(s, i - 1);
    }
}

proof fn lemma_rw_cols_cells_len(s: Seq<MemoryReadWriteCols>, i: int)
    requires
        i >= 0,
    ensures
        spec_rw_cols_cells(s, i).len() == 10 * i,
    decreases i,
{
    if i > 0 {
        lemma_rw_cols_cells_len(s, i - 1);
    }
}

proof fn lemma_xor_cells_len(s: Seq<XorOperation>, i: int)
    requires
        i >= 0,
    ensures
        spec_xor_cells(s, i).len() == 4 * i,
    decreases i,
{
    if i > 0 {
        lemma_xor_cells_len(s, i - 1);
    }
}

impl Keccak256XorCols {
    /// The whole row in column order: the fixed-width flattening handed to
    /// the proving engine.
    pub open spec fn spec_row(self) -> Seq<u32> {
        seq![self.shard, self.clk, self.rate_addr, self.block_addr] + spec_read_cols_cells(
            self.original_rate_mem@,
            RATE_SIZE_U32S as int,
        ) + spec_read_cols_cells(self.block_mem@, RATE_SIZE_U32S as int) + spec_rw_cols_cells(
            self.xored_rate_mem@,
            RATE_SIZE_U32S as int,
        ) + spec_xor_cells(self.xored_rate@, RATE_SIZE_U32S as int) + seq![self.is_real]
    }

    /// Lays the row down as the fixed-width cell vector.
    #[verifier::loop_isolation(false)]
    pub fn to_row(&self) -> (r: Vec<u32>)
        requires
            spec_keccak_cols_shape(*self),
        ensures
            r@ == self.spec_row(),
            r@.len() == NUM_KECCAK256_XOR_COLS,
    {
        let mut r: Vec<u32> = vec![self.shard, self.clk, self.rate_addr, self.block_addr];
        let ghost p0 = r@;
        let mut j: usize = 0;
        while j < RATE_SIZE_U32S
            invariant
                0 <= j <= RATE_SIZE_U32S,
                r@ == p0 + spec_read_cols_cells(self.original_rate_mem@, j as int),
            decreases RATE_SIZE_U32S - j,
        {
            let c = self.original_rate_mem[j];
            r.push(c.value.b0);
            r.push(c.value.b1);
            r.push(c.value.b2);
            r.push(c.value.b3);
            r.push(c.prev_shard);
            r.push(c.prev_clk);
            proof {
                assert(r@ =~= p0 + spec_read_cols_cells(self.original_rate_mem@, j + 1));
            }
            j += 1;
        }
        let ghost p1 = r@;
        let mut j2: usize = 0;
        while j2 < RATE_SIZE_U32S
            invariant
                0 <= j2 <= RATE_SIZE_U32S,
                r@ == p1 + spec_read_cols_cells(self.block_mem@, j2 as int),
            decreases RATE_SIZE_U32S - j2,
        {
            let c = self.block_mem[j2];
            r.push(c.value.b0);
            r.push(c.value.b1);
            r.push(c.value.b2);
            r.push(c.value.b3);
            r.push(c.prev_shard);
            r.push(c.prev_clk);
            proof {
                assert(r@ =~= p1 + spec_read_cols_cells(self.block_mem@, j2 + 1));
            }
            j2 += 1;
        }
        let ghost p2 = r@;
        let mut j3: usize = 0;
        while j3 < RATE_SIZE_U32S
            invariant
                0 <= j3 <= RATE_SIZE_U32S,
                r@ == p2 + spec_rw_cols_cells(self.xored_rate_mem@, j3 as int),
            decreases RATE_SIZE_U32S - j3,
        {
            let c = self.xored_rate_mem[j3];
            r.push(c.prev_value.b0);
            r.push(c.prev_value.b1);
            r.push(c.prev_value.b2);
            r.push(c.prev_value.b3);
            r.push(c.value.b0);
            r.push(c.value.b1);
            r.push(c.value.b2);
            r.push(c.value.b3);
            r.push(c.prev_shard);
            r.push(c.prev_clk);
            proof {
                assert(r@ =~= p2 + spec_rw_cols_cells(self.xored_rate_mem@, j3 + 1));
            }
            j3 += 1;
        }
        let ghost p3 = r@;
        let mut j4: usize = 0;
        while j4 < RATE_SIZE_U32S
            invariant
                0 <= j4 <= RATE_SIZE_U32S,
                r@ == p3 + spec_xor_cells(self.xored_rate@, j4 as int),
            decreases RATE_SIZE_U32S - j4,
        {
            let c = self.xored_rate[j4];
            r.push(c.value.b0);
            r.push(c.value.b1);
            r.push(c.value.b2);
            r.push(c.value.b3);
            proof {
                assert(r@ =~= p3 + spec_xor_cells(self.xored_rate@, j4 + 1));
            }
            j4 += 1;
        }
        r.push(self.is_real);
        proof {
            lemma_read_cols_cells_len(self.original_rate_mem@, RATE_SIZE_U32S as int);
            lemma_read_cols_cells_len(self.block_mem@, RATE_SIZE_U32S as int);
            lemma_rw_cols_cells_len(self.xored_rate_mem@, RATE_SIZE_U32S as int);
            lemma_xor_cells_len(self.xored_rate@, RATE_SIZE_U32S as int);
            assert(r@ =~= self.spec_row());
        }
        r
    }
}

/// What the dependency pass of the chip leaves behind: starting from the
/// multiplicities of `base`, every request gains exactly its occurrence
/// count among the requests the shard's xor events derive.
pub open spec fn is_keccak_dependency_pass_result(
    base: ByteLookupMap,
    result: ByteLookupMap,
    input: ExecutionRecord,
) -> bool {
    forall|k: ByteLookupEvent|
        #![trigger result.multiplicity(k)]
        result.multiplicity(k) == base.multiplicity(k) + count_in(
            spec_keccak_record_blus(input),
            k,
        )
}

/// Law: the dependency pass of the chip is deterministic. Two independent
/// passes over the same shard, started from the same multiplicities, leave
/// identical aggregated byte-lookup multiplicities.
pub proof fn lemma_keccak_dependency_pass_deterministic(
    base: ByteLookupMap,
    m1: ByteLookupMap,
    m2: ByteLookupMap,
    input: ExecutionRecord,
)
    requires
        is_keccak_dependency_pass_result(base, m1, input),
        is_keccak_dependency_pass_result(base, m2, input),
    ensures
        m1.same_multiplicities(m2),
{
}

/// The byte-lookup requests of the xor events with indices in `[lo, hi)`.
pub open spec fn spec_keccak_blus_range(events: Seq<Keccak256XorEvent>, lo: int, hi: int) -> Seq<
    ByteLookupEvent,
>
    decreases hi - lo,
{
    if hi <= lo {
        Seq::empty()
    } else {
        spec_keccak_blus_range(events, lo, hi - 1) + spec_keccak_event_blus(events[hi - 1])
    }
}

/// All byte-lookup requests the dependency pass of the chip derives from a
/// shard, in order.
pub open spec fn spec_keccak_record_blus(input: ExecutionRecord) -> Seq<ByteLookupEvent> {
    spec_keccak_blus_range(
        input.keccak256_xor_events@,
        0,
        input.keccak256_xor_events@.len() as int,
    )
}

/// One event contributes exactly its fixed number of byte-lookup requests.
proof fn lemma_keccak_event_blus_len(event: Keccak256XorEvent)
    ensures
        spec_keccak_event_blus(event).len() == KECCAK_EVENT_NUM_BLUS,
{
    lemma_xor_blus_range_len(event.shard, event.original_rate@, event.block@,
        RATE_SIZE_U32S as int);
    lemma_value_range_blus_len(
        event.shard,
        spec_read_values(event.rate_read_records@),
        RATE_SIZE_U32S as int,
    );
    lemma_value_range_blus_len(
        event.shard,
        spec_read_values(event.block_read_records@),
        RATE_SIZE_U32S as int,
    );
    lemma_value_range_blus_len(
        event.shard,
        spec_write_values(event.rate_write_records@),
        RATE_SIZE_U32S as int,
    );
}

proof fn lemma_xor_blus_range_len(shard: u32, rate: Seq<u32>, block: Seq<u32>, i: int)
    requires
        i >= 0,
    ensures
        spec_xor_blus_range(shard, rate, block, i).len() == 4 * i,
    decreases i,
{
    if i > 0 {
        lemma_xor_blus_range_len(shard, rate, block, i - 1);
    }
}

proof fn lemma_value_range_blus_len(shard: u32, values: Seq<u32>, i: int)
    requires
        i >= 0,
    ensures
        spec_value_range_blus(shard, values, i).len() == 2 * i,
    decreases i,
{
    if i > 0 {
        lemma_value_range_blus_len(shard, values, i - 1);
    }
}

/// Emits the two byte range-check requests covering the four bytes of
/// `value`.
fn add_u8_range_checks(shard: u32, value: u32, blu: &mut Vec<ByteLookupEvent>)
    ensures
        final(blu)@ == old(blu)@ + spec_a_range_blus(shard, value),
{
    blu.push(
        ByteLookupEvent {
            shard,
            opcode: ByteOpcode::U8Range,
            a1: 0,
            a2: 0,
            b: (value & 0xFF) as u8,
            c: ((value >> 8) & 0xFF) as u8,
        },
    );
    blu.push(
        ByteLookupEvent {
            shard,
            opcode: ByteOpcode::U8Range,
            a1: 0,
            a2: 0,
            b: ((value >> 16) & 0xFF) as u8,
            c: ((value >> 24) & 0xFF) as u8,
        },
    );
    proof {
        assert(final(blu)@ =~= old(blu)@ + spec_a_range_blus(shard, value));
    }
}

/// The height of the chip's trace on a shard: the next power of two of the
/// event count, with a floor of eight.
pub open spec fn spec_keccak_trace_height(input: ExecutionRecord) -> int {
    let p = crate::trace_util::spec_next_pow2(input.keccak256_xor_events@.len() as int);
    if p < 8 {
        8
    } else {
        p
    }
}

/// Xors a sponge rate with a message block, word by word: the computational
/// core of the Keccak-256 xor syscall.
#[verifier::loop_isolation(false)]
pub fn xor_rate(original_rate: &Vec<u32>, block: &Vec<u32>) -> (xored: Vec<u32>)
    requires
        original_rate@.len() == block@.len(),
    ensures
        xored@.len() == original_rate@.len(),
        forall|i: int|
            0 <= i < xored@.len() ==> #[trigger] xored@[i] == (original_rate@[i] ^ block@[i]),
{
    let n = original_rate.len();
    let mut xored: Vec<u32> = Vec::new();
    let mut i: usize = 0;
    while i < n
        invariant
            0 <= i <= n,
            xored@.len() == i,
            forall|t: int|
                0 <= t < i ==> #[trigger] xored@[t] == (original_rate@[t] ^ block@[t]),
        decreases n - i,
    {
        xored.push(original_rate[i] ^ block[i]);
        i += 1;
    }
    xored
}

/// The Keccak-256 xor syscall: reads the rate and the block, xors them, and
/// writes the result back over the rate. The clock advances by one extra
/// cycle between the reads and the write.
pub struct Keccak256XorSyscall;

impl Keccak256XorSyscall {
    /// The number of extra cycles the syscall consumes.
    pub fn num_extra_cycles(&self) -> (r: u32)
        ensures
            r == 1,
    {
        1
    }
}

} // verus!
