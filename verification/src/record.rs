//! The per-shard execution record: every event collection of one shard, the
//! shard metadata, and the allocator that draws fresh correlation
//! identifiers.
use vstd::prelude::*;
use crate::byte::{ByteLookupEvent, ByteLookupMap};
use crate::events::{
    AluEvent, BranchEvent, CpuEvent, JumpEvent, Keccak256XorEvent, LookupId, MemInstrEvent,
    MiscEvent,
};
use crate::air::MipsAirId;
use crate::program::Program;

verus! {

/// The public values of a shard that the trace generators read.
#[derive(Clone, Copy, Debug, PartialEq, Eq, Structural)]
pub struct PublicValues {
    /// The index of the shard within the execution.
    pub execution_shard: u32,
}

/// An explicit per-chip trace-height shape: for each listed chip, the log2 of
/// the height its trace must take.
#[derive(Clone, Debug, PartialEq, Eq)]
pub struct CoreShape {
    /// The (chip, log2 height) entries.
    pub inner: Vec<(MipsAirId, usize)>,
}

/// The log2 height that a shape fixes for a chip, if the chip is listed;
/// the first listed entry wins.
pub open spec fn spec_shape_height(entries: Seq<(MipsAirId, usize)>, air: MipsAirId) -> Option<
    usize,
>
    decreases entries.len(),
{
    if entries.len() == 0 {
        None
    } else if entries.first().0 == air {
        Some(entries.first().1)
    } else {
        spec_shape_height(entries.drop_first(), air)
    }
}

impl CoreShape {
    /// The log2 height this shape fixes for `air`, if listed.
    pub open spec fn spec_height_of(self, air: MipsAirId) -> Option<usize> {
        spec_shape_height(self.inner@, air)
    }

    /// Whether the shape lists `air` at all.
    pub open spec fn spec_included(self, air: MipsAirId) -> bool {
        self.spec_height_of(air) is Some
    }

    /// Returns the log2 height this shape fixes for `air`, if listed.
    #[verifier::loop_isolation(false)]
    pub fn height_of(&self, air: MipsAirId) -> (r: Option<usize>)
        ensures
            r == self.spec_height_of(air),
    {
        let n = self.inner.len();
        let mut i: usize = 0;
        proof {
            assert(self.inner@.skip(0) =~= self.inner@);
        }
        while i < n
            invariant
                n == self.inner@.len(),
                0 <= i <= n,
                spec_shape_height(self.inner@, air) == spec_shape_height(
                    self.inner@.skip(i as int),
                    air,
                ),
            decreases n - i,
        {
            let (k, v) = self.inner[i];
            proof {
                assert(self.inner@.skip(i as int).first() == self.inner@[i as int]);
                assert(self.inner@.skip(i as int).drop_first() =~= self.inner@.skip(i + 1));
            }
            if k == air {
                return Some(v);
            }
            i += 1;
        }
        proof {
            assert(self.inner@.skip(n as int) =~= Seq::<(MipsAirId, usize)>::empty());
        }
        None
    }

    /// Returns whether the shape lists `air`.
    pub fn included(&self, air: MipsAirId) -> (r: bool)
        ensures
            r == self.spec_included(air),
    {
        self.height_of(air).is_some()
    }
}

/// The sequence of fresh correlation identifiers drawn by one allocation.
pub open spec fn lookup_id_seq(n0: u64) -> Seq<LookupId> {
    Seq::new(6, |i: int| LookupId((n0 + i) as u64))
}

/// A per-shard execution record. It owns every event collection of the shard.
/// The executor appends primary events while the shard is generated; the
/// dependency emitter appends auxiliary events; once handed to chip trace
/// generation it is never mutated again.
pub struct ExecutionRecord {
    /// The program being executed.
    pub program: Program,
    /// The public values of the shard.
    pub public_values: PublicValues,
    /// An optional explicit per-chip trace-height shape.
    pub shape: Option<CoreShape>,
    /// The primary CPU events, in program order.
    pub cpu_events: Vec<CpuEvent>,
    /// Addition and subtraction events.
    pub add_events: Vec<AluEvent>,
    /// Multiplication events.
    pub mul_events: Vec<AluEvent>,
    /// Comparison (set-less-than) events.
    pub lt_events: Vec<AluEvent>,
    /// Logical right shift events.
    pub shift_right_events: Vec<AluEvent>,
    /// Division and remainder events.
    pub divrem_events: Vec<AluEvent>,
    /// Count-leading-bits events.
    pub cloclz_events: Vec<AluEvent>,
    /// Memory instruction events.
    pub memory_events: Vec<MemInstrEvent>,
    /// Branch instruction events.
    pub branch_events: Vec<BranchEvent>,
    /// Jump instruction events.
    pub jump_events: Vec<JumpEvent>,
    /// Misc instruction events.
    pub misc_events: Vec<MiscEvent>,
    /// Keccak-256 rate-xor precompile events.
    pub keccak256_xor_events: Vec<Keccak256XorEvent>,
    /// The accumulated byte-lookup multiplicities of the shard.
    pub byte_lookups: ByteLookupMap,
    /// The nonce table indexed by correlation identifier.
    pub nonce_lookup: Vec<u32>,
    /// The next correlation identifier to hand out.
    pub next_lookup_id: u64,
}

impl ExecutionRecord {
    /// Creates an empty record for one shard of `program`.
    pub fn new(program: Program) -> (r: ExecutionRecord)
        ensures
            r.program == program,
            r.public_values == (PublicValues { execution_shard: 0 }),
            r.shape is None,
            r.cpu_events@.len() == 0,
            r.add_events@.len() == 0,
            r.mul_events@.len() == 0,
            r.lt_events@.len() == 0,
            r.shift_right_events@.len() == 0,
            r.divrem_events@.len() == 0,
            r.cloclz_events@.len() == 0,
            r.memory_events@.len() == 0,
            r.branch_events@.len() == 0,
            r.jump_events@.len() == 0,
            r.misc_events@.len() == 0,
            r.keccak256_xor_events@.len() == 0,
            r.byte_lookups.wf(),
            r.byte_lookups.spec_total() == 0,
            forall|e: ByteLookupEvent| r.byte_lookups.multiplicity(e) == 0,
            r.nonce_lookup@.len() == 0,
            r.next_lookup_id == 0,
    {
        ExecutionRecord {
            program,
            public_values: PublicValues { execution_shard: 0 },
            shape: None,
            cpu_events: Vec::new(),
            add_events: Vec::new(),
            mul_events: Vec::new(),
            lt_events: Vec::new(),
            shift_right_events: Vec::new(),
            divrem_events: Vec::new(),
            cloclz_events: Vec::new(),
            memory_events: Vec::new(),
            branch_events: Vec::new(),
            jump_events: Vec::new(),
            misc_events: Vec::new(),
            keccak256_xor_events: Vec::new(),
            byte_lookups: ByteLookupMap::new(),
            nonce_lookup: Vec::new(),
            next_lookup_id: 0,
        }
    }

    /// Draws six fresh correlation identifiers for the auxiliary events of
    /// one event.
    pub fn create_lookup_ids(&mut self) -> (r: [LookupId; 6])
        requires
            old(self).next_lookup_id + 6 <= u64::MAX,
        ensures
            r@ == lookup_id_seq(old(self).next_lookup_id),
            *final(self) == (ExecutionRecord {
                next_lookup_id: (old(self).next_lookup_id + 6) as u64,
                ..*old(self)
            }),
    {
        let n = self.next_lookup_id;
        let ids: [LookupId; 6] = [
            LookupId(n),
            LookupId(n + 1),
            LookupId(n + 2),
            LookupId(n + 3),
            LookupId(n + 4),
            LookupId(n + 5),
        ];
        self.next_lookup_id = n + 6;
        proof {
            assert(ids@ =~= lookup_id_seq(n));
        }
        ids
    }

    /// Whether the shard holds any CPU events.
    pub fn contains_cpu(&self) -> (r: bool)
        ensures
            r == (self.cpu_events@.len() > 0),
    {
        self.cpu_events.len() > 0
    }

    /// Records one occurrence of each byte-lookup request in `evs` in the
    /// shard's multiplicity map.
    pub fn add_byte_lookup_events(&mut self, evs: &Vec<ByteLookupEvent>)
        requires
            old(self).byte_lookups.wf(),
            old(self).byte_lookups.spec_total() + evs@.len() <= u64::MAX,
        ensures
            final(self).byte_lookups.wf(),
            forall|k: ByteLookupEvent|
                final(self).byte_lookups.multiplicity(k) == old(self).byte_lookups.multiplicity(k)
                    + crate::byte::count_in(evs@, k),
            final(self).byte_lookups.spec_total() == old(self).byte_lookups.spec_total()
                + evs@.len(),
            *final(self) == (ExecutionRecord { byte_lookups: final(self).byte_lookups, ..*old(self) }),
    {
        self.byte_lookups.add_byte_lookup_events(evs);
    }

    /// Merges the private per-chunk multiplicity maps of a parallel
    /// dependency pass into the shard's map, summing multiplicities.
    #[verifier::loop_isolation(false)]
    pub fn add_sharded_byte_lookup_events(&mut self, maps: &Vec<ByteLookupMap>)
        requires
            old(self).byte_lookups.wf(),
            forall|i: int| 0 <= i < maps@.len() ==> (#[trigger] maps@[i]).wf(),
            old(self).byte_lookups.spec_total() + crate::byte::maps_total(maps@) <= u64::MAX,
        ensures
            final(self).byte_lookups.wf(),
            forall|k: ByteLookupEvent|
                final(self).byte_lookups.multiplicity(k) == old(self).byte_lookups.multiplicity(k)
                    + crate::byte::maps_mult(maps@, k),
            final(self).byte_lookups.spec_total() == old(self).byte_lookups.spec_total()
                + crate::byte::maps_total(maps@),
            *final(self) == (ExecutionRecord { byte_lookups: final(self).byte_lookups, ..*old(self) }),
    {
        let n = maps.len();
        let mut i: usize = 0;
        proof {
            lemma_maps_take_step(maps@, 0);
        }
        while i < n
            invariant
                0 <= i <= n,
                self.byte_lookups.wf(),
                self.byte_lookups.spec_total() == old(self).byte_lookups.spec_total()
                    + crate::byte::maps_total(maps@.take(i as int)),
                forall|k: ByteLookupEvent|
                    self.byte_lookups.multiplicity(k) == old(self).byte_lookups.multiplicity(k)
                        + crate::byte::maps_mult(maps@.take(i as int), k),
                *self == (ExecutionRecord { byte_lookups: self.byte_lookups, ..*old(self) }),
            decreases n - i,
        {
            proof {
                lemma_maps_take_step(maps@, i + 1);
                lemma_maps_total_take_le(maps@, i + 1);
                lemma_maps_total_nonneg(maps@.take(i as int));
            }
            let m = &maps[i];
            self.byte_lookups.merge(m);
            i += 1;
        }
        proof {
            assert(maps@.take(n as int) =~= maps@);
        }
    }
}

proof fn lemma_maps_take_step(s: Seq<ByteLookupMap>, i: int)
    requires
        0 <= i <= s.len(),
    ensures
        i > 0 ==> crate::byte::maps_total(s.take(i)) == crate::byte::maps_total(s.take(i - 1))
            + s[i - 1].spec_total(),
        i > 0 ==> forall|k: ByteLookupEvent|
            crate::byte::maps_mult(s.take(i), k) == crate::byte::maps_mult(s.take(i - 1), k) + s[i
                - 1].multiplicity(k),
        i == 0 ==> crate::byte::maps_total(s.take(0)) == 0 && forall|k: ByteLookupEvent|
            crate::byte::maps_mult(s.take(0), k) == 0,
{
    if i > 0 {
        assert(s.take(i).drop_last() =~= s.take(i - 1));
        assert(s.take(i).last() == s[i - 1]);
    }
}

proof fn lemma_maps_total_nonneg(s: Seq<ByteLookupMap>)
    ensures
        0 <= crate::byte::maps_total(s),
    decreases s.len(),
{
    if s.len() > 0 {
        lemma_maps_total_nonneg(s.drop_last());
        crate::byte::lemma_total_nonneg(s.last());
    }
}

proof fn lemma_maps_total_take_le(s: Seq<ByteLookupMap>, i: int)
    requires
        0 <= i <= s.len(),
    ensures
        crate::byte::maps_total(s.take(i)) <= crate::byte::maps_total(s),
    decreases s.len() - i,
{
    if i == s.len() {
        assert(s.take(i) =~= s);
    } else {
        lemma_maps_total_take_le(s, i + 1);
        assert(s.take(i + 1).drop_last() =~= s.take(i));
        assert(s.take(i + 1).last() == s[i]);
        crate::byte::lemma_total_nonneg(s[i]);
    }
}

} // verus!
