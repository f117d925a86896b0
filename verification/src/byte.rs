//! The shared byte-lookup subsystem: a multiset of range-check requests with
//! multiplicities. Chunks processed independently each produce a local map,
//! merged afterwards by summing multiplicities; the merge is commutative and
//! associative, so the result is independent of the chunking.
use vstd::prelude::*;

verus! {

/// The kind of a byte-table check.
#[derive(Clone, Copy, Debug, PartialEq, Eq, Structural, Hash)]
pub enum ByteOpcode {
    /// Byte-wise xor of two bytes.
    Xor,
    /// Range check: the operands are bytes.
    U8Range,
    /// Range check: the first operand is a 16-bit value.
    U16Range,
}

/// One range-check request: the shard, the check kind, and the operand bytes.
#[derive(Clone, Copy, Debug, PartialEq, Eq, Structural, Hash)]
pub struct ByteLookupEvent {
    /// The shard the request belongs to.
    pub shard: u32,
    /// The check kind.
    pub opcode: ByteOpcode,
    /// The first output operand.
    pub a1: u16,
    /// The second output operand.
    pub a2: u8,
    /// The first input operand.
    pub b: u8,
    /// The second input operand.
    pub c: u8,
}

impl ByteLookupEvent {
    /// Creates a new `ByteLookupEvent`.
    pub fn new(shard: u32, opcode: ByteOpcode, a1: u16, a2: u8, b: u8, c: u8) -> (r:
        ByteLookupEvent)
        ensures
            r == (ByteLookupEvent { shard, opcode, a1, a2, b, c }),
    {
        ByteLookupEvent { shard, opcode, a1, a2, b, c }
    }
}

/// The number of occurrences of `e` in `s`.
pub open spec fn count_in(s: Seq<ByteLookupEvent>, e: ByteLookupEvent) -> int
    decreases s.len(),
{
    if s.len() == 0 {
        0
    } else {
        count_in(s.drop_last(), e) + if s.last() == e {
            1int
        } else {
            0int
        }
    }
}

/// The multiplicity recorded for `e` by a sequence of map entries.
pub open spec fn entries_mult(s: Seq<(ByteLookupEvent, u64)>, e: ByteLookupEvent) -> int
    decreases s.len(),
{
    if s.len() == 0 {
        0
    } else {
        entries_mult(s.drop_last(), e) + if s.last().0 == e {
            s.last().1 as int
        } else {
            0int
        }
    }
}

/// The sum of the multiplicities of a sequence of map entries.
pub open spec fn entries_sum(s: Seq<(ByteLookupEvent, u64)>) -> int
    decreases s.len(),
{
    if s.len() == 0 {
        0
    } else {
        entries_sum(s.drop_last()) + s.last().1 as int
    }
}

/// Occurrence counting distributes over concatenation: counting in `a + b`
/// is counting in `a` plus counting in `b`.
pub proof fn lemma_count_in_concat(a: Seq<ByteLookupEvent>, b: Seq<ByteLookupEvent>, e:
    ByteLookupEvent)
    ensures
        count_in(a + b, e) == count_in(a, e) + count_in(b, e),
    decreases b.len(),
{
    if b.len() == 0 {
        assert(a + b =~= a);
    } else {
        lemma_count_in_concat(a, b.drop_last(), e);
        assert((a + b).drop_last() =~= a + b.drop_last());
        assert((a + b).last() == b.last());
    }
}

proof fn lemma_entries_mult_nonneg(s: Seq<(ByteLookupEvent, u64)>, e: ByteLookupEvent)
    ensures
        0 <= entries_mult(s, e),
    decreases s.len(),
{
    if s.len() > 0 {
        lemma_entries_mult_nonneg(s.drop_last(), e);
    }
}

proof fn lemma_entries_sum_nonneg(s: Seq<(ByteLookupEvent, u64)>)
    ensures
        0 <= entries_sum(s),
    decreases s.len(),
{
    if s.len() > 0 {
        lemma_entries_sum_nonneg(s.drop_last());
    }
}

proof fn lemma_entry_le_sum(s: Seq<(ByteLookupEvent, u64)>, j: int)
    requires
        0 <= j < s.len(),
    ensures
        s[j].1 as int <= entries_sum(s),
    decreases s.len(),
{
    lemma_entries_sum_nonneg(s.drop_last());
    if j < s.len() - 1 {
        lemma_entry_le_sum(s.drop_last(), j);
    }
}

proof fn lemma_entries_mult_update(
    s: Seq<(ByteLookupEvent, u64)>,
    j: int,
    x: (ByteLookupEvent, u64),
    e: ByteLookupEvent,
)
    requires
        0 <= j < s.len(),
    ensures
        entries_mult(s.update(j, x), e) == entries_mult(s, e) + (if x.0 == e {
            x.1 as int
        } else {
            0int
        }) - (if s[j].0 == e {
            s[j].1 as int
        } else {
            0int
        }),
    decreases s.len(),
{
    let t = s.update(j, x);
    if j == s.len() - 1 {
        assert(t.drop_last() =~= s.drop_last());
        assert(t.last() == x);
    } else {
        assert(t.drop_last() =~= s.drop_last().update(j, x));
        assert(t.last() == s.last());
        lemma_entries_mult_update(s.drop_last(), j, x, e);
    }
}

proof fn lemma_entries_sum_update(s: Seq<(ByteLookupEvent, u64)>, j: int, x: (ByteLookupEvent,
    u64))
    requires
        0 <= j < s.len(),
    ensures
        entries_sum(s.update(j, x)) == entries_sum(s) + x.1 as int - s[j].1 as int,
    decreases s.len(),
{
    let t = s.update(j, x);
    if j == s.len() - 1 {
        assert(t.drop_last() =~= s.drop_last());
        assert(t.last() == x);
    } else {
        assert(t.drop_last() =~= s.drop_last().update(j, x));
        assert(t.last() == s.last());
        lemma_entries_sum_update(s.drop_last(), j, x);
    }
}

/// With pairwise distinct keys, the recorded multiplicity of a key that is
/// absent from the entries is zero, and the multiplicity of a present key is
/// exactly its entry's value.
proof fn lemma_entries_mult_absent(s: Seq<(ByteLookupEvent, u64)>, e: ByteLookupEvent)
    requires
        forall|i: int| 0 <= i < s.len() ==> (#[trigger] s[i]).0 != e,
    ensures
        entries_mult(s, e) == 0,
    decreases s.len(),
{
    if s.len() > 0 {
        lemma_entries_mult_absent(s.drop_last(), e);
    }
}

/// An accumulated multiset of range-check requests with multiplicities.
pub struct ByteLookupMap {
    /// The (key, multiplicity) entries; keys are pairwise distinct and each
    /// multiplicity is at least one.
    entries: Vec<(ByteLookupEvent, u64)>,
    /// The sum of all multiplicities.
    total: u64,
}

impl ByteLookupMap {
    /// Internal consistency: distinct keys, positive multiplicities, and a
    /// running total equal to the sum of all multiplicities.
    pub closed spec fn wf(self) -> bool {
        &&& forall|i: int, j: int|
            0 <= i < j < self.entries@.len() ==> (#[trigger] self.entries@[i]).0 != (
            #[trigger] self.entries@[j]).0
        &&& forall|i: int| 0 <= i < self.entries@.len() ==> (#[trigger] self.entries@[i]).1 >= 1
        &&& self.total as int == entries_sum(self.entries@)
    }

    /// The multiplicity recorded for `e`.
    pub closed spec fn multiplicity(self, e: ByteLookupEvent) -> int {
        entries_mult(self.entries@, e)
    }

    /// The sum of all recorded multiplicities.
    pub closed spec fn spec_total(self) -> int {
        self.total as int
    }

    /// Two maps record the same multiset when every request has the same
    /// multiplicity in both.
    pub open spec fn same_multiplicities(self, other: ByteLookupMap) -> bool {
        forall|e: ByteLookupEvent| self.multiplicity(e) == other.multiplicity(e)
    }

    /// Creates an empty map.
    pub fn new() -> (r: ByteLookupMap)
        ensures
            r.wf(),
            r.spec_total() == 0,
            forall|e: ByteLookupEvent| r.multiplicity(e) == 0,
    {
        ByteLookupMap { entries: Vec::new(), total: 0 }
    }

    /// Records `m` further occurrences of `e`.
    #[verifier::loop_isolation(false)]
    pub fn add_count(&mut self, e: ByteLookupEvent, m: u64)
        requires
            old(self).wf(),
            m >= 1,
            old(self).spec_total() + m <= u64::MAX,
        ensures
            final(self).wf(),
            final(self).multiplicity(e) == old(self).multiplicity(e) + m,
            forall|k: ByteLookupEvent|
                k != e ==> final(self).multiplicity(k) == old(self).multiplicity(k),
            final(self).spec_total() == old(self).spec_total() + m,
    {
        let n = self.entries.len();
        let mut j: usize = 0;
        while j < n
            invariant
                n == self.entries@.len(),
                0 <= j <= n,
                forall|i: int| 0 <= i < j ==> (#[trigger] self.entries@[i]).0 != e,
                *self == *old(self),
            decreases n - j,
        {
            if self.entries[j].0 == e {
                let cur = self.entries[j].1;
                proof {
                    lemma_entry_le_sum(self.entries@, j as int);
                    lemma_entries_mult_update(
                        self.entries@,
                        j as int,
                        (e, (cur + m) as u64),
                        e,
                    );
                    lemma_entries_sum_update(self.entries@, j as int, (e, (cur + m) as u64));
                }
                self.entries[j] = (e, cur + m);
                self.total = self.total + m;
                proof {
                    assert forall|k: ByteLookupEvent| k != e implies final(self).multiplicity(k)
                        == old(self).multiplicity(k) by {
                        lemma_entries_mult_update(
                            old(self).entries@,
                            j as int,
                            (e, (cur + m) as u64),
                            k,
                        );
                    }
                }
                return ;
            }
            j += 1;
        }
        proof {
            lemma_entries_mult_absent(self.entries@, e);
        }
        self.entries.push((e, m));
        self.total = self.total + m;
        proof {
            assert(self.entries@.drop_last() =~= old(self).entries@);
            assert forall|k: ByteLookupEvent| k != e implies final(self).multiplicity(k) == old(
                self).multiplicity(k) by {
                assert(self.entries@.drop_last() =~= old(self).entries@);
            }
        }
    }

    /// Records one occurrence of `e`.
    pub fn add_byte_lookup_event(&mut self, e: ByteLookupEvent)
        requires
            old(self).wf(),
            old(self).spec_total() + 1 <= u64::MAX,
        ensures
            final(self).wf(),
            final(self).multiplicity(e) == old(self).multiplicity(e) + 1,
            forall|k: ByteLookupEvent|
                k != e ==> final(self).multiplicity(k) == old(self).multiplicity(k),
            final(self).spec_total() == old(self).spec_total() + 1,
    {
        self.add_count(e, 1);
    }

    /// Records one occurrence of each event in `evs`, in order. The resulting
    /// multiplicity of every request grows by its occurrence count in `evs`.
    #[verifier::loop_isolation(false)]
    pub fn add_byte_lookup_events(&mut self, evs: &Vec<ByteLookupEvent>)
        requires
            old(self).wf(),
            old(self).spec_total() + evs@.len() <= u64::MAX,
        ensures
            final(self).wf(),
            forall|k: ByteLookupEvent|
                final(self).multiplicity(k) == old(self).multiplicity(k) + count_in(evs@, k),
            final(self).spec_total() == old(self).spec_total() + evs@.len(),
    {
        let n = evs.len();
        let mut i: usize = 0;
        while i < n
            invariant
                n == evs@.len(),
                0 <= i <= n,
                self.wf(),
                self.spec_total() == old(self).spec_total() + i,
                forall|k: ByteLookupEvent|
                    self.multiplicity(k) == old(self).multiplicity(k) + count_in(
                        evs@.take(i as int),
                        k,
                    ),
            decreases n - i,
        {
            let e = evs[i];
            proof {
                assert forall|k: ByteLookupEvent|
                    count_in(evs@.take(i + 1), k) == count_in(evs@.take(i as int), k) + (if e == k {
                        1int
                    } else {
                        0int
                    }) by {
                    assert(evs@.take(i + 1).drop_last() =~= evs@.take(i as int));
                    assert(evs@.take(i + 1).last() == evs@[i as int]);
                }
                assert forall|k: ByteLookupEvent|
                    0 <= #[trigger] count_in(evs@.take(i as int), k) <= i by {
                    lemma_count_in_bounds(evs@.take(i as int), k);
                }
            }
            self.add_byte_lookup_event(e);
            i += 1;
        }
        proof {
            assert(evs@.take(n as int) =~= evs@);
        }
    }

    /// Merges another map into this one by summing multiplicities pointwise.
    #[verifier::loop_isolation(false)]
    pub fn merge(&mut self, other: &ByteLookupMap)
        requires
            old(self).wf(),
            other.wf(),
            old(self).spec_total() + other.spec_total() <= u64::MAX,
        ensures
            final(self).wf(),
            forall|k: ByteLookupEvent|
                final(self).multiplicity(k) == old(self).multiplicity(k) + other.multiplicity(k),
            final(self).spec_total() == old(self).spec_total() + other.spec_total(),
    {
        let n = other.entries.len();
        let mut i: usize = 0;
        while i < n
            invariant
                n == other.entries@.len(),
                0 <= i <= n,
                self.wf(),
                other.wf(),
                old(self).spec_total() + other.spec_total() <= u64::MAX,
                self.spec_total() == old(self).spec_total() + entries_sum(
                    other.entries@.take(i as int),
                ),
                forall|k: ByteLookupEvent|
                    self.multiplicity(k) == old(self).multiplicity(k) + entries_mult(
                        other.entries@.take(i as int),
                        k,
                    ),
            decreases n - i,
        {
            let (e, m) = other.entries[i];
            proof {
                assert(other.entries@.take(i + 1).drop_last() =~= other.entries@.take(i as int));
                assert(other.entries@.take(i + 1).last() == other.entries@[i as int]);
                lemma_entries_sum_take_le(other.entries@, i + 1);
                lemma_entries_sum_nonneg(other.entries@.take(i as int));
                assert forall|k: ByteLookupEvent|
                    entries_mult(other.entries@.take(i + 1), k) == entries_mult(
                        other.entries@.take(i as int),
                        k,
                    ) + (if e == k {
                        m as int
                    } else {
                        0int
                    }) by {
                    assert(other.entries@.take(i + 1).drop_last() =~= other.entries@.take(
                        i as int,
                    ));
                }
            }
            self.add_count(e, m);
            i += 1;
        }
        proof {
            assert(other.entries@.take(n as int) =~= other.entries@);
        }
    }

    /// Returns the multiplicity recorded for `e`.
    #[verifier::loop_isolation(false)]
    pub fn get_multiplicity(&self, e: ByteLookupEvent) -> (r: u64)
        requires
            self.wf(),
        ensures
            r as int == self.multiplicity(e),
    {
        let n = self.entries.len();
        let mut j: usize = 0;
        while j < n
            invariant
                n == self.entries@.len(),
                0 <= j <= n,
                self.wf(),
                forall|i: int| 0 <= i < j ==> (#[trigger] self.entries@[i]).0 != e,
            decreases n - j,
        {
            if self.entries[j].0 == e {
                proof {
                    lemma_entries_mult_distinct_found(self.entries@, j as int, e);
                }
                return self.entries[j].1;
            }
            j += 1;
        }
        proof {
            lemma_entries_mult_absent(self.entries@, e);
        }
        0
    }

    /// Returns the sum of all recorded multiplicities.
    pub fn total(&self) -> (r: u64)
        ensures
            r as int == self.spec_total(),
    {
        self.total
    }

}

/// A map's total is never negative.
pub proof fn lemma_total_nonneg(m: ByteLookupMap)
    ensures
        0 <= m.spec_total(),
{
}

/// The multiplicity that a sequence of maps together records for `e`.
pub open spec fn maps_mult(s: Seq<ByteLookupMap>, e: ByteLookupEvent) -> int
    decreases s.len(),
{
    if s.len() == 0 {
        0
    } else {
        maps_mult(s.drop_last(), e) + s.last().multiplicity(e)
    }
}

/// The sum of the totals of a sequence of maps.
pub open spec fn maps_total(s: Seq<ByteLookupMap>) -> int
    decreases s.len(),
{
    if s.len() == 0 {
        0
    } else {
        maps_total(s.drop_last()) + s.last().spec_total()
    }
}

proof fn lemma_count_in_bounds(s: Seq<ByteLookupEvent>, e: ByteLookupEvent)
    ensures
        0 <= count_in(s, e) <= s.len(),
    decreases s.len(),
{
    if s.len() > 0 {
        lemma_count_in_bounds(s.drop_last(), e);
    }
}

proof fn lemma_entries_sum_take_le(s: Seq<(ByteLookupEvent, u64)>, i: int)
    requires
        0 <= i <= s.len(),
    ensures
        entries_sum(s.take(i)) <= entries_sum(s),
    decreases s.len() - i,
{
    if i == s.len() {
        assert(s.take(i) =~= s);
    } else {
        lemma_entries_sum_take_le(s, i + 1);
        assert(s.take(i + 1).drop_last() =~= s.take(i));
        assert(s.take(i + 1).last() == s[i]);
    }
}

proof fn lemma_entries_mult_distinct_found(s: Seq<(ByteLookupEvent, u64)>, j: int, e:
    ByteLookupEvent)
    requires
        forall|i1: int, i2: int|
            0 <= i1 < i2 < s.len() ==> (#[trigger] s[i1]).0 != (#[trigger] s[i2]).0,
        0 <= j < s.len(),
        s[j].0 == e,
    ensures
        entries_mult(s, e) == s[j].1 as int,
    decreases s.len(),
{
    if j == s.len() - 1 {
        assert forall|i: int| 0 <= i < s.drop_last().len() implies (
        #[trigger] s.drop_last()[i]).0 != e by {
            assert(s[i].0 != s[j].0);
        }
        lemma_entries_mult_absent(s.drop_last(), e);
    } else {
        assert(s.last().0 != e) by {
            assert(s[j].0 != s[s.len() - 1].0);
        }
        lemma_entries_mult_distinct_found(s.drop_last(), j, e);
    }
}

} // verus!
