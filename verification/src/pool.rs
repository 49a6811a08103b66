//! Fixed-capacity slot pool.
//!
//! A [`BitPool`] keeps up to 32 item slots and one `u32` mask with one bit
//! per slot.  Allocation finds the lowest clear bit, sets it and stores the
//! item; freeing clears the bit and moves the item out.  A [`PoolBox`] is the
//! move-only ownership token for one allocated slot: it is only ever produced
//! by a successful allocation, so each live slot has exactly one owner.

use vstd::prelude::*;

verus! {

/// Greatest number of slots a pool may have: one bit per slot in the mask.
pub const MAX_SLOTS: usize = 32;

/// Move-only ownership token for one allocated pool slot.
pub struct PoolBox {
    index: usize,
}

impl PoolBox {
    /// The slot index this handle owns.
    pub closed spec fn idx(self) -> int {
        self.index as int
    }

    /// Read the slot index.
    pub fn slot(&self) -> (i: usize)
        ensures
            i == self.idx(),
    {
        self.index
    }
}

/// Whether bit `i` of `mask` is set.
pub open spec fn bit_set(mask: u32, i: u32) -> bool {
    (mask >> i) & 1u32 == 1u32
}

/// How many slots of `s` hold a live item.
pub open spec fn count_used<T>(s: Seq<Option<T>>) -> nat
    decreases s.len(),
{
    if s.len() == 0 {
        0
    } else {
        count_used(s.drop_last()) + (if s.last() is Some {
            1nat
        } else {
            0nat
        })
    }
}

/// Fixed-capacity slot allocator over an array of item slots plus a bitmask,
/// one bit per slot.  Invariant: bit `i` is set exactly when slot `i` holds a
/// live, not-yet-freed item.
pub struct BitPool<T> {
    used: u32,
    slots: Vec<Option<T>>,
}

impl<T> View for BitPool<T> {
    type V = Seq<Option<T>>;

    closed spec fn view(&self) -> Seq<Option<T>> {
        self.slots@
    }
}

impl<T> BitPool<T> {
    /// The number of slots.
    pub open spec fn capacity(self) -> nat {
        self@.len()
    }

    /// The number of live (allocated, unfreed) slots.
    pub open spec fn num_used(self) -> nat {
        count_used(self@)
    }

    /// The mask agrees with the slots: bit `i` is set exactly when slot `i`
    /// holds a live item, and no bit beyond the capacity is ever set.
    pub closed spec fn wf(self) -> bool {
        &&& self.slots@.len() <= MAX_SLOTS
        &&& forall|i: u32|
            i < 32 ==> (#[trigger] bit_set(self.used, i) <==> (i < self.slots@.len()
                && self.slots@[i as int] is Some))
    }

    /// Create a pool of `capacity` empty slots.
    pub fn new(capacity: usize) -> (p: Self)
        requires
            capacity <= MAX_SLOTS,
        ensures
            p.wf(),
            p@.len() == capacity,
            forall|i: int| 0 <= i < capacity ==> p@[i] is None,
            p.num_used() == 0,
    {
        let mut slots: Vec<Option<T>> = Vec::new();
        while slots.len() < capacity
            invariant
                slots.len() <= capacity,
                forall|i: int| 0 <= i < slots.len() ==> slots@[i] is None,
            decreases capacity - slots.len(),
        {
            slots.push(None);
        }
        let p = BitPool { used: 0u32, slots };
        proof {
            assert forall|i: u32| i < 32 implies !bit_set(p.used, i) by {
                assert((0u32 >> i) & 1u32 == 0u32) by (bit_vector);
            }
            lemma_count_used_all_none(p@);
        }
        p
    }

    /// Allocate the lowest free slot and store `item` in it.
    ///
    /// Returns `None` exactly when every slot is live (the backpressure
    /// signal); the pool is then left unchanged.  On success the returned
    /// handle owns a slot that held no item before, so no two live handles
    /// ever share a slot.
    pub fn allocate(&mut self, item: T) -> (r: Option<PoolBox>)
        requires
            old(self).wf(),
        ensures
            final(self).wf(),
            r is Some <==> old(self).num_used() < old(self)@.len(),
            match r {
                Some(b) => {
                    &&& 0 <= b.idx() < old(self)@.len()
                    &&& old(self)@[b.idx()] is None
                    &&& forall|j: int| 0 <= j < b.idx() ==> old(self)@[j] is Some
                    &&& final(self)@ == old(self)@.update(b.idx(), Some(item))
                    &&& final(self).num_used() == old(self).num_used() + 1
                },
                None => {
                    &&& final(self)@ == old(self)@
                    &&& forall|j: int| 0 <= j < old(self)@.len() ==> old(self)@[j] is Some
                },
            },
    {
        broadcast use vstd::std_specs::bits::group_bits_axioms;

        let n32: u32 = self.used.trailing_ones();
        let len = self.slots.len();
        if n32 >= len as u32 {
            proof {
                assert forall|j: int| 0 <= j < self@.len() implies self@[j] is Some by {
                    assert(bit_set(self.used, j as u32)) by {
                        assert((self.used >> (j as u32)) & 1u32 == 1u32);
                    }
                }
                lemma_count_used_all_some(self@);
            }
            return None;
        }
        let n = n32 as usize;
        let ghost old_used = self.used;
        proof {
            assert(n32 < 32);
            assert((old_used >> n32) & 1u32 == 0u32);
            assert(!bit_set(old_used, n32));
            assert(self.slots@[n as int] is None);
            assert forall|j: int| 0 <= j < n as int implies self.slots@[j] is Some by {
                assert((old_used >> (j as u32)) & 1u32 == 1u32);
                assert(bit_set(old_used, j as u32));
            }
        }
        self.used = self.used | (1u32 << n32);
        self.slots[n] = Some(item);
        proof {
            assert forall|i: u32| i < 32 implies (#[trigger] bit_set(self.used, i) <==> (i == n32
                || bit_set(old_used, i))) by {
                let m = self.used;
                assert(((m >> i) & 1u32 == 1u32) <==> (i == n32 || (old_used >> i) & 1u32
                    == 1u32)) by (bit_vector)
                    requires
                        m == old_used | (1u32 << n32),
                        n32 < 32u32,
                        i < 32u32,
                ;
            }
        }
        proof {
            lemma_count_used_update(old(self)@, n as int, Some(item));
            lemma_count_used_le_len(old(self)@);
            if old(self).num_used() == old(self)@.len() {
                lemma_count_used_full(old(self)@);
            }
        }
        Some(PoolBox { index: n })
    }

    /// Free the slot owned by `b`, returning the item it held.
    ///
    /// The handle came from a still-live allocation on this pool, which its
    /// precondition records; it is consumed here, so a slot can only be freed
    /// once per allocation.
    pub fn free(&mut self, b: PoolBox) -> (item: T)
        requires
            old(self).wf(),
            0 <= b.idx() < old(self)@.len(),
            old(self)@[b.idx()] is Some,
        ensures
            final(self).wf(),
            old(self)@[b.idx()] == Some(item),
            final(self)@ == old(self)@.update(b.idx(), None),
            final(self).num_used() == old(self).num_used() - 1,
    {
        proof {
            lemma_count_used_update(old(self)@, b.idx(), None);
        }
        let i = b.index;
        let ghost old_used = self.used;
        self.used = self.used & !(1u32 << (i as u32));
        proof {
            assert forall|j: u32| j < 32 implies (#[trigger] bit_set(self.used, j) <==> (j
                != i as u32 && bit_set(old_used, j))) by {
                let m = self.used;
                let iu = i as u32;
                assert(((m >> j) & 1u32 == 1u32) <==> (j != iu && (old_used >> j) & 1u32
                    == 1u32)) by (bit_vector)
                    requires
                        m == old_used & !(1u32 << iu),
                        iu < 32u32,
                        j < 32u32,
                ;
            }
        }
        let slot = &mut self.slots[i];
        let taken = slot.take();
        match taken {
            Some(item) => item,
            None => vstd::pervasive::unreached(),
        }
    }

    /// Swap the item held by the live slot owned by `b` for `item`,
    /// returning the previous item.  The slot stays live and the handle
    /// stays valid.
    pub fn replace(&mut self, b: &PoolBox, item: T) -> (prev: T)
        requires
            old(self).wf(),
            0 <= b.idx() < old(self)@.len(),
            old(self)@[b.idx()] is Some,
        ensures
            final(self).wf(),
            old(self)@[b.idx()] == Some(prev),
            final(self)@ == old(self)@.update(b.idx(), Some(item)),
            final(self).num_used() == old(self).num_used(),
    {
        proof {
            lemma_count_used_update(old(self)@, b.idx(), Some(item));
        }
        let slot = &mut self.slots[b.index];
        let taken = slot.take();
        *slot = Some(item);
        match taken {
            Some(prev) => prev,
            None => vstd::pervasive::unreached(),
        }
    }

    /// How many slots currently hold a live item.
    pub fn num_live(&self) -> (n: usize)
        ensures
            n == self.num_used(),
    {
        let mut n: usize = 0;
        let mut i: usize = 0;
        while i < self.slots.len()
            invariant
                i <= self.slots@.len(),
                n == count_used(self.slots@.take(i as int)),
                n <= i,
            decreases self.slots@.len() - i,
        {
            proof {
                assert(self.slots@.take(i + 1).drop_last() =~= self.slots@.take(i as int));
                assert(self.slots@.take(i + 1).last() == self.slots@[i as int]);
            }
            if self.slots[i].is_some() {
                n = n + 1;
            }
            i = i + 1;
        }
        proof {
            assert(self.slots@.take(i as int) =~= self.slots@);
        }
        n
    }

    /// Whether slot `i` currently holds a live item.
    pub fn is_live(&self, i: usize) -> (r: bool)
        requires
            i < self@.len(),
        ensures
            r == (self@[i as int] is Some),
    {
        self.slots[i].is_some()
    }
}

/// A count of live slots never exceeds the length of the slot array.
pub proof fn lemma_count_used_le_len<T>(s: Seq<Option<T>>)
    ensures
        count_used(s) <= s.len(),
    decreases s.len(),
{
    if s.len() > 0 {
        lemma_count_used_le_len(s.drop_last());
    }
}

/// A slot array with no live slot has live count zero.
pub proof fn lemma_count_used_all_none<T>(s: Seq<Option<T>>)
    requires
        forall|i: int| 0 <= i < s.len() ==> s[i] is None,
    ensures
        count_used(s) == 0,
    decreases s.len(),
{
    if s.len() > 0 {
        lemma_count_used_all_none(s.drop_last());
    }
}

/// A slot array with every slot live has live count equal to its length.
pub proof fn lemma_count_used_all_some<T>(s: Seq<Option<T>>)
    requires
        forall|i: int| 0 <= i < s.len() ==> s[i] is Some,
    ensures
        count_used(s) == s.len(),
    decreases s.len(),
{
    if s.len() > 0 {
        lemma_count_used_all_some(s.drop_last());
    }
}

/// A pool whose live count equals its capacity has no free slot left.
pub proof fn lemma_count_used_full<T>(s: Seq<Option<T>>)
    requires
        count_used(s) == s.len(),
    ensures
        forall|i: int| 0 <= i < s.len() ==> s[i] is Some,
    decreases s.len(),
{
    if s.len() > 0 {
        lemma_count_used_le_len(s.drop_last());
        lemma_count_used_full(s.drop_last());
        assert forall|i: int| 0 <= i < s.len() implies s[i] is Some by {
            if i < s.len() - 1 {
                assert(s.drop_last()[i] is Some);
            } else {
                assert(s[i] == s.last());
            }
        }
    }
}

/// Updating one slot changes the live count by exactly the difference the
/// update makes at that slot.
pub proof fn lemma_count_used_update<T>(s: Seq<Option<T>>, i: int, v: Option<T>)
    requires
        0 <= i < s.len(),
    ensures
        count_used(s.update(i, v)) == count_used(s) + (if v is Some {
            1int
        } else {
            0int
        }) - (if s[i] is Some {
            1int
        } else {
            0int
        }),
    decreases s.len(),
{
    if s.len() > 0 {
        if i == s.len() - 1 {
            assert(s.update(i, v).drop_last() =~= s.drop_last());
            assert(s.update(i, v).last() == v);
        } else {
            lemma_count_used_update(s.drop_last(), i, v);
            assert(s.update(i, v).drop_last() =~= s.drop_last().update(i, v));
            assert(s.update(i, v).last() == s.last());
        }
    }
}

/// Pool round-trip law, bound part: however allocations and frees are
/// interleaved, the number of live handles never exceeds the pool capacity,
/// since each live handle owns one distinct live slot.
pub proof fn lemma_live_handles_bounded<T>(p: BitPool<T>)
    ensures
        p.num_used() <= p.capacity(),
{
    lemma_count_used_le_len(p@);
}

/// Pool round-trip law, aliasing part: a freshly allocated slot (free at
/// the moment of allocation, as the allocation contract guarantees) is
/// never a slot a live handle already owns, so two live handles always own
/// distinct slots and their backing memory is never aliased.
pub proof fn lemma_fresh_slot_not_aliased<T>(p: BitPool<T>, fresh: int, live: int)
    requires
        0 <= fresh < p@.len(),
        p@[fresh] is None,
        0 <= live < p@.len(),
        p@[live] is Some,
    ensures
        fresh != live,
{
}

/// Pool exhaustion law, rejection part: once every slot is live — as after
/// `capacity` successful allocations — the allocator has no free slot, so the
/// next allocation reports "no space".
pub proof fn lemma_saturated_pool_has_no_free_slot<T>(p: BitPool<T>)
    requires
        p.num_used() == p.capacity(),
    ensures
        forall|i: int| 0 <= i < p@.len() ==> p@[i] is Some,
{
    lemma_count_used_full(p@);
}

/// Pool exhaustion law, recovery part: a pool with a free slot is not
/// saturated, so the next allocation succeeds (and, by the allocation
/// contract, hands out a slot index below the capacity).
pub proof fn lemma_freed_slot_enables_alloc<T>(p: BitPool<T>, i: int)
    requires
        0 <= i < p@.len(),
        p@[i] is None,
    ensures
        exists|j: int| 0 <= j < p@.len() && p@[j] is None,
        p.num_used() < p.capacity(),
{
    assert(0 <= i < p@.len() && p@[i] is None);
    if p.num_used() == p.capacity() {
        lemma_count_used_full(p@);
    }
    lemma_count_used_le_len(p@);
}

} // verus!
