use vstd::prelude::*;

use crate::error::Error;
use crate::kit::allocator::IndexAllocatorView;
use crate::kit::config::CSPACE_DEPTH;
use crate::kit::obj::{slot_number, CNodePath, ROOT_CNODE_SELF_INDEX};

verus! {

/// Size in bits of the untyped unit that backs one task.
pub const ALLOC_SIZE_BITS: usize = 19;

/// Hands out indices, preferring the most recently recycled one over the
/// next fresh index in `[next, max)`.
pub struct IndexAllocator {
    next: usize,
    max: usize,
    recycled: Vec<u64>,
}

/// What `alloc` does to an allocator in state `s`, and what it returns.
pub open spec fn recycled_first_alloc_step(s: IndexAllocatorView) -> (IndexAllocatorView, Option<usize>) {
    if s.recycled.len() > 0 {
        (
            IndexAllocatorView { next: s.next, max: s.max, recycled: s.recycled.drop_last() },
            Some(s.recycled.last() as usize),
        )
    } else if s.next < s.max {
        (IndexAllocatorView { next: (s.next + 1) as usize, max: s.max, recycled: s.recycled }, Some(s.next))
    } else {
        (s, None)
    }
}

/// What `recycle(index)` does to an allocator in state `s`.
pub open spec fn recycle_step(s: IndexAllocatorView, index: usize) -> IndexAllocatorView {
    IndexAllocatorView { next: s.next, max: s.max, recycled: s.recycled.push(index as u64) }
}

impl View for IndexAllocator {
    type V = IndexAllocatorView;

    closed spec fn view(&self) -> IndexAllocatorView {
        IndexAllocatorView { next: self.next, max: self.max, recycled: self.recycled@ }
    }
}

impl IndexAllocator {
    pub open spec fn wf(&self) -> bool {
        self@.next <= self@.max
    }

    /// Creates an allocator whose fresh indices are `next..max`.
    pub fn new(next: usize, max: usize) -> (r: Self)
        requires
            next <= max,
        ensures
            r.wf(),
            r@ == (IndexAllocatorView { next, max, recycled: Seq::empty() }),
    {
        IndexAllocator { next, max, recycled: Vec::new() }
    }

    /// Allocates an index: the most recently recycled one if any, else the
    /// next fresh one, else `None`.
    pub fn allocate(&mut self) -> (r: Option<usize>)
        requires
            old(self).wf(),
        ensures
            final(self).wf(),
            (final(self)@, r) == recycled_first_alloc_step(old(self)@),
    {
        if let Some(index) = self.recycled.pop() {
            Some(index as usize)
        } else if self.next < self.max {
            let index = self.next;
            self.next += 1;
            Some(index)
        } else {
            None
        }
    }

    /// Gives an index back to the allocator.
    pub fn recycle(&mut self, index: usize)
        requires
            old(self).wf(),
        ensures
            final(self).wf(),
            final(self)@ == recycle_step(old(self)@, index),
    {
        self.recycled.push(index as u64);
    }
}

/// A recycled index is always the next one handed out, whatever the state.
pub proof fn lemma_recycle_then_alloc(s: IndexAllocatorView, index: usize)
    ensures
        recycled_first_alloc_step(recycle_step(s, index)).1 == Some(index),
        recycled_first_alloc_step(recycle_step(s, index)).0 == s,
{
    assert(recycle_step(s, index).recycled.drop_last() =~= s.recycled);
}

/// An index that is handed out and not recycled since is not handed out
/// again, and stays outstanding across the allocation.
pub proof fn lemma_outstanding_index_not_reissued(s: IndexAllocatorView, i: usize)
    requires
        s.next <= s.max,
        i < s.next,
        !s.recycled.contains(i as u64),
        forall|j: int| 0 <= j < s.recycled.len() ==> s.recycled[j] <= usize::MAX,
    ensures
        recycled_first_alloc_step(s).1 != Some(i),
        i < recycled_first_alloc_step(s).0.next,
        !recycled_first_alloc_step(s).0.recycled.contains(i as u64),
{
    let s1 = recycled_first_alloc_step(s).0;
    if s.recycled.len() > 0 {
        assert(s.recycled[s.recycled.len() - 1] == s.recycled.last());
        if s1.recycled.contains(i as u64) {
            let k = choose|k: int| 0 <= k < s1.recycled.len() && s1.recycled[k] == i as u64;
            assert(s.recycled[k] == i as u64);
        }
    }
}

/// Fresh indices are only handed out when nothing is waiting to be reused,
/// and then in increasing order within `[next, max)`.
pub proof fn lemma_fresh_only_when_nothing_recycled(s: IndexAllocatorView)
    requires
        s.next <= s.max,
    ensures
        s.recycled.len() == 0 && s.next < s.max ==> recycled_first_alloc_step(s).1 == Some(s.next),
        s.recycled.len() == 0 && s.next == s.max ==> recycled_first_alloc_step(s).1 is None,
        recycled_first_alloc_step(s).0.next <= recycled_first_alloc_step(s).0.max,
{
}

/// Abstract state of a [`CapSet`].
pub struct CapSetView {
    pub root_cnode: CNodePath,
    pub root_cnode_bits: usize,
    pub indices: IndexAllocatorView,
    pub untyped: u64,
    pub untyped_size: usize,
    pub caps: Seq<usize>,
}

/// The capabilities of one task: a CNode of `2^root_cnode_bits` slots, the
/// untyped memory its objects are retyped from, and the slots filled so far.
pub struct CapSet {
    root_cnode: CNodePath,
    root_cnode_bits: usize,
    index_allocator: IndexAllocator,
    untyped: u64,
    untyped_size: usize,
    caps: Vec<usize>,
}

impl View for CapSet {
    type V = CapSetView;

    closed spec fn view(&self) -> CapSetView {
        CapSetView {
            root_cnode: self.root_cnode,
            root_cnode_bits: self.root_cnode_bits,
            indices: self.index_allocator@,
            untyped: self.untyped,
            untyped_size: self.untyped_size,
            caps: self.caps@,
        }
    }
}

impl CapSet {
    pub open spec fn wf(&self) -> bool {
        &&& self@.indices.next <= self@.indices.max
        &&& self@.root_cnode_bits < usize::BITS
    }

    /// Records a CapSet whose CNode of `2^root_cnode_bits` slots, of
    /// `2^cnode_size_bits` bytes, was just retyped from `untyped_cap` (of
    /// `untyped_size` bytes) and moved to slot `cnode_index` of the root
    /// CSpace; the slots from `start_index` on are free for allocation.
    pub fn new(
        cnode_index: usize,
        root_cnode_bits: usize,
        untyped_cap: u64,
        untyped_size: usize,
        start_index: usize,
        cnode_size_bits: usize,
    ) -> (r: Self)
        requires
            root_cnode_bits < usize::BITS,
            cnode_size_bits < usize::BITS,
            start_index <= (1usize << root_cnode_bits),
            untyped_size >= (1usize << cnode_size_bits),
        ensures
            r.wf(),
            r@ == (CapSetView {
                root_cnode: CNodePath { bits: cnode_index as u64, depth: (CSPACE_DEPTH - root_cnode_bits) as usize },
                root_cnode_bits,
                indices: IndexAllocatorView { next: start_index, max: 1usize << root_cnode_bits, recycled: Seq::empty() },
                untyped: untyped_cap,
                untyped_size: (untyped_size - (1usize << cnode_size_bits)) as usize,
                caps: Seq::empty(),
            }),
    {
        let cnode_size: usize = 1usize << cnode_size_bits;
        CapSet {
            root_cnode: CNodePath { bits: cnode_index as u64, depth: CSPACE_DEPTH - root_cnode_bits },
            root_cnode_bits,
            index_allocator: IndexAllocator::new(start_index, 1usize << root_cnode_bits),
            untyped: untyped_cap,
            untyped_size: untyped_size - cnode_size,
            caps: Vec::new(),
        }
    }

    /// Whether the set satisfies its invariant.
    pub fn is_well_formed(&self) -> (r: bool)
        ensures
            r == self.wf(),
    {
        self.index_allocator.next <= self.index_allocator.max && self.root_cnode_bits < usize::BITS as usize
    }

    /// Whether slot `index` of the set's CNode has a global slot number that
    /// fits in a `usize`.
    pub fn slot_fits(&self, index: usize) -> (r: bool)
        requires
            self.wf(),
        ensures
            r == (slot_number(self@.root_cnode.bits, self@.root_cnode_bits, index) <= usize::MAX),
    {
        ((self.root_cnode.bits as usize) << self.root_cnode_bits).checked_add(index).is_some()
    }

    /// Succeeds when at least `size` bytes of the untyped memory are left.
    pub fn check_available(&self, size: usize) -> (r: Result<(), Error>)
        ensures
            r == (if self@.untyped_size < size { Err(Error::NotEnoughMemory) } else { Ok(()) }),
    {
        if self.untyped_size < size {
            return Err(Error::NotEnoughMemory);
        }
        Ok(())
    }

    /// First half of allocating an object of `2^phys_size_bits` bytes: checks
    /// that it fits in the untyped memory and picks its slot index (`idx`, or
    /// one from the index allocator). The object is then retyped into that
    /// slot, and [`CapSet::record_object`] completes the allocation.
    pub fn reserve_slot(&mut self, phys_size_bits: usize, idx: Option<usize>) -> (r: Result<usize, Error>)
        requires
            old(self).wf(),
            phys_size_bits < usize::BITS,
        ensures
            final(self).wf(),
            final(self)@.root_cnode == old(self)@.root_cnode,
            final(self)@.root_cnode_bits == old(self)@.root_cnode_bits,
            final(self)@.untyped == old(self)@.untyped,
            final(self)@.untyped_size == old(self)@.untyped_size,
            final(self)@.caps == old(self)@.caps,
            old(self)@.untyped_size < (1usize << phys_size_bits) ==> r == Err::<usize, Error>(Error::NotEnoughMemory)
                && final(self)@.indices == old(self)@.indices,
            old(self)@.untyped_size >= (1usize << phys_size_bits) ==> match idx {
                Some(i) => r == Ok::<usize, Error>(i) && final(self)@.indices == old(self)@.indices,
                None => {
                    let (s, got) = recycled_first_alloc_step(old(self)@.indices);
                    &&& final(self)@.indices == s
                    &&& r == match got {
                        Some(i) => Ok::<usize, Error>(i),
                        None => Err(Error::NotEnoughMemory),
                    }
                },
            },
    {
        let phys_size: usize = 1usize << phys_size_bits;
        self.check_available(phys_size)?;
        let index = match idx {
            Some(i) => i,
            None => match self.index_allocator.allocate() {
                Some(i) => i,
                None => return Err(Error::NotEnoughMemory),
            },
        };
        Ok(index)
    }

    /// Second half of an allocation: the object of `2^phys_size_bits` bytes
    /// now sits in slot `index`; its size is taken from the untyped memory,
    /// the slot joins the task's capabilities, and its global slot number
    /// is returned.
    pub fn record_object(&mut self, index: usize, phys_size_bits: usize) -> (slot: usize)
        requires
            old(self).wf(),
            phys_size_bits < usize::BITS,
            old(self)@.untyped_size >= (1usize << phys_size_bits),
            slot_number(old(self)@.root_cnode.bits, old(self)@.root_cnode_bits, index) <= usize::MAX,
        ensures
            final(self).wf(),
            final(self)@ == (CapSetView {
                untyped_size: (old(self)@.untyped_size - (1usize << phys_size_bits)) as usize,
                caps: old(self)@.caps.push(index),
                ..old(self)@
            }),
            slot == slot_number(old(self)@.root_cnode.bits, old(self)@.root_cnode_bits, index),
    {
        let phys_size: usize = 1usize << phys_size_bits;
        self.untyped_size = self.untyped_size - phys_size;
        self.caps.push(index);
        ((self.root_cnode.bits as usize) << self.root_cnode_bits) + index
    }

    /// The global slot number of the CNode's capability to itself.
    pub fn root_cnode(&self) -> (slot: usize)
        requires
            self.wf(),
            slot_number(self@.root_cnode.bits, self@.root_cnode_bits, ROOT_CNODE_SELF_INDEX) <= usize::MAX,
        ensures
            slot == slot_number(self@.root_cnode.bits, self@.root_cnode_bits, ROOT_CNODE_SELF_INDEX),
    {
        ((self.root_cnode.bits as usize) << self.root_cnode_bits) + ROOT_CNODE_SELF_INDEX
    }

    /// The path of the task's CNode in the root CSpace.
    pub fn root_cnode_path(&self) -> (r: CNodePath)
        ensures
            r == self@.root_cnode,
    {
        self.root_cnode
    }

    /// The slot indices of every object allocated so far, in order.
    pub fn caps(&self) -> (r: Vec<usize>)
        ensures
            r@ == self@.caps,
    {
        self.caps.clone()
    }

    /// The untyped capability objects are retyped from.
    pub fn untyped(&self) -> (r: u64)
        ensures
            r == self@.untyped,
    {
        self.untyped
    }

    /// The untyped memory left, in bytes.
    pub fn untyped_size(&self) -> (r: usize)
        ensures
            r == self@.untyped_size,
    {
        self.untyped_size
    }

    /// Tears the set down: its untyped goes back to `pool`, and the slot
    /// indices of its objects are returned, to be revoked and deleted.
    pub fn exit(&self, pool: &mut Vec<u64>) -> (r: Vec<usize>)
        ensures
            r@ == self@.caps,
            final(pool)@ == old(pool)@.push(self@.untyped),
    {
        recycle_untyped_unit(pool, self.untyped);
        self.caps.clone()
    }

    /// Moves the set to a CNode reached through `root_cnode`, which must
    /// resolve exactly the set's CNode bits.
    pub fn migrate(&mut self, root_cnode: CNodePath)
        requires
            old(self)@.root_cnode_bits == CSPACE_DEPTH - root_cnode.depth,
        ensures
            final(self)@ == (CapSetView { root_cnode, ..old(self)@ }),
    {
        self.root_cnode = root_cnode;
    }
}

/// An allocation never adds untyped memory, and takes exactly the object's
/// size.
pub proof fn lemma_record_consumes_size(before: usize, phys_size_bits: usize)
    requires
        phys_size_bits < usize::BITS,
        before >= (1usize << phys_size_bits),
    ensures
        (before - (1usize << phys_size_bits)) as usize <= before,
        (before - (1usize << phys_size_bits)) as usize + (1usize << phys_size_bits) == before,
{
}

/// Takes an untyped unit for a new task: the most recently recycled one if
/// any (`Some`), or `None` to retype a fresh one; the unit's size in bytes
/// comes with it.
pub fn alloc_untyped_unit(pool: &mut Vec<u64>) -> (r: (Option<u64>, usize))
    ensures
        r.1 == (1usize << ALLOC_SIZE_BITS),
        old(pool)@.len() == 0 ==> r.0 is None && final(pool)@ == old(pool)@,
        old(pool)@.len() > 0 ==> r.0 == Some(old(pool)@.last()) && final(pool)@ == old(pool)@.drop_last(),
{
    let cap = pool.pop();
    (cap, 1usize << ALLOC_SIZE_BITS)
}

/// Returns an untyped unit to the pool.
pub fn recycle_untyped_unit(pool: &mut Vec<u64>, cap: u64)
    ensures
        final(pool)@ == old(pool)@.push(cap),
{
    pool.push(cap);
}

/// A recycled untyped unit is the next one handed out.
pub proof fn lemma_untyped_unit_reused(pool: Seq<u64>, cap: u64)
    ensures
        pool.push(cap).len() > 0,
        pool.push(cap).last() == cap,
        pool.push(cap).drop_last() == pool,
{
    assert(pool.push(cap).drop_last() =~= pool);
}

} // verus!
