use vstd::prelude::*;

use crate::kit::config::PAGE_SIZE;

verus! {

/// Abstract state of an [`IndexAllocator`]: the next never-used index, the
/// exclusive upper bound of fresh indices, and the stack of recycled indices
/// (last element on top).
pub struct IndexAllocatorView {
    pub next: usize,
    pub max: usize,
    pub recycled: Seq<u64>,
}

/// Hands out indices in `[next, max)` in increasing order, and only once
/// those are exhausted falls back to recycled indices, most recent first.
pub struct IndexAllocator {
    next: usize,
    max: usize,
    recycled: Vec<u64>,
}

/// What `alloc` does to an allocator in state `s`, and what it returns.
pub open spec fn index_alloc_step(s: IndexAllocatorView) -> (IndexAllocatorView, Option<usize>) {
    if s.next < s.max {
        (IndexAllocatorView { next: (s.next + 1) as usize, max: s.max, recycled: s.recycled }, Some(s.next))
    } else if s.recycled.len() > 0 {
        (
            IndexAllocatorView { next: s.next, max: s.max, recycled: s.recycled.drop_last() },
            Some(s.recycled.last() as usize),
        )
    } else {
        (s, None)
    }
}

/// What `recycle(index)` does to an allocator in state `s`.
pub open spec fn index_recycle_step(s: IndexAllocatorView, index: usize) -> IndexAllocatorView {
    IndexAllocatorView { next: s.next, max: s.max, recycled: s.recycled.push(index as u64) }
}

impl View for IndexAllocator {
    type V = IndexAllocatorView;

    closed spec fn view(&self) -> IndexAllocatorView {
        IndexAllocatorView { next: self.next, max: self.max, recycled: self.recycled@ }
    }
}

impl IndexAllocator {
    /// The allocator's invariant: fresh indices never run past the bound.
    pub open spec fn wf(&self) -> bool {
        self@.next <= self@.max
    }

    /// Creates an allocator whose fresh indices are `next..max`.
    pub fn new(next: usize, max: usize) -> (r: Self)
        requires
            next <= max,
        ensures
            r.wf(),
            r@ == (IndexAllocatorView { next, max, recycled: Seq::empty() }),
    {
        IndexAllocator { next, max, recycled: Vec::new() }
    }

    /// Allocates an index: the next fresh one if any is left, else the most
    /// recently recycled one, else `None`.
    pub fn allocate(&mut self) -> (r: Option<usize>)
        requires
            old(self).wf(),
        ensures
            final(self).wf(),
            (final(self)@, r) == index_alloc_step(old(self)@),
    {
        if self.next < self.max {
            let index = self.next;
            self.next += 1;
            Some(index)
        } else if let Some(index) = self.recycled.pop() {
            Some(index as usize)
        } else {
            None
        }
    }

    /// Gives an index back to the allocator.
    pub fn recycle(&mut self, index: usize)
        requires
            old(self).wf(),
        ensures
            final(self).wf(),
            final(self)@ == index_recycle_step(old(self)@, index),
    {
        self.recycled.push(index as u64);
    }
}

/// An index recycled into an allocator whose fresh range is used up is the
/// very next index it hands out.
pub proof fn lemma_index_recycle_then_alloc(s: IndexAllocatorView, index: usize)
    requires
        s.next >= s.max,
    ensures
        index_alloc_step(index_recycle_step(s, index)).1 == Some(index),
        index_alloc_step(index_recycle_step(s, index)).0 == s,
{
    assert(index_recycle_step(s, index).recycled.drop_last() =~= s.recycled);
}

/// The state after `n` allocations in a row.
pub open spec fn index_alloc_n(s: IndexAllocatorView, n: nat) -> IndexAllocatorView
    decreases n,
{
    if n == 0 {
        s
    } else {
        index_alloc_step(index_alloc_n(s, (n - 1) as nat)).0
    }
}

/// Recycling always puts the index on top of the reuse stack and changes
/// nothing else, whatever fresh indices remain.
pub proof fn lemma_index_recycle_keeps_index(s: IndexAllocatorView, index: usize)
    ensures
        index_recycle_step(s, index).next == s.next,
        index_recycle_step(s, index).max == s.max,
        index_recycle_step(s, index).recycled.len() == s.recycled.len() + 1,
        index_recycle_step(s, index).recycled.last() == index as u64,
        forall|k: int| 0 <= k < s.recycled.len() ==> index_recycle_step(s, index).recycled[k] == s.recycled[k],
{
}

/// Fresh allocations leave the reuse stack alone: after `n` allocations
/// that stay within the fresh range, `next` moved by `n` and the recycled
/// indices are as they were.
pub proof fn lemma_index_fresh_allocations(s: IndexAllocatorView, n: nat)
    requires
        s.next + n <= s.max,
    ensures
        index_alloc_n(s, n).next == s.next + n,
        index_alloc_n(s, n).max == s.max,
        index_alloc_n(s, n).recycled == s.recycled,
    decreases n,
{
    if n > 0 {
        lemma_index_fresh_allocations(s, (n - 1) as nat);
    }
}

/// An index recycled at any time is handed out again: once the fresh indices
/// left at that time are used up, the very next allocation returns it.
pub proof fn lemma_index_recycled_index_comes_back(s: IndexAllocatorView, index: usize)
    requires
        s.next <= s.max,
    ensures
        index_alloc_step(index_alloc_n(index_recycle_step(s, index), (s.max - s.next) as nat)).1 == Some(index),
{
    let s1 = index_recycle_step(s, index);
    lemma_index_fresh_allocations(s1, (s.max - s.next) as nat);
    let s2 = index_alloc_n(s1, (s.max - s.next) as nat);
    assert(s2.next == s2.max);
    assert(s2.recycled.last() == index as u64);
}

/// An index that is handed out and not recycled since is not handed out
/// again, and stays outstanding across the allocation.
pub proof fn lemma_index_outstanding_not_reissued(s: IndexAllocatorView, i: usize)
    requires
        s.next <= s.max,
        i < s.next,
        !s.recycled.contains(i as u64),
        forall|j: int| 0 <= j < s.recycled.len() ==> s.recycled[j] <= usize::MAX,
    ensures
        index_alloc_step(s).1 != Some(i),
        i < index_alloc_step(s).0.next,
        !index_alloc_step(s).0.recycled.contains(i as u64),
{
    let s1 = index_alloc_step(s).0;
    if s.next >= s.max && s.recycled.len() > 0 {
        assert(s.recycled[s.recycled.len() - 1] == s.recycled.last());
        if s1.recycled.contains(i as u64) {
            let k = choose|k: int| 0 <= k < s1.recycled.len() && s1.recycled[k] == i as u64;
            assert(s.recycled[k] == i as u64);
        }
    }
}

/// While fresh indices remain, allocation hands them out in increasing order
/// and ignores the recycled ones.
pub proof fn lemma_index_fresh_first(s: IndexAllocatorView)
    requires
        s.next < s.max,
    ensures
        index_alloc_step(s).1 == Some(s.next),
        index_alloc_step(s).0.next == s.next + 1,
        index_alloc_step(s).0.recycled == s.recycled,
{
}

/// Recycled indices come back in last-in, first-out order once the fresh
/// range is used up.
pub proof fn lemma_index_recycle_lifo(s: IndexAllocatorView, a: usize, b: usize)
    requires
        s.next >= s.max,
    ensures
        ({
            let s2 = index_recycle_step(index_recycle_step(s, a), b);
            let (s3, first) = index_alloc_step(s2);
            let (s4, second) = index_alloc_step(s3);
            first == Some(b) && second == Some(a) && s4 == s
        }),
{
    let s1 = index_recycle_step(s, a);
    let s2 = index_recycle_step(s1, b);
    assert(s2.recycled.drop_last() =~= s1.recycled);
    assert(s1.recycled.drop_last() =~= s.recycled);
}

/// Abstract state of a [`VirtFrameAllocator`]: the next fresh virtual page
/// number, the exclusive end of the fresh range, and the stack of freed pages.
pub struct VirtFrameAllocatorView {
    pub current: usize,
    pub end: usize,
    pub recycled: Seq<usize>,
}

/// Hands out virtual page numbers of a fixed window, fresh ones first, and
/// reuses freed pages once the window is used up.
pub struct VirtFrameAllocator {
    current: usize,
    end: usize,
    recycled: Vec<usize>,
}

/// What `alloc` does to a frame allocator in state `s`, and what it returns.
pub open spec fn frame_alloc_step(s: VirtFrameAllocatorView) -> (VirtFrameAllocatorView, Option<usize>) {
    if s.current == s.end {
        if s.recycled.len() > 0 {
            (
                VirtFrameAllocatorView { current: s.current, end: s.end, recycled: s.recycled.drop_last() },
                Some(s.recycled.last()),
            )
        } else {
            (s, None)
        }
    } else {
        (
            VirtFrameAllocatorView { current: (s.current + 1) as usize, end: s.end, recycled: s.recycled },
            Some(s.current),
        )
    }
}

/// What `dealloc(vpn)` does: a page that was handed out and is not already
/// free goes on the free stack; anything else is ignored.
pub open spec fn frame_dealloc_step(s: VirtFrameAllocatorView, vpn: usize) -> VirtFrameAllocatorView {
    if vpn < s.current && !s.recycled.contains(vpn) {
        VirtFrameAllocatorView { current: s.current, end: s.end, recycled: s.recycled.push(vpn) }
    } else {
        s
    }
}

/// The frame allocator invariant: the fresh range is well ordered, and the
/// free stack holds distinct pages that were all handed out before.
pub open spec fn frame_allocator_inv(s: VirtFrameAllocatorView) -> bool {
    &&& s.current <= s.end
    &&& s.recycled.no_duplicates()
    &&& forall|i: int| 0 <= i < s.recycled.len() ==> s.recycled[i] < s.current
}

impl View for VirtFrameAllocator {
    type V = VirtFrameAllocatorView;

    closed spec fn view(&self) -> VirtFrameAllocatorView {
        VirtFrameAllocatorView { current: self.current, end: self.end, recycled: self.recycled@ }
    }
}

impl VirtFrameAllocator {
    pub open spec fn wf(&self) -> bool {
        frame_allocator_inv(self@)
    }

    /// Creates an allocator over the pages of `[vstart, vstart + size)`.
    pub fn new(vstart: usize, size: usize) -> (r: Self)
        requires
            vstart + size <= usize::MAX,
        ensures
            r.wf(),
            r@ == (VirtFrameAllocatorView {
                current: vstart / PAGE_SIZE,
                end: ((vstart + size) / PAGE_SIZE as int) as usize,
                recycled: Seq::empty(),
            }),
    {
        VirtFrameAllocator {
            current: vstart / PAGE_SIZE,
            end: (vstart + size) / PAGE_SIZE,
            recycled: Vec::new(),
        }
    }

    /// Allocates one virtual page number.
    pub fn allocate(&mut self) -> (r: Option<usize>)
        requires
            old(self).wf(),
        ensures
            final(self).wf(),
            (final(self)@, r) == frame_alloc_step(old(self)@),
    {
        if self.current == self.end {
            if let Some(vpn) = self.recycled.pop() {
                proof {
                    lemma_drop_last_keeps_inv(old(self)@);
                }
                return Some(vpn);
            }
            return None;
        } else {
            let vpn = self.current;
            self.current += 1;
            return Some(vpn);
        }
    }

    /// Frees a page number; pages never handed out, and pages already free,
    /// are ignored.
    pub fn dealloc(&mut self, vpn: usize)
        requires
            old(self).wf(),
        ensures
            final(self).wf(),
            final(self)@ == frame_dealloc_step(old(self)@, vpn),
    {
        if vpn < self.current && !contains_usize(&self.recycled, vpn) {
            self.recycled.push(vpn);
            proof {
                let s = old(self)@;
                assert(self@.recycled =~= s.recycled.push(vpn));
                assert forall|i: int, j: int| 0 <= i < j < self@.recycled.len()
                    implies self@.recycled[i] != self@.recycled[j] by {
                    if j == s.recycled.len() {
                        assert(s.recycled[i] == self@.recycled[i]);
                    }
                }
            }
        }
    }
}

proof fn lemma_drop_last_keeps_inv(s: VirtFrameAllocatorView)
    requires
        frame_allocator_inv(s),
        s.recycled.len() > 0,
    ensures
        frame_allocator_inv(frame_alloc_step(s).0),
{
    let r = s.recycled.drop_last();
    assert forall|i: int, j: int| 0 <= i < j < r.len() implies r[i] != r[j] by {
        assert(r[i] == s.recycled[i] && r[j] == s.recycled[j]);
    }
}

/// Whether `v` holds `x`.
fn contains_usize(v: &Vec<usize>, x: usize) -> (r: bool)
    ensures
        r == v@.contains(x),
{
    let mut i: usize = 0;
    while i < v.len()
        invariant
            i <= v.len(),
            forall|j: int| 0 <= j < i ==> v@[j] != x,
        decreases v.len() - i,
    {
        if v[i] == x {
            return true;
        }
        i += 1;
    }
    false
}

/// Two allocations in a row never hand out the same page.
pub proof fn lemma_frame_allocations_distinct(s: VirtFrameAllocatorView)
    requires
        frame_allocator_inv(s),
    ensures
        ({
            let (s1, a) = frame_alloc_step(s);
            let (s2, b) = frame_alloc_step(s1);
            a is Some && b is Some ==> a->0 != b->0
        }),
{
    let (s1, a) = frame_alloc_step(s);
    if s.current == s.end && s.recycled.len() > 0 {
        let r = s.recycled;
        if r.len() > 1 {
            assert(s1.recycled.last() == r[r.len() - 2]);
        }
    } else if s.current != s.end {
        if s1.current == s1.end && s1.recycled.len() > 0 {
            assert(s1.recycled.last() == s.recycled[s.recycled.len() - 1]);
        }
    }
}

/// A page handed out leaves the free stack and lies below the fresh range.
pub proof fn lemma_frame_alloc_is_outstanding(s: VirtFrameAllocatorView)
    requires
        frame_allocator_inv(s),
    ensures
        frame_alloc_step(s).1 matches Some(vpn) ==> {
            &&& !frame_alloc_step(s).0.recycled.contains(vpn)
            &&& vpn < frame_alloc_step(s).0.current
        },
{
    let (s1, r) = frame_alloc_step(s);
    if s.current == s.end && s.recycled.len() > 0 {
        let v = s.recycled.last();
        if s1.recycled.contains(v) {
            let i = choose|i: int| 0 <= i < s1.recycled.len() && s1.recycled[i] == v;
            assert(s.recycled[i] == s.recycled[s.recycled.len() - 1]);
        }
    } else if s.current != s.end {
        if s1.recycled.contains(s.current) {
            let i = choose|i: int| 0 <= i < s1.recycled.len() && s1.recycled[i] == s.current;
            assert(s.recycled[i] < s.current);
        }
    }
}

/// A page that is handed out and not yet freed is never handed out again:
/// allocation neither returns it nor puts it back on the free stack.
pub proof fn lemma_frame_outstanding_stays_outstanding(s: VirtFrameAllocatorView, vpn: usize)
    requires
        frame_allocator_inv(s),
        !s.recycled.contains(vpn),
        vpn < s.current,
    ensures
        frame_alloc_step(s).1 != Some(vpn),
        !frame_alloc_step(s).0.recycled.contains(vpn),
        vpn < frame_alloc_step(s).0.current,
        frame_allocator_inv(frame_alloc_step(s).0),
{
    let (s1, r) = frame_alloc_step(s);
    lemma_frame_alloc_in_window(s);
    if s.current == s.end && s.recycled.len() > 0 {
        assert(s.recycled[s.recycled.len() - 1] == s.recycled.last());
        if s1.recycled.contains(vpn) {
            let i = choose|i: int| 0 <= i < s1.recycled.len() && s1.recycled[i] == vpn;
            assert(s.recycled[i] == vpn);
        }
    }
}

/// Every page handed out lies below the end of the window.
pub proof fn lemma_frame_alloc_in_window(s: VirtFrameAllocatorView)
    requires
        frame_allocator_inv(s),
    ensures
        frame_alloc_step(s).1 matches Some(vpn) ==> vpn < s.end,
        frame_allocator_inv(frame_alloc_step(s).0),
{
    if s.current == s.end && s.recycled.len() > 0 {
        assert(s.recycled[s.recycled.len() - 1] < s.current);
        lemma_drop_last_keeps_inv(s);
    }
}

/// Freeing a page twice has the same effect as freeing it once.
pub proof fn lemma_frame_dealloc_idempotent(s: VirtFrameAllocatorView, vpn: usize)
    ensures
        frame_dealloc_step(frame_dealloc_step(s, vpn), vpn) == frame_dealloc_step(s, vpn),
{
    let s1 = frame_dealloc_step(s, vpn);
    if vpn < s.current && !s.recycled.contains(vpn) {
        assert(s1.recycled[s1.recycled.len() - 1] == vpn);
        assert(s1.recycled.contains(vpn));
    }
}

/// Once the window is used up, a page freed is the next page handed out.
pub proof fn lemma_frame_dealloc_then_alloc(s: VirtFrameAllocatorView, vpn: usize)
    requires
        s.current == s.end,
        vpn < s.current,
        !s.recycled.contains(vpn),
    ensures
        frame_alloc_step(frame_dealloc_step(s, vpn)).1 == Some(vpn),
        frame_alloc_step(frame_dealloc_step(s, vpn)).0 == s,
{
    assert(s.recycled.push(vpn).drop_last() =~= s.recycled);
}

/// The state after `n` page allocations in a row.
pub open spec fn frame_alloc_n(s: VirtFrameAllocatorView, n: nat) -> VirtFrameAllocatorView
    decreases n,
{
    if n == 0 {
        s
    } else {
        frame_alloc_step(frame_alloc_n(s, (n - 1) as nat)).0
    }
}

/// Freeing a page that was handed out and is not free puts it on top of the
/// free stack, whether or not fresh pages remain, and changes nothing else.
pub proof fn lemma_frame_dealloc_frees_page(s: VirtFrameAllocatorView, vpn: usize)
    requires
        vpn < s.current,
        !s.recycled.contains(vpn),
    ensures
        frame_dealloc_step(s, vpn).current == s.current,
        frame_dealloc_step(s, vpn).end == s.end,
        frame_dealloc_step(s, vpn).recycled.len() == s.recycled.len() + 1,
        frame_dealloc_step(s, vpn).recycled.last() == vpn,
        forall|k: int| 0 <= k < s.recycled.len() ==> frame_dealloc_step(s, vpn).recycled[k] == s.recycled[k],
{
}

/// Fresh page allocations leave the free stack alone.
pub proof fn lemma_frame_fresh_allocations(s: VirtFrameAllocatorView, n: nat)
    requires
        s.current + n <= s.end,
    ensures
        frame_alloc_n(s, n).current == s.current + n,
        frame_alloc_n(s, n).end == s.end,
        frame_alloc_n(s, n).recycled == s.recycled,
    decreases n,
{
    if n > 0 {
        lemma_frame_fresh_allocations(s, (n - 1) as nat);
    }
}

/// A page freed at any time is handed out again: once the fresh pages left
/// at that time are used up, the very next allocation returns it.
pub proof fn lemma_frame_freed_page_comes_back(s: VirtFrameAllocatorView, vpn: usize)
    requires
        frame_allocator_inv(s),
        vpn < s.current,
        !s.recycled.contains(vpn),
    ensures
        frame_alloc_step(frame_alloc_n(frame_dealloc_step(s, vpn), (s.end - s.current) as nat)).1 == Some(vpn),
{
    let s1 = frame_dealloc_step(s, vpn);
    lemma_frame_fresh_allocations(s1, (s.end - s.current) as nat);
    let s2 = frame_alloc_n(s1, (s.end - s.current) as nat);
    assert(s2.current == s2.end);
    assert(s2.recycled.last() == vpn);
}

/// Per-CPU pools of recycled untyped capabilities of one fixed size.
///
/// A CPU's pool is used last-in, first-out; when it is empty, `alloc`
/// answers `None` and the caller retypes a fresh untyped of
/// [`UntypedAllocator::untyped_size`] bits from the global object allocator.
pub struct UntypedAllocator {
    recycled: Vec<Vec<u64>>,
    untyped_size: usize,
}

impl UntypedAllocator {
    /// The recycled capabilities of each CPU, top of each pool last.
    pub closed spec fn pools(&self) -> Seq<Seq<u64>> {
        self.recycled@.map_values(|v: Vec<u64>| v@)
    }

    pub closed spec fn spec_untyped_size(&self) -> usize {
        self.untyped_size
    }

    /// Creates empty pools for `cpu_num` CPUs.
    pub fn new(untyped_size: usize, cpu_num: usize) -> (r: Self)
        ensures
            r.pools() == Seq::new(cpu_num as nat, |i: int| Seq::<u64>::empty()),
            r.spec_untyped_size() == untyped_size,
    {
        let mut recycled: Vec<Vec<u64>> = Vec::new();
        let mut i: usize = 0;
        while i < cpu_num
            invariant
                i <= cpu_num,
                recycled@.len() == i,
                forall|j: int| 0 <= j < i ==> recycled@[j]@ == Seq::<u64>::empty(),
            decreases cpu_num - i,
        {
            recycled.push(Vec::new());
            i += 1;
        }
        let r = UntypedAllocator { recycled, untyped_size };
        assert(r.pools() =~= Seq::new(cpu_num as nat, |i: int| Seq::<u64>::empty()));
        r
    }

    /// The size in bits of the untyped objects this allocator deals in.
    pub fn untyped_size(&self) -> (r: usize)
        ensures
            r == self.spec_untyped_size(),
    {
        self.untyped_size
    }

    /// Takes the most recently recycled capability of CPU `cpu_id`, or
    /// `None` when that CPU's pool is empty.
    pub fn allocate(&mut self, cpu_id: usize) -> (r: Option<u64>)
        requires
            cpu_id < old(self).pools().len(),
        ensures
            final(self).spec_untyped_size() == old(self).spec_untyped_size(),
            old(self).pools()[cpu_id as int].len() == 0 ==> r is None && final(self).pools() == old(self).pools(),
            old(self).pools()[cpu_id as int].len() > 0 ==> {
                &&& r == Some(old(self).pools()[cpu_id as int].last())
                &&& final(self).pools() == old(self).pools().update(
                    cpu_id as int,
                    old(self).pools()[cpu_id as int].drop_last(),
                )
            },
    {
        let r = self.recycled[cpu_id].pop();
        assert(self.pools() =~= old(self).pools().update(cpu_id as int, self.recycled@[cpu_id as int]@));
        r
    }

    /// Puts `cap` on top of CPU `cpu_id`'s pool.
    pub fn dealloc(&mut self, cap: u64, cpu_id: usize)
        requires
            cpu_id < old(self).pools().len(),
        ensures
            final(self).spec_untyped_size() == old(self).spec_untyped_size(),
            final(self).pools() == old(self).pools().update(
                cpu_id as int,
                old(self).pools()[cpu_id as int].push(cap),
            ),
    {
        self.recycled[cpu_id].push(cap);
        assert(self.pools() =~= old(self).pools().update(
            cpu_id as int,
            old(self).pools()[cpu_id as int].push(cap),
        ));
    }
}

} // verus!
