use vstd::prelude::*;

use std::collections::BTreeMap;

use crate::error::Error;
use crate::kit::addr::{is_aligned, is_power_of_two};
use crate::kit::allocator::{
    frame_alloc_step, frame_allocator_inv, frame_dealloc_step, VirtFrameAllocator, VirtFrameAllocatorView,
};
use crate::kit::config::{LARGE_PAGE_SIZE, PAGE_SIZE};

verus! {

/// A translation table: each key is the start of a region on one side, and
/// maps to the half-open range `(start, end)` it covers on the other side.
pub type RegionMap = Map<usize, (usize, usize)>;

/// Abstract state of a [`MemCap`].
pub struct MemCapView {
    pub v2p: RegionMap,
    pub p2v: RegionMap,
    pub frames: VirtFrameAllocatorView,
}

/// The address-space bookkeeping of the root task: the regions mapped so
/// far in both directions, and the window of virtual pages used for IPC
/// buffers.
pub struct MemCap {
    v2p_map: BTreeMap<usize, (usize, usize)>,
    p2v_map: BTreeMap<usize, (usize, usize)>,
    frame_allocator: VirtFrameAllocator,
}

/// The start of the 2 MiB large page that holds `addr`.
pub open spec fn large_page_base(addr: usize) -> int {
    (addr / LARGE_PAGE_SIZE) * LARGE_PAGE_SIZE
}

/// The start of the 4 KiB page that holds `addr`.
pub open spec fn page_base(addr: usize) -> int {
    (addr / PAGE_SIZE) * PAGE_SIZE
}

/// Every range of a table is well ordered.
pub open spec fn ranges_ordered(m: RegionMap) -> bool {
    forall|k: usize| m.contains_key(k) ==> m[k].0 <= m[k].1
}

/// The answer for `start + offset` in the range found under a key: the
/// address if it falls before the end of the range, else a failed lookup.
pub open spec fn offset_in(range: (usize, usize), offset: int) -> Result<usize, Error> {
    if range.0 + offset < range.1 {
        Ok((range.0 + offset) as usize)
    } else {
        Err(Error::FailedLookup)
    }
}

/// Translation of an address through a table: the region keyed by the
/// address's large page is tried first, then the region keyed by its 4 KiB
/// page, each with the offset from its own key.
pub open spec fn translate_spec(m: RegionMap, addr: usize) -> Result<usize, Error> {
    let lp = large_page_base(addr);
    let sp = page_base(addr);
    if m.contains_key(lp as usize) {
        offset_in(m[lp as usize], addr - lp)
    } else if m.contains_key(sp as usize) {
        offset_in(m[sp as usize], addr - sp)
    } else {
        Err(Error::FailedLookup)
    }
}

/// Translation of a virtual address through the virtual-to-physical table.
pub open spec fn virt_to_phys_spec(m: RegionMap, vaddr: usize) -> Result<usize, Error> {
    translate_spec(m, vaddr)
}

/// Translation of a physical address through the physical-to-virtual table.
pub open spec fn phys_to_virt_spec(m: RegionMap, paddr: usize) -> Result<usize, Error> {
    translate_spec(m, paddr)
}

/// The pages that mapping `[start, start + size)` with pages of `page_size`
/// bytes covers, or why the request is refused.
pub open spec fn mapping_plan_spec(start: usize, size: usize, page_size: usize) -> Result<Seq<usize>, Error> {
    if start % page_size != 0 || size == 0 || size % page_size != 0 {
        Err(Error::AlignmentError)
    } else {
        Ok(Seq::new((size / page_size) as nat, |i: int| (start + i * page_size) as usize))
    }
}

proof fn lemma_base_bounds(addr: usize)
    ensures
        0 <= large_page_base(addr) <= addr,
        addr - large_page_base(addr) < LARGE_PAGE_SIZE,
        0 <= page_base(addr) <= addr,
        addr - page_base(addr) < PAGE_SIZE,
{
    let l = addr as int;
    assert(0 <= (l / 0x200000) * 0x200000 <= l && l - (l / 0x200000) * 0x200000 < 0x200000) by (nonlinear_arith)
        requires l >= 0;
    assert(0 <= (l / 0x1000) * 0x1000 <= l && l - (l / 0x1000) * 0x1000 < 0x1000) by (nonlinear_arith)
        requires l >= 0;
}

/// Translates `addr` through `map` (see [`translate_spec`]).
fn translate(map: &BTreeMap<usize, (usize, usize)>, addr: usize) -> (r: Result<usize, Error>)
    requires
        ranges_ordered(map@),
    ensures
        r == translate_spec(map@, addr),
{
    proof {
        lemma_base_bounds(addr);
    }
    let lp_start = (addr / LARGE_PAGE_SIZE) * LARGE_PAGE_SIZE;
    let start = (addr / PAGE_SIZE) * PAGE_SIZE;
    if let Some(r) = lookup_offset(map, lp_start, addr - lp_start) {
        return r;
    }
    if let Some(r) = lookup_offset(map, start, addr - start) {
        return r;
    }
    Err(Error::FailedLookup)
}

/// Looks `key` up in `map` and applies `offset` within the range found.
fn lookup_offset(map: &BTreeMap<usize, (usize, usize)>, key: usize, offset: usize) -> (r: Option<Result<usize, Error>>)
    requires
        ranges_ordered(map@),
    ensures
        map@.contains_key(key) ==> r == Some(offset_in(map@[key], offset as int)),
        !map@.contains_key(key) ==> r is None,
{
    match map.get(&key) {
        Some(range) => {
            let (start, end) = *range;
            if offset < end - start {
                Some(Ok(start + offset))
            } else {
                Some(Err(Error::FailedLookup))
            }
        },
        None => None,
    }
}

impl View for MemCap {
    type V = MemCapView;

    closed spec fn view(&self) -> MemCapView {
        MemCapView { v2p: self.v2p_map@, p2v: self.p2v_map@, frames: self.frame_allocator@ }
    }
}

impl MemCap {
    /// The invariant: ranges are well ordered, the IPC frame window obeys the
    /// frame allocator's invariant, and every page of it has an address.
    pub open spec fn wf(&self) -> bool {
        &&& ranges_ordered(self@.v2p)
        &&& ranges_ordered(self@.p2v)
        &&& frame_allocator_inv(self@.frames)
        &&& self@.frames.end * PAGE_SIZE <= usize::MAX
    }

    /// Empty translation tables, with IPC buffers taken from the pages of
    /// `[frame_start, frame_start + frame_size)`.
    pub fn new(frame_start: usize, frame_size: usize) -> (r: Self)
        requires
            frame_start + frame_size <= usize::MAX,
        ensures
            r.wf(),
            r@.v2p == RegionMap::empty(),
            r@.p2v == RegionMap::empty(),
            r@.frames == (VirtFrameAllocatorView {
                current: frame_start / PAGE_SIZE,
                end: ((frame_start + frame_size) / PAGE_SIZE as int) as usize,
                recycled: Seq::empty(),
            }),
    {
        let frame_allocator = VirtFrameAllocator::new(frame_start, frame_size);
        let r = MemCap { v2p_map: BTreeMap::new(), p2v_map: BTreeMap::new(), frame_allocator };
        proof {
            let x = (frame_start + frame_size) as int;
            assert((x / 0x1000) * 0x1000 <= x) by (nonlinear_arith)
                requires x >= 0;
        }
        r
    }

    /// Records that `[vaddr, vaddr + size)` maps onto `[paddr, paddr + size)`.
    pub fn add_region(&mut self, vaddr: usize, paddr: usize, size: usize)
        requires
            old(self).wf(),
            vaddr + size <= usize::MAX,
            paddr + size <= usize::MAX,
        ensures
            final(self).wf(),
            final(self)@.v2p == old(self)@.v2p.insert(vaddr, (paddr, (paddr + size) as usize)),
            final(self)@.p2v == old(self)@.p2v.insert(paddr, (vaddr, (vaddr + size) as usize)),
            final(self)@.frames == old(self)@.frames,
    {
        self.v2p_map.insert(vaddr, (paddr, paddr + size));
        self.p2v_map.insert(paddr, (vaddr, vaddr + size));
    }

    /// Translates a virtual address through the recorded regions.
    pub fn virt_to_phys(&self, vaddr: usize) -> (r: Result<usize, Error>)
        requires
            self.wf(),
        ensures
            r == virt_to_phys_spec(self@.v2p, vaddr),
    {
        translate(&self.v2p_map, vaddr)
    }

    /// Translates a physical address through the recorded regions.
    pub fn phys_to_virt(&self, paddr: usize) -> (r: Result<usize, Error>)
        requires
            self.wf(),
        ensures
            r == phys_to_virt_spec(self@.p2v, paddr),
    {
        translate(&self.p2v_map, paddr)
    }

    /// Picks the virtual address of a new IPC buffer: the start of a page of
    /// the IPC window. The page is then backed by a frame and mapped there.
    pub fn reserve_ipc_buffer(&mut self) -> (r: Result<usize, Error>)
        requires
            old(self).wf(),
        ensures
            final(self).wf(),
            final(self)@.v2p == old(self)@.v2p,
            final(self)@.p2v == old(self)@.p2v,
            final(self)@.frames == frame_alloc_step(old(self)@.frames).0,
            r == match frame_alloc_step(old(self)@.frames).1 {
                Some(vpn) => Ok::<usize, Error>((vpn * PAGE_SIZE) as usize),
                None => Err(Error::NotEnoughMemory),
            },
    {
        proof {
            crate::kit::allocator::lemma_frame_alloc_in_window(self@.frames);
        }
        match self.frame_allocator.allocate() {
            Some(vpn) => {
                proof {
                    let e = self@.frames.end as int;
                    let v = vpn as int;
                    assert(v * 0x1000 <= e * 0x1000) by (nonlinear_arith)
                        requires v < e;
                }
                Ok(vpn * PAGE_SIZE)
            },
            None => Err(Error::NotEnoughMemory),
        }
    }

    /// Frees the IPC buffer page that holds `vaddr`.
    pub fn dealloc_ipc_buffer(&mut self, vaddr: usize)
        requires
            old(self).wf(),
        ensures
            final(self).wf(),
            final(self)@.v2p == old(self)@.v2p,
            final(self)@.p2v == old(self)@.p2v,
            final(self)@.frames == frame_dealloc_step(old(self)@.frames, vaddr / PAGE_SIZE),
    {
        let vpn = vaddr / PAGE_SIZE;
        self.frame_allocator.dealloc(vpn);
    }
}

/// The page addresses to map for `[start, start + size)` with pages of
/// `page_size` bytes; refused unless `start` is aligned and `size` is a
/// non-zero multiple of the page size.
pub fn mapping_plan(start: usize, size: usize, page_size: usize) -> (r: Result<Vec<usize>, Error>)
    requires
        is_power_of_two(page_size),
        start % page_size == 0 && size > 0 && size % page_size == 0 ==> start + size - page_size <= usize::MAX,
    ensures
        r matches Ok(v) ==> mapping_plan_spec(start, size, page_size) == Ok::<Seq<usize>, Error>(v@),
        r matches Err(e) ==> mapping_plan_spec(start, size, page_size) == Err::<Seq<usize>, Error>(e),
{
    if !is_aligned(start, page_size) {
        return Err(Error::AlignmentError);
    }
    if size == 0 || size % page_size != 0 {
        return Err(Error::AlignmentError);
    }
    let count = size / page_size;
    let mut pages: Vec<usize> = Vec::new();
    let mut i: usize = 0;
    proof {
        assert(count * page_size == size) by (nonlinear_arith)
            requires count == size / page_size, size % page_size == 0, page_size > 0;
    }
    while i < count
        invariant
            page_size > 0,
            i <= count,
            count == size / page_size,
            count * page_size == size,
            start + size - page_size <= usize::MAX,
            pages@.len() == i,
            forall|j: int| 0 <= j < i ==> pages@[j] == (start + j * page_size) as usize,
        decreases count - i,
    {
        proof {
            assert(i * page_size <= size - page_size) by (nonlinear_arith)
                requires i < count, count * page_size == size, page_size > 0;
        }
        pages.push(start + i * page_size);
        i += 1;
    }
    assert(pages@ =~= Seq::new((size / page_size) as nat, |j: int| (start + j * page_size) as usize));
    Ok(pages)
}

/// The 2 MiB pages to map for a large-page allocation of `[start, start + size)`.
pub fn large_page_map_plan(start: usize, size: usize) -> (r: Result<Vec<usize>, Error>)
    requires
        start % LARGE_PAGE_SIZE == 0 && size > 0 && size % LARGE_PAGE_SIZE == 0
            ==> start + size - LARGE_PAGE_SIZE <= usize::MAX,
    ensures
        r matches Ok(v) ==> mapping_plan_spec(start, size, LARGE_PAGE_SIZE) == Ok::<Seq<usize>, Error>(v@),
        r matches Err(e) ==> mapping_plan_spec(start, size, LARGE_PAGE_SIZE) == Err::<Seq<usize>, Error>(e),
{
    assert(is_power_of_two(LARGE_PAGE_SIZE)) by (bit_vector);
    mapping_plan(start, size, LARGE_PAGE_SIZE)
}

/// The 4 KiB pages to map for an allocation of `[start, start + size)`.
pub fn map_plan(start: usize, size: usize) -> (r: Result<Vec<usize>, Error>)
    requires
        start % PAGE_SIZE == 0 && size > 0 && size % PAGE_SIZE == 0 ==> start + size - PAGE_SIZE <= usize::MAX,
    ensures
        r matches Ok(v) ==> mapping_plan_spec(start, size, PAGE_SIZE) == Ok::<Seq<usize>, Error>(v@),
        r matches Err(e) ==> mapping_plan_spec(start, size, PAGE_SIZE) == Err::<Seq<usize>, Error>(e),
{
    assert(is_power_of_two(PAGE_SIZE)) by (bit_vector);
    mapping_plan(start, size, PAGE_SIZE)
}

/// A mapping request is refused exactly when its start is not aligned to
/// the page size or its size is not a non-zero multiple of it; an accepted
/// request covers the region with `size / page_size` consecutive pages, the
/// first at `start`, each `page_size` bytes after the one before, the last
/// ending at `start + size`. This holds for every power-of-two page size.
pub proof fn lemma_mapping_plan_covers_region(start: usize, size: usize, page_size: usize)
    requires
        is_power_of_two(page_size),
        start + size <= usize::MAX,
    ensures
        (mapping_plan_spec(start, size, page_size) is Ok) <==> (start % page_size == 0 && size > 0
            && size % page_size == 0),
        mapping_plan_spec(start, size, page_size) matches Ok(pages) ==> {
            &&& pages.len() * page_size == size
            &&& pages[0] == start
            &&& forall|i: int| 0 <= i < pages.len() ==> pages[i] as int == start + i * page_size
            &&& forall|i: int| 0 < i < pages.len() ==> #[trigger] pages[i] == pages[i - 1] + page_size
            &&& pages[pages.len() - 1] + page_size == start + size
        },
{
    if start % page_size == 0 && size > 0 && size % page_size == 0 {
        let n = size / page_size;
        assert(n * page_size == size && n >= 1) by (nonlinear_arith)
            requires n == size / page_size, size % page_size == 0, page_size > 0, size > 0;
        let pages = Seq::new(n as nat, |i: int| (start + i * page_size) as usize);
        assert forall|i: int| 0 <= i < n implies pages[i] as int == start + i * page_size by {
            assert(i * page_size <= (n - 1) * page_size) by (nonlinear_arith)
                requires 0 <= i < n, page_size > 0;
            assert((n - 1) * page_size == n * page_size - page_size) by (nonlinear_arith);
        }
        assert forall|i: int| 0 < i < n implies #[trigger] pages[i] == pages[i - 1] + page_size by {
            assert(pages[i] as int == start + i * page_size);
            assert(pages[i - 1] as int == start + (i - 1) * page_size);
            assert((i - 1) * page_size + page_size == i * page_size) by (nonlinear_arith);
        }
        assert(pages[n - 1] as int == start + (n - 1) * page_size);
        assert((n - 1) * page_size + page_size == n * page_size) by (nonlinear_arith);
    }
}

/// The 4 KiB plan of a request accepts any page-aligned region, however many
/// large pages it spans, and lists every page of it.
pub proof fn lemma_small_page_plan_covers_region(start: usize, size: usize)
    requires
        start % PAGE_SIZE == 0,
        size > 0,
        size % PAGE_SIZE == 0,
        start + size <= usize::MAX,
    ensures
        mapping_plan_spec(start, size, PAGE_SIZE) matches Ok(pages) && pages.len() == size / PAGE_SIZE
            && forall|i: int| 0 <= i < pages.len() ==> pages[i] as int == start + i * PAGE_SIZE,
{
    assert(is_power_of_two(PAGE_SIZE)) by (bit_vector);
    lemma_mapping_plan_covers_region(start, size, PAGE_SIZE);
}

/// What mapping one page does next, given the answer of the frame-map
/// invocation.
#[derive(Clone, Copy, Debug, PartialEq, Eq, Structural)]
pub enum MapStep {
    /// The page is mapped.
    Mapped,
    /// A page table is missing: allocate one, map it, and try again.
    NeedPageTable,
    /// Mapping failed with this error.
    Failed(Error),
}

/// Decides the next step of mapping a page from the answer of one attempt:
/// success ends it, a failed lookup asks for a page table, any other error
/// is returned.
pub fn map_page_step(frame_map_result: Result<(), Error>) -> (r: MapStep)
    ensures
        r == match frame_map_result {
            Ok(()) => MapStep::Mapped,
            Err(Error::FailedLookup) => MapStep::NeedPageTable,
            Err(e) => MapStep::Failed(e),
        },
{
    match frame_map_result {
        Ok(()) => MapStep::Mapped,
        Err(Error::FailedLookup) => MapStep::NeedPageTable,
        Err(e) => MapStep::Failed(e),
    }
}

/// The attempts at mapping one page: one per level of the page-table
/// hierarchy, each either mapping the page or adding the missing table.
pub struct PageMapper {
    attempts: usize,
    levels: usize,
}

impl View for PageMapper {
    type V = (usize, usize);

    /// Attempts made so far, and attempts allowed.
    closed spec fn view(&self) -> (usize, usize) {
        (self.attempts, self.levels)
    }
}

impl PageMapper {
    /// No attempt made yet, `levels` allowed.
    pub fn new(levels: usize) -> (r: Self)
        ensures
            r@ == (0usize, levels),
    {
        PageMapper { attempts: 0, levels }
    }

    /// Whether every allowed attempt was made: a page still unmapped then
    /// cannot be mapped.
    pub fn exhausted(&self) -> (r: bool)
        ensures
            r == (self@.0 >= self@.1),
    {
        self.attempts >= self.levels
    }

    /// Records one attempt and decides from its answer what comes next.
    pub fn step(&mut self, frame_map_result: Result<(), Error>) -> (r: MapStep)
        requires
            old(self)@.0 < old(self)@.1,
        ensures
            final(self)@ == ((old(self)@.0 + 1) as usize, old(self)@.1),
            r == match frame_map_result {
                Ok(()) => MapStep::Mapped,
                Err(Error::FailedLookup) => MapStep::NeedPageTable,
                Err(e) => MapStep::Failed(e),
            },
    {
        self.attempts += 1;
        map_page_step(frame_map_result)
    }
}

/// A region recorded at a large-page boundary translates back to its
/// physical start plus offset, for every offset within both the region and
/// its first large page.
pub proof fn lemma_add_region_then_virt_to_phys(m: RegionMap, vaddr: usize, paddr: usize, size: usize, offset: usize)
    requires
        vaddr % LARGE_PAGE_SIZE == 0,
        paddr + size <= usize::MAX,
        offset < size,
        offset < LARGE_PAGE_SIZE,
        vaddr + offset <= usize::MAX,
    ensures
        virt_to_phys_spec(m.insert(vaddr, (paddr, (paddr + size) as usize)), (vaddr + offset) as usize)
            == Ok::<usize, Error>((paddr + offset) as usize),
{
    let v = (vaddr + offset) as usize;
    let k = vaddr as int;
    let o = offset as int;
    assert(((k + o) / 0x200000) * 0x200000 == k) by (nonlinear_arith)
        requires k % 0x200000 == 0, 0 <= o < 0x200000, k >= 0;
}

/// A region recorded at a large-page boundary translates forward to its
/// virtual start plus offset, for every offset within both the region and its
/// first large page.
pub proof fn lemma_add_region_then_phys_to_virt(m: RegionMap, vaddr: usize, paddr: usize, size: usize, offset: usize)
    requires
        paddr % LARGE_PAGE_SIZE == 0,
        vaddr + size <= usize::MAX,
        offset < size,
        offset < LARGE_PAGE_SIZE,
        paddr + offset <= usize::MAX,
    ensures
        phys_to_virt_spec(m.insert(paddr, (vaddr, (vaddr + size) as usize)), (paddr + offset) as usize)
            == Ok::<usize, Error>((vaddr + offset) as usize),
{
    let k = paddr as int;
    let o = offset as int;
    assert(((k + o) / 0x200000) * 0x200000 == k) by (nonlinear_arith)
        requires k % 0x200000 == 0, 0 <= o < 0x200000, k >= 0;
}

/// Translation back and forth: within the first large page of a region whose
/// virtual and physical starts are both large-page aligned, translating a
/// physical address to virtual and back gives the address itself.
pub proof fn lemma_region_round_trip(v2p: RegionMap, p2v: RegionMap, vaddr: usize, paddr: usize, size: usize, offset: usize)
    requires
        vaddr % LARGE_PAGE_SIZE == 0,
        paddr % LARGE_PAGE_SIZE == 0,
        vaddr + size <= usize::MAX,
        paddr + size <= usize::MAX,
        offset < size,
        offset < LARGE_PAGE_SIZE,
    ensures
        ({
            let v2p2 = v2p.insert(vaddr, (paddr, (paddr + size) as usize));
            let p2v2 = p2v.insert(paddr, (vaddr, (vaddr + size) as usize));
            &&& phys_to_virt_spec(p2v2, (paddr + offset) as usize) == Ok::<usize, Error>((vaddr + offset) as usize)
            &&& virt_to_phys_spec(v2p2, (vaddr + offset) as usize) == Ok::<usize, Error>((paddr + offset) as usize)
        }),
{
    lemma_add_region_then_phys_to_virt(p2v, vaddr, paddr, size, offset);
    lemma_add_region_then_virt_to_phys(v2p, vaddr, paddr, size, offset);
}

proof fn lemma_aligned_base(base: usize, o: int, align: int)
    requires
        align == LARGE_PAGE_SIZE || align == PAGE_SIZE,
        (base as int) % align == 0,
        0 <= o < align,
        base + o <= usize::MAX,
    ensures
        ((base + o) / align) * align == base,
{
    let k = base as int;
    assert(((k + o) / align) * align == k) by (nonlinear_arith)
        requires k % align == 0, 0 <= o < align, k >= 0, align > 0;
}

proof fn lemma_base_is_aligned(addr: usize)
    ensures
        large_page_base(addr) % (LARGE_PAGE_SIZE as int) == 0,
        page_base(addr) % (PAGE_SIZE as int) == 0,
        large_page_base(addr) % (PAGE_SIZE as int) == 0,
{
    let l = addr as int;
    assert(((l / 0x200000) * 0x200000) % 0x200000 == 0) by (nonlinear_arith)
        requires l >= 0;
    assert(((l / 0x1000) * 0x1000) % 0x1000 == 0) by (nonlinear_arith)
        requires l >= 0;
    assert(((l / 0x200000) * 0x200000) % 0x1000 == 0) by (nonlinear_arith)
        requires l >= 0;
}

/// `virt_to_phys` reverses `phys_to_virt`: for a region recorded on empty
/// tables with page-aligned starts, every physical address that
/// `phys_to_virt` translates is given back by `virt_to_phys` of its
/// translation, unless the physical start is large-page aligned, the virtual
/// start is not, and the region is longer than a page.
pub proof fn lemma_virt_to_phys_reverses_phys_to_virt(vaddr: usize, paddr: usize, size: usize, x: usize)
    requires
        vaddr % PAGE_SIZE == 0,
        paddr % PAGE_SIZE == 0,
        paddr % LARGE_PAGE_SIZE == 0 && vaddr % LARGE_PAGE_SIZE != 0 ==> size <= PAGE_SIZE,
        vaddr + size <= usize::MAX,
        paddr + size <= usize::MAX,
    ensures
        ({
            let v2p = RegionMap::empty().insert(vaddr, (paddr, (paddr + size) as usize));
            let p2v = RegionMap::empty().insert(paddr, (vaddr, (vaddr + size) as usize));
            phys_to_virt_spec(p2v, x) matches Ok(y) ==> virt_to_phys_spec(v2p, y) == Ok::<usize, Error>(x)
        }),
{
    let v2p = RegionMap::empty().insert(vaddr, (paddr, (paddr + size) as usize));
    let p2v = RegionMap::empty().insert(paddr, (vaddr, (vaddr + size) as usize));
    lemma_base_bounds(x);
    lemma_base_is_aligned(x);
    if let Ok(y) = phys_to_virt_spec(p2v, x) {
        let lp = large_page_base(x);
        let sp = page_base(x);
        if p2v.contains_key(lp as usize) {
            let o = x - lp;
            assert(lp == paddr);
            assert(y == vaddr + o);
            lemma_base_is_aligned(y);
            if vaddr % LARGE_PAGE_SIZE == 0 {
                lemma_aligned_base(vaddr, o, LARGE_PAGE_SIZE as int);
                assert(large_page_base(y) == vaddr);
            } else {
                assert(large_page_base(y) != vaddr);
                lemma_aligned_base(vaddr, o, PAGE_SIZE as int);
                assert(page_base(y) == vaddr);
            }
        } else {
            let o = x - sp;
            assert(sp == paddr);
            assert(y == vaddr + o);
            lemma_base_is_aligned(y);
            if vaddr % LARGE_PAGE_SIZE == 0 {
                lemma_aligned_base(vaddr, o, LARGE_PAGE_SIZE as int);
                assert(large_page_base(y) == vaddr);
            } else {
                assert(large_page_base(y) != vaddr);
                lemma_aligned_base(vaddr, o, PAGE_SIZE as int);
                assert(page_base(y) == vaddr);
            }
        }
    }
}

proof fn lemma_base_monotone(a: usize, b: usize)
    requires
        a <= b,
    ensures
        large_page_base(a) <= large_page_base(b),
        page_base(a) <= page_base(b),
{
    let x = a as int;
    let y = b as int;
    assert((x / 0x200000) * 0x200000 <= (y / 0x200000) * 0x200000) by (nonlinear_arith)
        requires 0 <= x <= y;
    assert((x / 0x1000) * 0x1000 <= (y / 0x1000) * 0x1000) by (nonlinear_arith)
        requires 0 <= x <= y;
}

/// Within `[large_page_base(start), start + size)` the only key of `m` is
/// `start` itself.
pub open spec fn unshadowed(m: RegionMap, start: usize, size: usize) -> bool {
    forall|k: usize| m.contains_key(k) && k != start ==> !(large_page_base(start) <= k < start + size)
}

/// For an address `a` of `[start, start + size)` with `start` page aligned,
/// translation through `m` with the region recorded is translation through
/// that region alone, when no other key lies near the region.
proof fn lemma_translate_as_alone(m: RegionMap, start: usize, range: (usize, usize), size: usize, a: usize)
    requires
        start % PAGE_SIZE == 0,
        start <= a < start + size,
        unshadowed(m, start, size),
    ensures
        translate_spec(m.insert(start, range), a) == translate_spec(RegionMap::empty().insert(start, range), a),
{
    let m1 = m.insert(start, range);
    let m2 = RegionMap::empty().insert(start, range);
    lemma_base_bounds(a);
    lemma_base_bounds(start);
    lemma_base_monotone(start, a);
    let s = start as int;
    assert((s / 0x1000) * 0x1000 == s) by (nonlinear_arith)
        requires s % 0x1000 == 0, s >= 0;
    let lp = large_page_base(a) as usize;
    let sp = page_base(a) as usize;
    assert(m1.contains_key(lp) == m2.contains_key(lp));
    assert(m1.contains_key(sp) == m2.contains_key(sp));
}

/// `virt_to_phys` reverses `phys_to_virt` in any tables: once a region with
/// page-aligned starts is recorded, and no other key lies between the large
/// page of either start and the end of the region on that side, every
/// address of the region that `phys_to_virt` translates is given back by
/// `virt_to_phys` of its translation, unless the physical start is
/// large-page aligned, the virtual start is not, and the region is longer
/// than a page.
pub proof fn lemma_virt_to_phys_reverses_phys_to_virt_in_tables(
    v2p: RegionMap,
    p2v: RegionMap,
    vaddr: usize,
    paddr: usize,
    size: usize,
    x: usize,
)
    requires
        vaddr % PAGE_SIZE == 0,
        paddr % PAGE_SIZE == 0,
        paddr % LARGE_PAGE_SIZE == 0 && vaddr % LARGE_PAGE_SIZE != 0 ==> size <= PAGE_SIZE,
        vaddr + size <= usize::MAX,
        paddr + size <= usize::MAX,
        paddr <= x < paddr + size,
        unshadowed(p2v, paddr, size),
        unshadowed(v2p, vaddr, size),
    ensures
        ({
            let v2p2 = v2p.insert(vaddr, (paddr, (paddr + size) as usize));
            let p2v2 = p2v.insert(paddr, (vaddr, (vaddr + size) as usize));
            phys_to_virt_spec(p2v2, x) matches Ok(y) ==> virt_to_phys_spec(v2p2, y) == Ok::<usize, Error>(x)
        }),
{
    let vr = (paddr, (paddr + size) as usize);
    let pr = (vaddr, (vaddr + size) as usize);
    lemma_translate_as_alone(p2v, paddr, pr, size, x);
    lemma_virt_to_phys_reverses_phys_to_virt(vaddr, paddr, size, x);
    if let Ok(y) = phys_to_virt_spec(p2v.insert(paddr, pr), x) {
        let single = RegionMap::empty().insert(paddr, pr);
        lemma_base_bounds(x);
        assert(single.contains_key(large_page_base(x) as usize) ==> large_page_base(x) == paddr);
        assert(single.contains_key(page_base(x) as usize) ==> page_base(x) == paddr);
        assert(y == vaddr + (x - paddr));
        lemma_translate_as_alone(v2p, vaddr, vr, size, y);
    }
}

/// Mapping a large-page region: when the plan for `[start, start + size)`
/// succeeds and the region is recorded onto frames starting at a
/// large-page-aligned `paddr`, the start translates both ways, whatever the
/// tables held before.
pub proof fn lemma_large_page_map_translates(v2p: RegionMap, p2v: RegionMap, start: usize, size: usize, paddr: usize)
    requires
        mapping_plan_spec(start, size, LARGE_PAGE_SIZE) is Ok,
        paddr % LARGE_PAGE_SIZE == 0,
        start + size <= usize::MAX,
        paddr + size <= usize::MAX,
    ensures
        mapping_plan_spec(start, size, LARGE_PAGE_SIZE)->Ok_0.len() == size / LARGE_PAGE_SIZE,
        virt_to_phys_spec(v2p.insert(start, (paddr, (paddr + size) as usize)), start) == Ok::<usize, Error>(paddr),
        phys_to_virt_spec(p2v.insert(paddr, (start, (start + size) as usize)), paddr) == Ok::<usize, Error>(start),
{
    lemma_aligned_base(start, 0, LARGE_PAGE_SIZE as int);
    lemma_aligned_base(paddr, 0, LARGE_PAGE_SIZE as int);
}

/// Translating a physical address of a 4 KiB-aligned region not at a
/// large-page boundary gives its virtual start plus offset, within the first
/// page of the region, when no region is keyed at the large page.
pub proof fn lemma_add_small_region_then_phys_to_virt(m: RegionMap, vaddr: usize, paddr: usize, size: usize, offset: usize)
    requires
        paddr % PAGE_SIZE == 0,
        !m.insert(paddr, (vaddr, (vaddr + size) as usize)).contains_key(large_page_base(paddr) as usize),
        vaddr + size <= usize::MAX,
        offset < size,
        offset < PAGE_SIZE,
        paddr + offset <= usize::MAX,
    ensures
        phys_to_virt_spec(m.insert(paddr, (vaddr, (vaddr + size) as usize)), (paddr + offset) as usize)
            == Ok::<usize, Error>((vaddr + offset) as usize),
{
    let k = paddr as int;
    let o = offset as int;
    assert(((k + o) / 0x1000) * 0x1000 == k) by (nonlinear_arith)
        requires k % 0x1000 == 0, 0 <= o < 0x1000, k >= 0;
    assert(((k + o) / 0x200000) * 0x200000 == (k / 0x200000) * 0x200000) by (nonlinear_arith)
        requires k % 0x1000 == 0, 0 <= o < 0x1000, k >= 0;
}

} // verus!
