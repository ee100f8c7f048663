use vstd::prelude::*;

verus! {

/// The region may be read.
pub const MEM_REGION_READ: usize = 1 << 0;
/// The region may be written.
pub const MEM_REGION_WRITE: usize = 1 << 1;
/// The region is free for allocation.
pub const MEM_REGION_FREE: usize = 1 << 7;

/// Physical start of the free memory handed to the platform.
pub const FREE_MEMORY_START: u64 = 0x1_0000_3000;
/// Size of the free memory handed to the platform.
pub const FREE_MEMORY_SIZE: u64 = 0x200000;

/// A physical memory region: start, size, access flags and a name. Physical
/// addresses of this platform need 64 bits, whatever the width of `usize`.
#[derive(Clone, Copy, Debug, PartialEq, Eq)]
pub struct MemRegion {
    pub paddr: u64,
    pub size: u64,
    pub flags: usize,
    pub name: &'static str,
}

/// Returns the platform-specific memory regions: the free memory, followed
/// by the default MMIO regions `mmio`.
pub fn platform_regions(mmio: Vec<MemRegion>) -> (r: Vec<MemRegion>)
    ensures
        r@.len() == mmio@.len() + 1,
        r@[0].paddr == FREE_MEMORY_START,
        r@[0].size == FREE_MEMORY_SIZE,
        r@[0].flags == MEM_REGION_FREE | MEM_REGION_READ | MEM_REGION_WRITE,
        r@[0].name@ == "free memory"@,
        r@.subrange(1, r@.len() as int) == mmio@,
{
    let mut regions: Vec<MemRegion> = Vec::new();
    regions.push(MemRegion {
        paddr: FREE_MEMORY_START,
        size: FREE_MEMORY_SIZE,
        flags: MEM_REGION_FREE | MEM_REGION_READ | MEM_REGION_WRITE,
        name: "free memory",
    });
    let ghost given = mmio@;
    let mut mmio = mmio;
    regions.append(&mut mmio);
    assert(regions@.subrange(1, regions@.len() as int) =~= given);
    regions
}

} // verus!
