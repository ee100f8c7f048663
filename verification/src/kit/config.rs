use vstd::prelude::*;

verus! {

/// Depth of a full capability path in the root CSpace.
pub const CSPACE_DEPTH: usize = 64;
/// Slot of the parent endpoint in every task's CSpace.
pub const DEFAULT_PARENT_EP: u64 = 18;
/// Size of a 2 MiB large page.
pub const LARGE_PAGE_SIZE: usize = 0x200000;
/// Size of a 4 KiB page.
pub const PAGE_SIZE: usize = 0x1000;
/// Number of private peripheral interrupts reserved per CPU.
pub const PPI_NUM: usize = 32;

} // verus!
