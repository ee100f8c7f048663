use vstd::prelude::*;

use crate::kit::mem::{phys_to_virt_spec, virt_to_phys_spec, MemCap};

verus! {

/// Translates a physical address to a virtual one through the recorded
/// regions, falling back to the same numeric address when none covers it.
pub fn phys_to_virt(mem: &MemCap, paddr: usize) -> (r: usize)
    requires
        mem.wf(),
    ensures
        r == match phys_to_virt_spec(mem@.p2v, paddr) {
            Ok(v) => v,
            Err(_) => paddr,
        },
{
    match mem.phys_to_virt(paddr) {
        Ok(v) => v,
        Err(_) => paddr,
    }
}

/// Translates a virtual address to a physical one through the recorded
/// regions, falling back to the same numeric address when none covers it.
pub fn virt_to_phys(mem: &MemCap, vaddr: usize) -> (r: usize)
    requires
        mem.wf(),
    ensures
        r == match virt_to_phys_spec(mem@.v2p, vaddr) {
            Ok(p) => p,
            Err(_) => vaddr,
        },
{
    match mem.virt_to_phys(vaddr) {
        Ok(p) => p,
        Err(_) => vaddr,
    }
}

} // verus!
