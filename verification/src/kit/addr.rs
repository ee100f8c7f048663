use vstd::prelude::*;

verus! {

/// Whether `n` is a power of two.
pub open spec fn is_power_of_two(n: usize) -> bool {
    n > 0 && n & ((n - 1) as usize) == 0
}

/// Calls `memory_addr::is_aligned`, which computes `addr & (align - 1) == 0`;
/// its documentation states that this equals `addr % align == 0` for an
/// alignment that is a power of two, which is all this contract claims.
#[verifier::external_body]
pub(crate) fn is_aligned(addr: usize, align: usize) -> (r: bool)
    requires
        is_power_of_two(align),
    ensures
        r == (addr % align == 0),
{
    memory_addr::is_aligned(addr, align)
}

} // verus!
