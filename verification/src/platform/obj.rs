use vstd::prelude::*;

use crate::kit::allocator::UntypedAllocator;

verus! {

/// Size in bits of the untyped objects the per-CPU untyped pools deal in.
pub const ALLOC_SIZE_BITS: usize = 18;

/// Takes a recycled untyped of CPU `cpu_id`, or `None` when a fresh one of
/// [`ALLOC_SIZE_BITS`] bits has to be retyped.
pub fn alloc_untyped(allocator: &mut UntypedAllocator, cpu_id: usize) -> (r: Option<u64>)
    requires
        cpu_id < old(allocator).pools().len(),
    ensures
        final(allocator).spec_untyped_size() == old(allocator).spec_untyped_size(),
        old(allocator).pools()[cpu_id as int].len() == 0 ==> r is None && final(allocator).pools() == old(allocator).pools(),
        old(allocator).pools()[cpu_id as int].len() > 0 ==> {
            &&& r == Some(old(allocator).pools()[cpu_id as int].last())
            &&& final(allocator).pools() == old(allocator).pools().update(
                cpu_id as int,
                old(allocator).pools()[cpu_id as int].drop_last(),
            )
        },
{
    allocator.allocate(cpu_id)
}

/// Returns an untyped to CPU `cpu_id`'s pool.
pub fn recycle_untyped(allocator: &mut UntypedAllocator, cap: u64, cpu_id: usize)
    requires
        cpu_id < old(allocator).pools().len(),
    ensures
        final(allocator).spec_untyped_size() == old(allocator).spec_untyped_size(),
        final(allocator).pools() == old(allocator).pools().update(
            cpu_id as int,
            old(allocator).pools()[cpu_id as int].push(cap),
        ),
{
    allocator.dealloc(cap, cpu_id)
}

/// An untyped recycled on a CPU is the next one that CPU takes, and other
/// CPUs' pools are untouched.
pub proof fn lemma_recycle_untyped_then_alloc(pools: Seq<Seq<u64>>, cpu_id: int, other: int, cap: u64)
    requires
        0 <= cpu_id < pools.len(),
        0 <= other < pools.len(),
        other != cpu_id,
    ensures
        ({
            let after = pools.update(cpu_id, pools[cpu_id].push(cap));
            &&& after[cpu_id].len() > 0
            &&& after[cpu_id].last() == cap
            &&& after.update(cpu_id, after[cpu_id].drop_last()) == pools
            &&& after[other] == pools[other]
        }),
{
    let after = pools.update(cpu_id, pools[cpu_id].push(cap));
    assert(after[cpu_id].drop_last() =~= pools[cpu_id]);
    assert(after.update(cpu_id, after[cpu_id].drop_last()) =~= pools);
}

} // verus!
