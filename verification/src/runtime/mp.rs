use vstd::prelude::*;

verus! {

/// The `j`-th CPU booted by [`start_secondary_cpus`]: CPUs in increasing
/// order, skipping the primary one.
pub open spec fn boot_order_entry(primary_cpu_id: usize, j: int) -> int {
    if j < primary_cpu_id { j } else { j + 1 }
}

/// The CPUs to boot, in order, when `primary_cpu_id` is running: every other
/// CPU of `0..cpu_num`, at most `cpu_num - 1` of them. Each is booted and
/// waited for before the next.
pub fn start_secondary_cpus(primary_cpu_id: usize, cpu_num: usize) -> (r: Vec<usize>)
    requires
        cpu_num >= 1,
    ensures
        r@.len() == cpu_num - 1,
        forall|j: int| 0 <= j < r@.len() ==> #[trigger] r@[j] == boot_order_entry(primary_cpu_id, j),
{
    let mut order: Vec<usize> = Vec::new();
    let mut logic_cpu_id: usize = 0;
    let mut i: usize = 0;
    while i < cpu_num
        invariant
            cpu_num >= 1,
            i <= cpu_num,
            logic_cpu_id == order@.len(),
            logic_cpu_id <= cpu_num - 1,
            logic_cpu_id == (if i <= primary_cpu_id { i as int } else { i - 1 }) || logic_cpu_id == cpu_num - 1,
            logic_cpu_id < cpu_num - 1 ==> logic_cpu_id == (if i <= primary_cpu_id { i as int } else { i - 1 }),
            forall|j: int| 0 <= j < order@.len() ==> order@[j] == boot_order_entry(primary_cpu_id, j),
        decreases cpu_num - i,
    {
        if i != primary_cpu_id && logic_cpu_id < cpu_num - 1 {
            order.push(i);
            logic_cpu_id += 1;
        }
        i += 1;
    }
    order
}

} // verus!
