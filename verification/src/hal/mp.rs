use vstd::prelude::*;

verus! {

/// Starts the given secondary CPU with its boot stack; secondary CPUs run as
/// seL4 threads started elsewhere, so nothing happens.
pub fn start_secondary_cpu(cpu_id: usize, stack_top: usize) {
}

} // verus!
