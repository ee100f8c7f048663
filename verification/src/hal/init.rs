use vstd::prelude::*;

verus! {

/// Initializes the platform devices for the primary CPU; there are none.
pub fn platform_init() {
}

/// Initializes the platform devices for secondary CPUs; there are none.
pub fn platform_init_secondary() {
}

} // verus!
