use sel4_platform::hal::init::{platform_init, platform_init_secondary};
use sel4_platform::hal::mem::{platform_regions, MemRegion, MEM_REGION_FREE, MEM_REGION_READ, MEM_REGION_WRITE};
use sel4_platform::hal::mp::start_secondary_cpu;
use sel4_platform::hal::time::{current_ticks, epochoffset_nanos, nanos_to_ticks, set_oneshot_timer, ticks_to_nanos};

#[test]
fn time_is_nanosecond_ticks() {
    assert_eq!(current_ticks(), 0);
    assert_eq!(epochoffset_nanos(), 0);
    assert_eq!(ticks_to_nanos(12345), 12345);
    assert_eq!(nanos_to_ticks(ticks_to_nanos(u64::MAX)), u64::MAX);
    set_oneshot_timer(100);
}

#[test]
fn regions_start_with_free_memory() {
    let mmio = vec![MemRegion { paddr: 0x900_0000, size: 0x1000, flags: 0x13, name: "uart" }];
    let r = platform_regions(mmio.clone());
    assert_eq!(r.len(), 2);
    assert_eq!(r[0].paddr, 0x1_0000_3000);
    assert_eq!(r[0].size, 0x200000);
    assert_eq!(r[0].flags, MEM_REGION_FREE | MEM_REGION_READ | MEM_REGION_WRITE);
    assert_eq!(r[0].name, "free memory");
    assert_eq!(r[1], mmio[0]);
}

#[test]
fn init_entry_points_are_inert() {
    platform_init();
    platform_init_secondary();
    start_secondary_cpu(1, 0x8000);
}
