use sel4_platform::error::Error;
use sel4_platform::kit::mem::{large_page_map_plan, map_page_step, map_plan, MapStep, MemCap, PageMapper};
use sel4_platform::platform::mem::{phys_to_virt, virt_to_phys};

#[test]
fn large_region_translates_both_ways() {
    let mut m = MemCap::new(0x8000_0000, 0x10000);
    m.add_region(0x4000_0000, 0x9020_0000, 0x40_0000);
    assert_eq!(m.virt_to_phys(0x4000_0000), Ok(0x9020_0000));
    assert_eq!(m.virt_to_phys(0x4000_1234), Ok(0x9020_1234));
    assert_eq!(m.virt_to_phys(0x401f_ffff), Ok(0x903f_ffff));
    assert_eq!(m.phys_to_virt(0x9020_0000), Ok(0x4000_0000));
    assert_eq!(m.phys_to_virt(0x9020_0abc), Ok(0x4000_0abc));
}

#[test]
fn translation_only_reaches_the_first_large_page_of_a_region() {
    let mut m = MemCap::new(0, 0);
    m.add_region(0x4000_0000, 0x9000_0000, 0x40_0000);
    // the second 2 MiB page of the region has no key of its own
    assert_eq!(m.virt_to_phys(0x4020_0000), Err(Error::FailedLookup));
    assert_eq!(m.phys_to_virt(0x9020_0000), Err(Error::FailedLookup));
}

#[test]
fn translation_past_region_end_fails() {
    let mut m = MemCap::new(0, 0);
    m.add_region(0x4000_0000, 0x9000_0000, 0x1000);
    assert_eq!(m.virt_to_phys(0x4000_0fff), Ok(0x9000_0fff));
    assert_eq!(m.virt_to_phys(0x4000_1000), Err(Error::FailedLookup));
    assert_eq!(m.phys_to_virt(0x9000_1000), Err(Error::FailedLookup));
    assert_eq!(m.virt_to_phys(0x1234), Err(Error::FailedLookup));
}

#[test]
fn small_region_lookup_uses_page_keys() {
    let mut m = MemCap::new(0, 0);
    // 4 KiB-aligned region, not at a large-page boundary
    m.add_region(0x4000_3000, 0x9000_5000, 0x1000);
    assert_eq!(m.phys_to_virt(0x9000_5010), Ok(0x4000_3010));
    assert_eq!(m.virt_to_phys(0x4000_3010), Ok(0x9000_5010));
    // past the first page of the region, no key covers the address
    assert_eq!(m.virt_to_phys(0x4000_4010), Err(Error::FailedLookup));
}

#[test]
fn small_region_virt_lookup_offset_from_page_key() {
    let mut m = MemCap::new(0, 0);
    m.add_region(0x4000_1000, 0x9000_0000, 0x4000);
    assert_eq!(m.virt_to_phys(0x4000_1010), Ok(0x9000_0010));
}

#[test]
fn virt_to_phys_reverses_phys_to_virt() {
    let mut m = MemCap::new(0, 0);
    m.add_region(0x1234_5000, 0x8000_0000, 0x1000);
    let v = m.phys_to_virt(0x8000_0010).unwrap();
    assert_eq!(v, 0x1234_5010);
    assert_eq!(m.virt_to_phys(v), Ok(0x8000_0010));
    for p in [0x8000_0000usize, 0x8000_0abc, 0x8000_0fff] {
        let v = m.phys_to_virt(p).unwrap();
        assert_eq!(m.virt_to_phys(v), Ok(p));
    }
}

#[test]
fn identity_fallback_when_unmapped() {
    let mut m = MemCap::new(0, 0);
    assert_eq!(phys_to_virt(&m, 0x1234_5678), 0x1234_5678);
    assert_eq!(virt_to_phys(&m, 0x8765_4321), 0x8765_4321);
    m.add_region(0x4000_0000, 0x9000_0000, 0x20_0000);
    assert_eq!(phys_to_virt(&m, 0x9000_0010), 0x4000_0010);
    assert_eq!(virt_to_phys(&m, 0x4000_0010), 0x9000_0010);
}

#[test]
fn later_region_replaces_earlier_at_same_key() {
    let mut m = MemCap::new(0, 0);
    m.add_region(0x4000_0000, 0x9000_0000, 0x1000);
    m.add_region(0x4000_0000, 0xa000_0000, 0x1000);
    assert_eq!(m.virt_to_phys(0x4000_0004), Ok(0xa000_0004));
}

#[test]
fn ipc_buffers_come_from_the_frame_window() {
    let mut m = MemCap::new(0x7000_0000, 0x2000);
    assert_eq!(m.reserve_ipc_buffer(), Ok(0x7000_0000));
    assert_eq!(m.reserve_ipc_buffer(), Ok(0x7000_1000));
    assert_eq!(m.reserve_ipc_buffer(), Err(Error::NotEnoughMemory));
    m.dealloc_ipc_buffer(0x7000_0abc);
    assert_eq!(m.reserve_ipc_buffer(), Ok(0x7000_0000));
    assert_eq!(m.reserve_ipc_buffer(), Err(Error::NotEnoughMemory));
}

#[test]
fn map_plans_check_alignment_and_size() {
    assert_eq!(map_plan(0x1000, 0x3000), Ok(vec![0x1000, 0x2000, 0x3000]));
    assert_eq!(map_plan(0x1001, 0x1000), Err(Error::AlignmentError));
    assert_eq!(map_plan(0x1000, 0), Err(Error::AlignmentError));
    assert_eq!(map_plan(0x1000, 0x1800), Err(Error::AlignmentError));
    assert_eq!(large_page_map_plan(0x4000_0000, 0x40_0000), Ok(vec![0x4000_0000, 0x4020_0000]));
    assert_eq!(large_page_map_plan(0x4000_1000, 0x20_0000), Err(Error::AlignmentError));
    assert_eq!(large_page_map_plan(0x4000_0000, 0x1000), Err(Error::AlignmentError));
}

#[test]
fn map_page_steps() {
    assert_eq!(map_page_step(Ok(())), MapStep::Mapped);
    assert_eq!(map_page_step(Err(Error::FailedLookup)), MapStep::NeedPageTable);
    assert_eq!(map_page_step(Err(Error::DeleteFirst)), MapStep::Failed(Error::DeleteFirst));
}

#[test]
fn page_mapper_bounds_attempts() {
    let mut m = PageMapper::new(2);
    assert!(!m.exhausted());
    assert_eq!(m.step(Err(Error::FailedLookup)), MapStep::NeedPageTable);
    assert!(!m.exhausted());
    assert_eq!(m.step(Ok(())), MapStep::Mapped);
    assert!(m.exhausted());
    assert!(PageMapper::new(0).exhausted());
}

#[test]
fn round_trip_needs_matching_alignment() {
    // physical start on a large page, virtual start only on a 4 KiB page
    let mut m = MemCap::new(0, 0);
    m.add_region(0x4000_3000, 0x9000_0000, 0x20_0000);
    assert_eq!(m.phys_to_virt(0x9000_2000), Ok(0x4000_5000));
    assert_eq!(m.virt_to_phys(0x4000_5000), Err(Error::FailedLookup));
}

#[test]
fn round_trip_with_other_regions_recorded() {
    let mut m = MemCap::new(0, 0);
    m.add_region(0x5000_0000, 0xa000_0000, 0x20_0000);
    m.add_region(0x6000_0000, 0xb000_0000, 0x1000);
    m.add_region(0x1234_5000, 0x8000_0000, 0x1000);
    for p in [0x8000_0000usize, 0x8000_0010, 0x8000_0fff] {
        let v = m.phys_to_virt(p).unwrap();
        assert_eq!(m.virt_to_phys(v), Ok(p));
    }
    for p in [0xa000_0000usize, 0xa010_0000] {
        let v = m.phys_to_virt(p).unwrap();
        assert_eq!(m.virt_to_phys(v), Ok(p));
    }
}

#[test]
fn large_page_map_start_translates_both_ways() {
    let mut m = MemCap::new(0, 0);
    m.add_region(0x4000_0000, 0x1234_5000, 0x1000);
    let pages = large_page_map_plan(0x4000_0000, 0x40_0000).unwrap();
    assert_eq!(pages.len(), 2);
    m.add_region(0x4000_0000, 0x9040_0000, 0x40_0000);
    assert_eq!(m.virt_to_phys(0x4000_0000), Ok(0x9040_0000));
    assert_eq!(m.phys_to_virt(0x9040_0000), Ok(0x4000_0000));
}
