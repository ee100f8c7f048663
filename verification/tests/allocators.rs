use sel4_platform::kit::allocator::{IndexAllocator, UntypedAllocator, VirtFrameAllocator};
use sel4_platform::platform::obj::{alloc_untyped, recycle_untyped};
use sel4_platform::platform::utils::obj::{
    alloc_untyped_unit, recycle_untyped_unit, IndexAllocator as RecycledFirstAllocator, ALLOC_SIZE_BITS,
};

#[test]
fn kit_index_allocator_hands_out_fresh_indices_first() {
    let mut a = IndexAllocator::new(3, 5);
    a.recycle(9);
    assert_eq!(a.allocate(), Some(3));
    assert_eq!(a.allocate(), Some(4));
    assert_eq!(a.allocate(), Some(9));
    assert_eq!(a.allocate(), None);
}

#[test]
fn kit_index_allocator_reuses_after_exhaustion_lifo() {
    let mut a = IndexAllocator::new(0, 1);
    assert_eq!(a.allocate(), Some(0));
    assert_eq!(a.allocate(), None);
    a.recycle(7);
    a.recycle(8);
    assert_eq!(a.allocate(), Some(8));
    assert_eq!(a.allocate(), Some(7));
    assert_eq!(a.allocate(), None);
}

#[test]
fn kit_index_allocator_empty_range() {
    let mut a = IndexAllocator::new(4, 4);
    assert_eq!(a.allocate(), None);
    a.recycle(0);
    assert_eq!(a.allocate(), Some(0));
}

#[test]
fn platform_index_allocator_prefers_recycled() {
    let mut a = RecycledFirstAllocator::new(1, 4095);
    assert_eq!(a.allocate(), Some(1));
    assert_eq!(a.allocate(), Some(2));
    a.recycle(1);
    assert_eq!(a.allocate(), Some(1));
    assert_eq!(a.allocate(), Some(3));
}

#[test]
fn platform_index_allocator_exhausts() {
    let mut a = RecycledFirstAllocator::new(0, 2);
    assert_eq!(a.allocate(), Some(0));
    assert_eq!(a.allocate(), Some(1));
    assert_eq!(a.allocate(), None);
    a.recycle(usize::MAX);
    assert_eq!(a.allocate(), Some(usize::MAX));
    assert_eq!(a.allocate(), None);
}

#[test]
fn frame_allocator_window_then_reuse() {
    // window of 2 pages starting at 0x10000: vpns 0x10 and 0x11
    let mut f = VirtFrameAllocator::new(0x10000, 0x2000);
    assert_eq!(f.allocate(), Some(0x10));
    assert_eq!(f.allocate(), Some(0x11));
    assert_eq!(f.allocate(), None);
    f.dealloc(0x10);
    assert_eq!(f.allocate(), Some(0x10));
    assert_eq!(f.allocate(), None);
}

#[test]
fn frame_allocator_ignores_double_free_and_unallocated() {
    let mut f = VirtFrameAllocator::new(0, 0x3000);
    assert_eq!(f.allocate(), Some(0));
    assert_eq!(f.allocate(), Some(1));
    f.dealloc(1);
    f.dealloc(1);
    f.dealloc(2); // never handed out
    assert_eq!(f.allocate(), Some(2)); // fresh first
    assert_eq!(f.allocate(), Some(1));
    assert_eq!(f.allocate(), None);
}

#[test]
fn frame_allocator_unaligned_window() {
    // [0x1800, 0x3800) holds the pages whose numbers run from 1 up to 3
    let mut f = VirtFrameAllocator::new(0x1800, 0x2000);
    assert_eq!(f.allocate(), Some(1));
    assert_eq!(f.allocate(), Some(2));
    assert_eq!(f.allocate(), None);
}

#[test]
fn frame_allocations_are_distinct() {
    let mut f = VirtFrameAllocator::new(0, 0x2000);
    let a = f.allocate().unwrap();
    let b = f.allocate().unwrap();
    assert_ne!(a, b);
    f.dealloc(a);
    f.dealloc(b);
    let c = f.allocate().unwrap();
    let d = f.allocate().unwrap();
    assert_ne!(c, d);
    assert_eq!(c, b);
    assert_eq!(d, a);
}

#[test]
fn untyped_allocator_per_cpu_pools() {
    let mut u = UntypedAllocator::new(18, 2);
    assert_eq!(u.untyped_size(), 18);
    assert_eq!(u.allocate(0), None);
    u.dealloc(100, 0);
    u.dealloc(101, 0);
    u.dealloc(200, 1);
    assert_eq!(u.allocate(1), Some(200));
    assert_eq!(u.allocate(1), None);
    assert_eq!(u.allocate(0), Some(101));
    assert_eq!(u.allocate(0), Some(100));
    assert_eq!(u.allocate(0), None);
}

#[test]
fn platform_untyped_forwarders() {
    let mut u = UntypedAllocator::new(18, 4);
    assert_eq!(alloc_untyped(&mut u, 3), None);
    recycle_untyped(&mut u, 42, 3);
    assert_eq!(alloc_untyped(&mut u, 2), None);
    assert_eq!(alloc_untyped(&mut u, 3), Some(42));
}

#[test]
fn untyped_unit_pool_is_lifo() {
    let mut pool: Vec<u64> = Vec::new();
    assert_eq!(alloc_untyped_unit(&mut pool), (None, 1 << ALLOC_SIZE_BITS));
    recycle_untyped_unit(&mut pool, 5);
    recycle_untyped_unit(&mut pool, 6);
    assert_eq!(alloc_untyped_unit(&mut pool), (Some(6), 0x80000));
    assert_eq!(alloc_untyped_unit(&mut pool), (Some(5), 0x80000));
    assert_eq!(alloc_untyped_unit(&mut pool), (None, 0x80000));
}
