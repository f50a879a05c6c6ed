use yanyaengine::allocators::{GeometrySlotSet, ObjectAllocator};
use yanyaengine::guard::DirtyBufferGuard;

#[test]
fn allocator_replicates_regions() {
    let allocator = ObjectAllocator::new(3);
    assert_eq!(allocator.subbuffers_amount(), 3);
    let slots: GeometrySlotSet<u64> = allocator.subbuffers(5, 0);
    assert_eq!(slots.num_regions(), 3);
    assert_eq!(slots.element_count(), 5);
    for parity in 0..3 {
        assert_eq!(slots.region(parity).as_slice(), &[0u64, 0, 0, 0, 0]);
    }
}

#[test]
fn buffer_round_trip() {
    let allocator = ObjectAllocator::new(2);
    let mut slots: GeometrySlotSet<u64> = allocator.subbuffers(4, 0);
    let data: Vec<u64> = vec![10, 20, 30, 40];
    slots.write(1, &data);
    // reading the region back immediately yields exactly what was written
    assert_eq!(slots.region(1).as_slice(), data.as_slice());
    // and the other parity's region is untouched
    assert_eq!(slots.region(0).as_slice(), &[0u64, 0, 0, 0]);
}

#[test]
fn writes_to_different_parities_are_independent() {
    let allocator = ObjectAllocator::new(2);
    let mut slots: GeometrySlotSet<i64> = allocator.subbuffers(2, -1);
    let even: Vec<i64> = vec![1, 2];
    let odd: Vec<i64> = vec![3, 4];
    slots.write(0, &even);
    slots.write(1, &odd);
    assert_eq!(slots.region(0).as_slice(), &[1i64, 2]);
    assert_eq!(slots.region(1).as_slice(), &[3i64, 4]);
    let even2: Vec<i64> = vec![7, 8];
    slots.write(0, &even2);
    assert_eq!(slots.region(0).as_slice(), &[7i64, 8]);
    assert_eq!(slots.region(1).as_slice(), &[3i64, 4], "parity 1 keeps its data");
}

#[test]
fn fresh_guard_rejects_draws() {
    let guard = DirtyBufferGuard::new();
    assert!(!guard.check_updated(0));
    assert!(!guard.check_updated(1));
}

#[test]
fn guard_passes_after_matching_mark() {
    let mut guard = DirtyBufferGuard::new();
    guard.mark_updated(0);
    assert!(guard.check_updated(0));
    assert!(!guard.check_updated(1));
    guard.assert_updated(0);
}

#[test]
fn guard_rejects_stale_parity() {
    let mut guard = DirtyBufferGuard::new();
    guard.mark_updated(0);
    guard.mark_updated(1);
    // the draw parity must match the latest write
    assert!(guard.check_updated(1));
    assert!(!guard.check_updated(0));
}
