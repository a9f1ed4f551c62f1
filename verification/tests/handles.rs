use genarc::{Arc, Heap, Inner};

#[test]
fn use_after_free() {
    let mut heap: Heap<i32> = Heap::new();
    let arc = Arc::new(&mut heap, 50);
    let weak = Arc::downgrade(&arc, &heap);

    let promoted = weak.upgrade(&mut heap).unwrap();
    assert_eq!(50, *promoted.get(&heap));
    promoted.release(&mut heap);

    arc.release(&mut heap);

    assert!(weak.upgrade(&mut heap).is_none());
}

#[test]
fn use_after_clone() {
    let mut heap: Heap<i32> = Heap::new();
    let arc = Arc::new(&mut heap, 55);
    let weak = Arc::downgrade(&arc, &heap);

    let cloned = arc.clone(&mut heap);
    let promoted = weak.upgrade(&mut heap).unwrap();
    assert_eq!(55, *promoted.get(&heap));
    promoted.release(&mut heap);

    arc.release(&mut heap);

    let promoted = weak.upgrade(&mut heap).unwrap();
    assert_eq!(55, *promoted.get(&heap));
    promoted.release(&mut heap);

    cloned.release(&mut heap);

    assert!(weak.upgrade(&mut heap).is_none());
}

#[test]
fn revive() {
    let mut heap: Heap<i32> = Heap::new();
    let arc = Arc::new(&mut heap, 21);
    let weak = Arc::downgrade(&arc, &heap);
    let strong = weak.upgrade(&mut heap).unwrap();
    arc.release(&mut heap);

    let promoted = weak.upgrade(&mut heap).unwrap();
    assert_eq!(21, *promoted.get(&heap));
    promoted.release(&mut heap);

    strong.release(&mut heap);

    assert!(weak.upgrade(&mut heap).is_none());
}

#[test]
fn counts_rise_and_fall() {
    let mut heap: Heap<u8> = Heap::new();
    let arc = Arc::new(&mut heap, 9);
    assert_eq!(1, heap.slots[0].as_ref().unwrap().ref_count);

    let cloned = arc.clone(&mut heap);
    assert_eq!(2, heap.slots[0].as_ref().unwrap().ref_count);

    let weak = Arc::downgrade(&arc, &heap);
    let promoted = weak.upgrade(&mut heap).unwrap();
    assert_eq!(3, heap.slots[0].as_ref().unwrap().ref_count);

    promoted.release(&mut heap);
    assert_eq!(2, heap.slots[0].as_ref().unwrap().ref_count);
    cloned.release(&mut heap);
    assert_eq!(1, heap.slots[0].as_ref().unwrap().ref_count);

    arc.release(&mut heap);
    assert!(heap.slots[0].is_none());
}

#[test]
fn freed_cell_stays_freed() {
    let mut heap: Heap<i32> = Heap::new();
    let arc = Arc::new(&mut heap, 3);
    let weak = Arc::downgrade(&arc, &heap);
    arc.release(&mut heap);

    assert!(weak.upgrade(&mut heap).is_none());
    assert!(weak.upgrade(&mut heap).is_none());
    assert!(heap.slots[0].is_none());
}

#[test]
fn independent_allocations() {
    let mut heap: Heap<i32> = Heap::new();
    let first = Arc::new(&mut heap, 10);
    let second = Arc::new(&mut heap, 20);
    let weak_first = Arc::downgrade(&first, &heap);
    let weak_second = Arc::downgrade(&second, &heap);

    first.release(&mut heap);

    assert!(weak_first.upgrade(&mut heap).is_none());
    let promoted = weak_second.upgrade(&mut heap).unwrap();
    assert_eq!(20, *promoted.get(&heap));
    promoted.release(&mut heap);
    second.release(&mut heap);
}

#[test]
fn weak_handles_are_plain_copies() {
    let mut heap: Heap<i32> = Heap::new();
    let arc = Arc::new(&mut heap, 77);
    let weak = Arc::downgrade(&arc, &heap);
    let copy = weak;

    let promoted = copy.upgrade(&mut heap).unwrap();
    assert_eq!(77, *promoted.get(&heap));
    promoted.release(&mut heap);

    arc.release(&mut heap);
    assert!(weak.upgrade(&mut heap).is_none());
    assert!(copy.upgrade(&mut heap).is_none());
}

#[test]
fn lock_succeeds_only_on_matching_identity() {
    let mut inner = Inner { provenance: 42usize, ref_count: 1usize, data: 0i32 };

    assert!(!inner.lock(40));
    assert_eq!(42, inner.provenance);

    assert!(inner.lock(42));
    assert_eq!(43, inner.provenance);

    inner.unlock(42);
    assert_eq!(42, inner.provenance);
}

#[test]
fn derivation_clears_the_lock_flag() {
    let locked = Inner { provenance: 43usize, ref_count: 1usize, data: 0i32 };
    let weak = locked.weak(7);
    assert_eq!(42, weak.provenance);
    assert_eq!(7, weak.ptr);

    let unlocked = Inner { provenance: 42usize, ref_count: 1usize, data: 0i32 };
    let weak = unlocked.weak(0);
    assert_eq!(42, weak.provenance);
    assert_eq!(0, weak.ptr);
}

#[test]
fn fresh_identities_are_unlocked() {
    let mut heap: Heap<i32> = Heap::new();
    let arc = Arc::new(&mut heap, 1);
    assert_eq!(0, heap.slots[0].as_ref().unwrap().provenance & 1);
    arc.release(&mut heap);
}

#[test]
fn mixed_interleaving_frees_exactly_once() {
    let mut heap: Heap<i32> = Heap::new();
    let a = Arc::new(&mut heap, 64);
    let weak = Arc::downgrade(&a, &heap);

    let b = a.clone(&mut heap);
    let c = weak.upgrade(&mut heap).unwrap();
    a.release(&mut heap);
    let d = b.clone(&mut heap);
    b.release(&mut heap);
    c.release(&mut heap);

    assert!(heap.slots[0].is_some());
    assert_eq!(1, heap.slots[0].as_ref().unwrap().ref_count);
    assert_eq!(64, *d.get(&heap));

    d.release(&mut heap);
    assert!(heap.slots[0].is_none());
    assert!(weak.upgrade(&mut heap).is_none());
}
