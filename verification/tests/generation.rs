use voxel_planet::generation::{GenerationalIndex, GenerationalIndexAllocator, GenerationalIndexVec};

fn index(index: usize, generation: u64) -> GenerationalIndex {
    GenerationalIndex::new(index, generation)
}

#[test]
fn set_consecutive_values() {
    let mut vec = GenerationalIndexVec::<u32>::new();
    let index0gen1 = index(0, 1);
    let index1gen1 = index(1, 1);
    vec.set(index0gen1, 5);
    vec.set(index1gen1, 3);
    assert_eq!(vec.len(), 2);
    assert_eq!(vec.get(index0gen1), Some(&5));
    assert_eq!(vec.get(index1gen1), Some(&3));
}

#[test]
fn overwrite_value_with_same_generation() {
    let mut vec = GenerationalIndexVec::<u32>::new();
    let index0gen1 = index(0, 1);
    vec.set(index0gen1, 5);
    vec.set(index0gen1, 2);
    vec.set(index0gen1, 10);
    assert_eq!(vec.len(), 1);
    assert_eq!(vec.get(index0gen1), Some(&10));
}

#[test]
fn overwrite_value_with_new_generation() {
    let mut vec = GenerationalIndexVec::<u32>::new();
    let index0gen1 = index(0, 1);
    let index0gen2 = index(0, 2);
    vec.set(index0gen1, 10);
    vec.set(index0gen2, 4);
    assert_eq!(vec.len(), 1);
    assert_eq!(vec.get(index0gen1), None);
    assert_eq!(vec.get(index0gen2), Some(&4));
}

#[test]
fn set_with_index_gap() {
    let mut vec = GenerationalIndexVec::<u32>::new();
    let index0gen1 = index(0, 1);
    let index10gen1 = index(10, 1);
    vec.set(index0gen1, 5);
    vec.set(index10gen1, 3);
    assert_eq!(vec.len(), 11);
    assert_eq!(vec.get(index0gen1), Some(&5));
    assert_eq!(vec.get(index10gen1), Some(&3));
}

#[test]
fn overwrite_value_in_place() {
    let mut vec = GenerationalIndexVec::<u32>::new();
    let index0gen1 = index(0, 1);
    vec.set(index0gen1, 4);
    let entry = vec.get_mut(index0gen1).unwrap();
    *entry += 2;
    assert_eq!(vec.len(), 1);
    assert_eq!(vec.get(index0gen1), Some(&6));
}

#[test]
fn allocate_index() {
    let mut allocator = GenerationalIndexAllocator::new();
    let index0gen1 = allocator.allocate();
    assert_eq!(index0gen1.index, 0);
    assert_eq!(index0gen1.generation, 1);
}

#[test]
fn is_live() {
    let mut allocator = GenerationalIndexAllocator::new();
    let index0gen1 = allocator.allocate();
    assert_eq!(allocator.is_live(index0gen1), true);
    assert_eq!(allocator.deallocate(index0gen1), true);
    assert_eq!(allocator.is_live(index0gen1), false);
}

#[test]
fn deallocate_twice_returns_false() {
    let mut allocator = GenerationalIndexAllocator::new();
    let index0gen1 = allocator.allocate();
    assert_eq!(allocator.deallocate(index0gen1), true);
    assert_eq!(allocator.deallocate(index0gen1), false);
}

#[test]
fn reallocate_reuses_old_index() {
    let mut allocator = GenerationalIndexAllocator::new();
    let index0gen1 = allocator.allocate();
    allocator.deallocate(index0gen1);
    let index0gen2 = allocator.allocate();
    assert_eq!(index0gen2.index, 0);
    assert_eq!(index0gen2.generation, 2);
}

#[test]
fn just_do_alot_of_allocations() {
    let mut allocator = GenerationalIndexAllocator::new();
    for i in 0..10 {
        let index = allocator.allocate();
        assert_eq!(index.index, i);
        assert_eq!(index.generation, 1);
    }
}

#[test]
fn get_none_gives_none() {
    let mut vec = GenerationalIndexVec::<u32>::new();
    let none = GenerationalIndex::none();
    let index0gen1 = index(0, 1);
    vec.set(index0gen1, 5);
    assert_eq!(vec.get(none), None);
}

#[test]
fn none_is_slot_zero_generation_zero() {
    let none = GenerationalIndex::none();
    assert_eq!(none.index, 0);
    assert_eq!(none.generation, 0);
    assert_eq!(none, GenerationalIndex::new(0, 0));
    assert_ne!(none, GenerationalIndex::new(0, 1));
}

#[test]
fn reallocated_slot_is_live_again_and_old_handle_stays_dead() {
    let mut allocator = GenerationalIndexAllocator::new();
    let first = allocator.allocate();
    assert!(allocator.deallocate(first));
    let second = allocator.allocate();
    assert_eq!(second, GenerationalIndex::new(0, 2));
    assert!(allocator.is_live(second));
    assert!(!allocator.is_live(first));
    assert!(!allocator.deallocate(first));
    assert!(allocator.is_live(second));
}

#[test]
fn stale_handle_reads_nothing_from_newer_data() {
    let mut allocator = GenerationalIndexAllocator::new();
    let mut vec = GenerationalIndexVec::<u32>::new();
    let a = allocator.allocate();
    assert_eq!((a.index, a.generation), (0, 1));
    assert!(allocator.deallocate(a));
    let b = allocator.allocate();
    assert_eq!((b.index, b.generation), (0, 2));
    vec.set(b, 77);
    assert!(!allocator.is_live(a));
    assert_eq!(vec.get(a), None);
    assert!(vec.get_mut(a).is_none());
    assert_eq!(vec.get(b), Some(&77));
}

#[test]
fn is_live_of_unknown_slot_is_false() {
    let mut allocator = GenerationalIndexAllocator::new();
    assert!(!allocator.is_live(GenerationalIndex::new(3, 1)));
    assert!(!allocator.deallocate(GenerationalIndex::new(3, 1)));
    assert!(!allocator.is_live(GenerationalIndex::none()));
    let only = allocator.allocate();
    assert!(!allocator.is_live(GenerationalIndex::new(only.index, 9)));
    assert!(!allocator.deallocate(GenerationalIndex::new(only.index, 9)));
    assert!(allocator.is_live(only));
}

#[test]
fn free_slots_are_reused_last_freed_first() {
    let mut allocator = GenerationalIndexAllocator::new();
    let a = allocator.allocate();
    let b = allocator.allocate();
    let c = allocator.allocate();
    assert!(allocator.deallocate(a));
    assert!(allocator.deallocate(c));
    let d = allocator.allocate();
    let e = allocator.allocate();
    let f = allocator.allocate();
    assert_eq!(d, GenerationalIndex::new(2, 2));
    assert_eq!(e, GenerationalIndex::new(0, 2));
    assert_eq!(f, GenerationalIndex::new(3, 1));
    assert!(allocator.is_live(b));
}

#[test]
fn allocated_handles_never_repeat() {
    let mut allocator = GenerationalIndexAllocator::new();
    let mut seen: Vec<GenerationalIndex> = vec![];
    for round in 0..20usize {
        let handle = allocator.allocate();
        assert!(handle.generation >= 1);
        assert!(!seen.contains(&handle));
        seen.push(handle);
        if round % 3 != 0 {
            assert!(allocator.deallocate(handle));
        }
    }
}

#[test]
fn pool_iter_yields_live_handles_in_slot_order() {
    let mut allocator = GenerationalIndexAllocator::new();
    let a = allocator.allocate();
    let b = allocator.allocate();
    let c = allocator.allocate();
    let d = allocator.allocate();
    assert!(allocator.deallocate(b));
    assert!(allocator.deallocate(d));
    let mut iter = allocator.iter();
    assert_eq!(iter.next(), Some(a));
    assert_eq!(iter.next(), Some(c));
    assert_eq!(iter.next(), None);
    assert_eq!(iter.next(), None);
    let mut again = allocator.iter();
    assert_eq!(again.next(), Some(a));
    let mut empty = GenerationalIndexAllocator::new();
    assert_eq!(empty.iter().next(), None);
    let only = empty.allocate();
    assert_eq!(empty.iter().next(), Some(only));
}

#[test]
fn set_at_slot_ten_of_empty_table_leaves_gap_absent() {
    let mut vec = GenerationalIndexVec::<u32>::new();
    assert_eq!(vec.len(), 0);
    vec.set(index(10, 1), 3);
    assert_eq!(vec.len(), 11);
    for slot in 0..10 {
        assert_eq!(vec.get(index(slot, 1)), None);
        assert_eq!(vec.get(index(slot, 0)), None);
    }
    assert_eq!(vec.get(index(10, 1)), Some(&3));
    assert_eq!(vec.get(index(11, 1)), None);
}

#[test]
fn get_after_set_returns_value_written() {
    let mut vec = GenerationalIndexVec::<String>::new();
    let handle = index(4, 7);
    vec.set(handle, String::from("camera"));
    assert_eq!(vec.get(handle), Some(&String::from("camera")));
    vec.set(index(2, 1), String::from("cube"));
    assert_eq!(vec.get(handle), Some(&String::from("camera")));
    assert_eq!(vec.get(index(2, 1)), Some(&String::from("cube")));
    assert_eq!(vec.len(), 5);
}

#[test]
fn set_with_older_generation_still_overwrites() {
    let mut vec = GenerationalIndexVec::<u32>::new();
    vec.set(index(0, 5), 1);
    vec.set(index(0, 3), 2);
    assert_eq!(vec.get(index(0, 5)), None);
    assert_eq!(vec.get(index(0, 3)), Some(&2));
    assert_eq!(vec.len(), 1);
}

#[test]
fn fresh_allocator_has_room() {
    let mut allocator = GenerationalIndexAllocator::new();
    assert!(allocator.has_room());
    let handle = allocator.allocate();
    assert!(allocator.has_room());
    assert!(allocator.deallocate(handle));
    assert!(allocator.has_room());
}
