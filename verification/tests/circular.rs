use voxel_planet::circular::CircularVec;

fn collect(ring: &CircularVec<u32>, reverse: bool) -> Vec<u32> {
    let mut iter = if reverse { ring.iter_rev() } else { ring.iter() };
    let mut items = vec![];
    loop {
        match iter.next() {
            Some(item) => items.push(*item),
            None => return items,
        }
    }
}

#[test]
fn with_len_fills_with_default() {
    let ring: CircularVec<u32> = CircularVec::with_len(4);
    assert_eq!(ring.len(), 4);
    assert_eq!(collect(&ring, false), vec![0, 0, 0, 0]);
    assert_eq!(*ring.head(), 0);
}

#[test]
fn with_len_and_default_fills_with_value() {
    let ring: CircularVec<u32> = CircularVec::with_len_and_default(3, 7);
    assert_eq!(ring.len(), 3);
    assert_eq!(collect(&ring, false), vec![7, 7, 7]);
    let empty: CircularVec<u32> = CircularVec::with_len_and_default(0, 7);
    assert_eq!(empty.len(), 0);
    assert_eq!(collect(&empty, false), Vec::<u32>::new());
    assert_eq!(collect(&empty, true), Vec::<u32>::new());
}

#[test]
fn replace_returns_previous_head() {
    let mut ring: CircularVec<u32> = CircularVec::with_len_and_default(3, 7);
    assert_eq!(ring.replace(1), 7);
    assert_eq!(ring.replace(2), 1);
    assert_eq!(*ring.head(), 2);
    assert_eq!(collect(&ring, false), vec![2, 7, 7]);
}

#[test]
fn advance_wraps_around() {
    let mut ring: CircularVec<u32> = CircularVec::with_len(3);
    ring.replace(10);
    ring.advance();
    ring.replace(11);
    ring.advance();
    ring.replace(12);
    assert_eq!(collect(&ring, false), vec![12, 10, 11]);
    ring.advance();
    assert_eq!(*ring.head(), 10);
    assert_eq!(collect(&ring, false), vec![10, 11, 12]);
    ring.replace(13);
    assert_eq!(collect(&ring, false), vec![13, 11, 12]);
}

#[test]
fn get_counts_from_head_and_wraps() {
    let mut ring: CircularVec<u32> = CircularVec::with_len(3);
    ring.replace(10);
    ring.advance();
    ring.replace(11);
    ring.advance();
    ring.replace(12);
    assert_eq!(*ring.get(0), 12);
    assert_eq!(*ring.get(1), 10);
    assert_eq!(*ring.get(2), 11);
    assert_eq!(*ring.get(3), 12);
    assert_eq!(*ring.get(7), 10);
    assert_eq!(*ring.get(usize::MAX), *ring.get(usize::MAX % 3));
}

#[test]
fn get_mut_and_head_mut_write_in_place() {
    let mut ring: CircularVec<u32> = CircularVec::with_len(3);
    *ring.head_mut() = 5;
    *ring.get_mut(1) = 6;
    *ring.get_mut(5) += 9;
    assert_eq!(collect(&ring, false), vec![5, 6, 9]);
    ring.advance();
    *ring.head_mut() += 1;
    assert_eq!(collect(&ring, false), vec![7, 9, 5]);
}

#[test]
fn iter_rev_starts_before_head_and_ends_at_head() {
    let mut ring: CircularVec<u32> = CircularVec::with_len(4);
    for value in 1..=4u32 {
        ring.replace(value);
        ring.advance();
    }
    assert_eq!(collect(&ring, false), vec![1, 2, 3, 4]);
    assert_eq!(collect(&ring, true), vec![4, 3, 2, 1]);
    ring.replace(5);
    ring.advance();
    assert_eq!(collect(&ring, false), vec![2, 3, 4, 5]);
    assert_eq!(collect(&ring, true), vec![5, 4, 3, 2]);
}

#[test]
fn ring_of_one_keeps_its_head() {
    let mut ring: CircularVec<u32> = CircularVec::with_len(1);
    ring.replace(3);
    ring.advance();
    assert_eq!(*ring.head(), 3);
    assert_eq!(*ring.get(100), 3);
    assert_eq!(collect(&ring, true), vec![3]);
    let mut iter = ring.iter();
    assert_eq!(iter.next(), Some(&3));
    assert_eq!(iter.next(), None);
    assert_eq!(iter.next(), None);
}
