use voxel_planet::payload::{Payload, CAPACITY};

#[test]
fn iter() {
    let mut payload: Payload<u32> = Payload::default();
    payload.push(10);
    payload.push(15);
    payload.push(4);
    let mut iter = payload.iter();
    assert_eq!(iter.next(), Some(10));
    assert_eq!(iter.next(), Some(15));
    assert_eq!(iter.next(), Some(4));
    assert_eq!(iter.next(), None);
}

#[test]
fn reset() {
    let mut payload: Payload<u32> = Payload::default();
    payload.push(3);
    payload.push(2);
    payload.push(1);
    payload.reset();
    assert_eq!(payload.len(), 0);
}

#[test]
fn len() {
    let mut payload: Payload<u32> = Payload::default();
    payload.push(10);
    payload.push(15);
    payload.push(4);
    assert_eq!(payload.len(), 3);
}

#[test]
fn payload_fills_to_capacity() {
    assert_eq!(CAPACITY, 16);
    let mut payload: Payload<u32> = Payload::new();
    assert_eq!(payload.len(), 0);
    assert_eq!(payload.iter().next(), None);
    for i in 0..CAPACITY {
        payload.push(i as u32 * 2);
    }
    assert_eq!(payload.len(), 16);
    let mut iter = payload.iter();
    for i in 0..CAPACITY {
        assert_eq!(iter.next(), Some(i as u32 * 2));
    }
    assert_eq!(iter.next(), None);
}

#[test]
fn payload_can_be_refilled_after_reset() {
    let mut payload: Payload<u8> = Payload::new();
    payload.push(1);
    payload.push(2);
    payload.reset();
    payload.push(9);
    assert_eq!(payload.len(), 1);
    let mut iter = payload.iter();
    assert_eq!(iter.next(), Some(9));
    assert_eq!(iter.next(), None);
}
