use gfx_core::ringbuffer::RingBuffer;

#[test]
fn empty_ring_iter() {
    let buffer = RingBuffer::<u64>::new(10);
    let mut it = buffer.iter();
    while let Some(i) = it.next() {
        println!("{}", i);
    }
    assert!(true);
}

#[test]
fn empty_ring_iter_mut() {
    let mut buffer = RingBuffer::<u64>::new(10);
    let mut it = buffer.iter_mut();
    while let Some(i) = it.next(&mut buffer) {
        println!("{}", i);
    }
    assert!(true);
}

#[test]
fn non_empty_ring_iter() {
    let mut buffer = RingBuffer::<u64>::new(10);
    buffer.add(2);
    buffer.add(1);
    let mut out = Vec::<u64>::new();
    let mut it = buffer.iter();
    while let Some(i) = it.next() {
        out.push(*i);
    }
    assert!(out == vec![1, 2]);
}

#[test]
fn newest_first_order() {
    let mut buffer = RingBuffer::<u64>::new(3);
    buffer.add(1);
    buffer.add(2);
    buffer.add(3);
    assert_eq!(*buffer.get(0), 3);
    assert_eq!(*buffer.get(1), 2);
    assert_eq!(*buffer.get(2), 1);
    assert_eq!(buffer.count(), 3);
    assert!(!buffer.empty());
}

#[test]
fn full_buffer_evicts_oldest() {
    let mut buffer = RingBuffer::<u64>::new(3);
    buffer.add(1);
    buffer.add(2);
    buffer.add(3);
    buffer.add(4);
    assert_eq!(buffer.count(), 3);
    assert_eq!(*buffer.get(0), 4);
    assert_eq!(*buffer.get(1), 3);
    assert_eq!(*buffer.get(2), 2);
}

#[test]
fn advance_wraps_at_capacity() {
    let buffer = RingBuffer::<u64>::new(10);
    assert_eq!(buffer.advance(0), 1);
    assert_eq!(buffer.advance(9), 0);
}

#[test]
fn raw_index_is_logical_index() {
    let mut buffer = RingBuffer::<u64>::new(4);
    buffer.add(7);
    buffer.add(8);
    assert_eq!(buffer.raw_index(0), 0);
    assert_eq!(buffer.raw_index(1), 1);
}

#[test]
fn get_mut_updates_in_place() {
    let mut buffer = RingBuffer::<u64>::new(4);
    buffer.add(7);
    buffer.add(8);
    *buffer.get_mut(1) = 70;
    assert_eq!(*buffer.get(0), 8);
    assert_eq!(*buffer.get(1), 70);
}

#[test]
fn iter_mut_updates_every_value() {
    let mut buffer = RingBuffer::<u64>::new(4);
    buffer.add(1);
    buffer.add(2);
    let mut it = buffer.iter_mut();
    while let Some(v) = it.next(&mut buffer) {
        *v += 100;
    }
    assert_eq!(*buffer.get(0), 102);
    assert_eq!(*buffer.get(1), 101);
}

#[test]
fn drop_while_removes_newest_prefix() {
    let mut buffer = RingBuffer::<u64>::new(8);
    for v in 1..=5 {
        buffer.add(v);
    }
    // Newest first: 5, 4, 3, 2, 1.
    buffer.drop_while(|t: &u64| *t > 3);
    assert_eq!(buffer.count(), 3);
    assert_eq!(*buffer.get(0), 3);
    assert_eq!(*buffer.get(2), 1);
}

#[test]
fn drop_while_can_empty_the_buffer() {
    let mut buffer = RingBuffer::<u64>::new(4);
    buffer.add(1);
    buffer.add(2);
    buffer.drop_while(|_t: &u64| true);
    assert!(buffer.empty());
    assert_eq!(buffer.count(), 0);
}
