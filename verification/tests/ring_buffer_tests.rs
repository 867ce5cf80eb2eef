use ring_buffer::ring_buffer::RingBuffer;

#[test]
fn test_push_and_pop() {
    let mut buffer = RingBuffer::new(3);

    buffer.push(1);
    buffer.push(2);
    buffer.push(3);

    assert_eq!(buffer.pop(), 1);
    assert_eq!(buffer.pop(), 2);
    assert_eq!(buffer.pop(), 3);
}

#[test]
fn test_peek() {
    let mut buffer = RingBuffer::new(3);

    buffer.push(1);
    buffer.push(2);

    assert_eq!(buffer.peek(), 1);

    buffer.pop();

    assert_eq!(buffer.peek(), 2);
}

#[test]
fn test_set_read_and_write_index() {
    let mut buffer = RingBuffer::new(3);

    buffer.push(1);
    buffer.push(2);
    buffer.push(3);

    buffer.set_read_index(1);
    buffer.set_write_index(2);

    assert_eq!(buffer.get_read_index(), 1);
    assert_eq!(buffer.get_write_index(), 2);

    assert_eq!(buffer.get(0), 2);
    assert_eq!(buffer.get(1), 3);
}

#[test]
fn test_reset() {
    let mut buffer = RingBuffer::new(3);

    buffer.push(1);
    buffer.push(2);

    buffer.reset();

    assert_eq!(buffer.len(), 0);
    assert_eq!(buffer.get_read_index(), 0);
    assert_eq!(buffer.get_write_index(), 0);
}

#[test]
fn test_fifo_across_wrap_around() {
    let mut buffer = RingBuffer::new(3);

    buffer.push(1);
    buffer.push(2);
    buffer.push(3);

    assert_eq!(buffer.pop(), 1);

    // The write cursor has wrapped to slot 0; FIFO order still holds.
    buffer.push(4);

    assert_eq!(buffer.pop(), 2);
    assert_eq!(buffer.pop(), 3);
    assert_eq!(buffer.pop(), 4);
}

#[test]
fn test_peek_is_idempotent_and_non_destructive() {
    let mut buffer = RingBuffer::new(3);

    buffer.push(5);
    buffer.push(6);

    assert_eq!(buffer.peek(), 5);
    assert_eq!(buffer.peek(), 5);
    assert_eq!(buffer.peek(), 5);
    assert_eq!(buffer.get_read_index(), 0);
    assert_eq!(buffer.get_write_index(), 2);
    assert_eq!(buffer.len(), 2);
    assert_eq!(buffer.pop(), 5);
}

#[test]
fn test_get_wrap_equivalence() {
    let mut buffer = RingBuffer::new(3);

    buffer.push(10);
    buffer.push(20);
    buffer.push(30);

    for offset in 0..3 {
        assert_eq!(buffer.get(offset), buffer.get(offset + 3));
        assert_eq!(buffer.get(offset), buffer.get(offset + 6));
    }
    assert_eq!(buffer.get(0), 10);
    assert_eq!(buffer.get(1), 20);
    assert_eq!(buffer.get(2), 30);

    // get advances nothing.
    assert_eq!(buffer.get_read_index(), 0);
    assert_eq!(buffer.get_write_index(), 0);
}

#[test]
fn test_reset_zeroes_every_slot() {
    let mut buffer = RingBuffer::new(4);

    buffer.push(7);
    buffer.push(8);
    buffer.push(9);

    buffer.reset();

    assert_eq!(buffer.len(), 0);
    assert_eq!(buffer.get_read_index(), 0);
    assert_eq!(buffer.get_write_index(), 0);
    for offset in 0..4 {
        assert_eq!(buffer.get(offset), 0);
    }
}

#[test]
fn test_set_read_index_wraps_modulo_capacity() {
    let mut buffer = RingBuffer::<i32>::new(3);

    buffer.set_read_index(5);
    assert_eq!(buffer.get_read_index(), 2);

    buffer.set_read_index(3);
    assert_eq!(buffer.get_read_index(), 0);

    buffer.set_read_index(2);
    assert_eq!(buffer.get_read_index(), 2);
}

#[test]
fn test_set_write_index_wraps_modulo_capacity() {
    let mut buffer = RingBuffer::<i32>::new(3);

    buffer.set_write_index(7);
    assert_eq!(buffer.get_write_index(), 1);

    buffer.set_write_index(3);
    assert_eq!(buffer.get_write_index(), 0);
}

#[test]
fn test_put_does_not_advance_cursors() {
    let mut buffer = RingBuffer::new(2);

    buffer.put(7);

    assert_eq!(buffer.get_read_index(), 0);
    assert_eq!(buffer.get_write_index(), 0);
    assert_eq!(buffer.peek(), 7);

    // A second put lands on the same slot.
    buffer.put(9);
    assert_eq!(buffer.peek(), 9);
    assert_eq!(buffer.len(), 0);
}

#[test]
fn test_pop_from_fresh_buffer_returns_zero() {
    let mut buffer = RingBuffer::<i16>::new(2);

    assert_eq!(buffer.pop(), 0);
    assert_eq!(buffer.get_read_index(), 1);
}

#[test]
fn test_len_tracks_cursor_distance() {
    let mut buffer = RingBuffer::<i32>::new(3);

    assert_eq!(buffer.len(), 0);
    buffer.push(1);
    assert_eq!(buffer.len(), 1);
    buffer.push(2);
    assert_eq!(buffer.len(), 2);
    buffer.pop();
    assert_eq!(buffer.len(), 1);

    // Writer behind reader: the distance wraps.
    buffer.set_read_index(2);
    buffer.set_write_index(1);
    assert_eq!(buffer.len(), 2);

    // A full turn of pushes is indistinguishable from empty.
    buffer.set_read_index(0);
    buffer.set_write_index(0);
    assert_eq!(buffer.len(), 0);
}

#[test]
fn test_capacity_is_constant() {
    let mut buffer = RingBuffer::<u16>::new(5);

    assert_eq!(buffer.capacity(), 5);
    buffer.push(1);
    buffer.pop();
    buffer.reset();
    assert_eq!(buffer.capacity(), 5);
}

#[test]
fn test_push_full_capacity_then_pop_all() {
    let mut buffer = RingBuffer::<u64>::new(4);

    buffer.push(11);
    buffer.push(22);
    buffer.push(33);
    buffer.push(44);

    assert_eq!(buffer.len(), 0);
    assert_eq!(buffer.pop(), 11);
    assert_eq!(buffer.pop(), 22);
    assert_eq!(buffer.pop(), 33);
    assert_eq!(buffer.pop(), 44);
}

#[test]
fn test_capacity_one_always_wraps() {
    let mut buffer = RingBuffer::<i8>::new(1);

    buffer.push(3);
    assert_eq!(buffer.get_write_index(), 0);
    assert_eq!(buffer.pop(), 3);
    assert_eq!(buffer.get_read_index(), 0);
    assert_eq!(buffer.get(100), 3);
}
