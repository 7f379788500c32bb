use iot_device::channel::BoundedBuffer;

#[test]
fn buffer_is_fifo() {
    let mut buffer: BoundedBuffer<&str> = BoundedBuffer::new(3);
    assert_eq!(buffer.len(), 0);
    assert_eq!(buffer.capacity(), 3);
    assert!(buffer.try_send("a").is_ok());
    assert!(buffer.try_send("b").is_ok());
    assert!(buffer.try_send("c").is_ok());
    assert_eq!(buffer.recv(), Some("a"));
    assert_eq!(buffer.recv(), Some("b"));
    assert_eq!(buffer.recv(), Some("c"));
    assert_eq!(buffer.recv(), None);
}

#[test]
fn full_buffer_rejects_and_returns_the_message() {
    let mut buffer: BoundedBuffer<u32> = BoundedBuffer::new(2);
    assert!(buffer.try_send(1).is_ok());
    assert!(buffer.try_send(2).is_ok());
    assert_eq!(buffer.try_send(3), Err(3));
    assert_eq!(buffer.len(), 2);
    // Draining one slot makes room again.
    assert_eq!(buffer.recv(), Some(1));
    assert!(buffer.try_send(3).is_ok());
    assert_eq!(buffer.recv(), Some(2));
    assert_eq!(buffer.recv(), Some(3));
}

#[test]
fn zero_capacity_buffer_rejects_everything() {
    let mut buffer: BoundedBuffer<u32> = BoundedBuffer::new(0);
    assert_eq!(buffer.try_send(7), Err(7));
    assert_eq!(buffer.recv(), None);
}
