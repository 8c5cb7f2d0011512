use poing::audio_buffer::RingBuffer;

#[test]
fn test_write_and_read() {
    let mut buf: RingBuffer<f32> = RingBuffer::new(8);
    buf.write(&[1.0, 2.0, 3.0]);
    assert_eq!(buf.len(), 3);
    assert_eq!(buf.read(), vec![1.0, 2.0, 3.0]);
}

#[test]
fn test_wrap_around() {
    let mut buf: RingBuffer<f32> = RingBuffer::new(4);
    buf.write(&[1.0, 2.0, 3.0, 4.0, 5.0, 6.0]);
    assert_eq!(buf.len(), 4);
    assert_eq!(buf.read(), vec![3.0, 4.0, 5.0, 6.0]);
}

#[test]
fn test_clear() {
    let mut buf: RingBuffer<f32> = RingBuffer::new(4);
    buf.write(&[1.0, 2.0]);
    buf.clear();
    assert!(buf.is_empty());
    assert_eq!(buf.read(), Vec::<f32>::new());
}

#[test]
fn test_capacity_and_exact_wrap() {
    let mut buf: RingBuffer<i32> = RingBuffer::new(3);
    assert_eq!(buf.capacity(), 3);
    buf.write(&[10, 20, 30]);
    assert_eq!(buf.read(), vec![10, 20, 30]);
    buf.write(&[40]);
    assert_eq!(buf.read(), vec![20, 30, 40]);
    buf.write(&[50, 60]);
    assert_eq!(buf.read(), vec![40, 50, 60]);
}

#[test]
fn test_zero_capacity() {
    let mut buf: RingBuffer<f32> = RingBuffer::new(0);
    buf.write(&[1.0, 2.0]);
    assert!(buf.is_empty());
    assert_eq!(buf.read(), Vec::<f32>::new());
}
