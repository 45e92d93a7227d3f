use rfc::audio::{AudioBuffer, BUFFER_SIZE};

#[test]
fn test_push_pop() {
    let mut buf: AudioBuffer<f32> = AudioBuffer::new();
    assert_eq!(buf.len(), 0);
    assert!(buf.pop().is_none());

    assert!(buf.push(0.5));
    assert!(buf.push(-0.5));
    assert_eq!(buf.len(), 2);

    assert_eq!(buf.pop(), Some(0.5));
    assert_eq!(buf.pop(), Some(-0.5));
    assert_eq!(buf.pop(), None);
    assert_eq!(buf.len(), 0);
}

#[test]
fn test_full_buffer() {
    let mut buf: AudioBuffer<f32> = AudioBuffer::new();
    for i in 0..(BUFFER_SIZE - 1) {
        assert!(buf.push(i as f32), "push failed at {}", i);
    }
    assert_eq!(buf.len(), BUFFER_SIZE - 1);
    assert!(!buf.push(999.0));
}

#[test]
fn ring_keeps_order_across_wraparound() {
    let mut buf: AudioBuffer<u32> = AudioBuffer::new();
    let mut next_in = 0u32;
    let mut next_out = 0u32;
    for _ in 0..3 {
        for _ in 0..(BUFFER_SIZE - 1) {
            assert!(buf.push(next_in));
            next_in += 1;
        }
        for _ in 0..(BUFFER_SIZE - 100) {
            assert_eq!(buf.pop(), Some(next_out));
            next_out += 1;
        }
        assert_eq!(buf.len() as u32, next_in - next_out);
        while let Some(v) = buf.pop() {
            assert_eq!(v, next_out);
            next_out += 1;
        }
    }
    assert_eq!(buf.len(), 0);
}
