use rssi_presence::ble::ring_buffer::RingBuffer;
use rssi_presence::ble::sliding_window::SlidingWindow;
use rssi_presence::errors::AppError;

#[test]
fn new_buffer_is_empty() {
    let buf: RingBuffer<i16> = RingBuffer::new(4).unwrap();
    assert!(buf.is_empty());
    assert!(!buf.is_full());
    assert_eq!(buf.available_space(), 4);
    assert_eq!(buf.window_data(), Vec::<i16>::new());
}

#[test]
fn zero_capacity_is_refused() {
    let made: Result<RingBuffer<i16>, AppError> = RingBuffer::new(0);
    assert!(matches!(made, Err(AppError::ConfigError)));
}

#[test]
fn partial_window_is_the_valid_prefix() {
    let mut buf: RingBuffer<i16> = RingBuffer::new(5).unwrap();
    assert_eq!(buf.push(7), None);
    assert_eq!(buf.push(8), None);
    assert_eq!(buf.push(9), None);
    assert!(!buf.is_full());
    assert!(!buf.is_empty());
    assert_eq!(buf.available_space(), 2);
    assert_eq!(buf.window_data(), vec![7, 8, 9]);
}

#[test]
fn full_buffer_evicts_the_oldest() {
    let mut buf: RingBuffer<i16> = RingBuffer::new(3).unwrap();
    assert_eq!(buf.push(1), None);
    assert_eq!(buf.push(2), None);
    assert_eq!(buf.push(3), None);
    assert!(buf.is_full());
    assert_eq!(buf.available_space(), 0);
    assert_eq!(buf.push(4), Some(1));
    assert_eq!(buf.push(5), Some(2));
    assert!(buf.is_full());
    assert_eq!(buf.window_data(), vec![3, 4, 5]);
}

#[test]
fn window_is_the_last_c_pushes_for_every_capacity() {
    for c in 1usize..12 {
        let mut buf: RingBuffer<u32> = RingBuffer::new(c).unwrap();
        let mut pushed: Vec<u32> = Vec::new();
        for v in 0u32..40 {
            buf.push(v * 3 + 1);
            pushed.push(v * 3 + 1);
            if pushed.len() > c {
                let data = buf.window_data();
                assert_eq!(data.len(), c);
                assert_eq!(data, pushed[pushed.len() - c..].to_vec());
            }
        }
    }
}

#[test]
fn window_data_is_idempotent() {
    let mut buf: RingBuffer<i16> = RingBuffer::new(4).unwrap();
    for v in [5, -3, 8, 13, 21, -34] {
        buf.push(v);
    }
    let first = buf.window_data();
    let second = buf.window_data();
    assert_eq!(first, second);
    assert_eq!(first, vec![8, 13, 21, -34]);
}

#[test]
fn full_is_sticky_until_clear() {
    let mut buf: RingBuffer<i16> = RingBuffer::new(2).unwrap();
    buf.push(1);
    buf.push(2);
    for v in 3..50 {
        assert!(buf.is_full());
        buf.push(v);
    }
    assert!(buf.is_full());
    buf.clear();
    assert!(buf.is_empty());
    assert!(!buf.is_full());
    assert_eq!(buf.available_space(), 2);
    assert_eq!(buf.window_data(), Vec::<i16>::new());
}

#[test]
fn cleared_buffer_starts_a_new_session() {
    let mut buf: RingBuffer<i16> = RingBuffer::new(3).unwrap();
    for v in [1, 2, 3, 4] {
        buf.push(v);
    }
    buf.clear();
    assert_eq!(buf.push(10), None);
    assert_eq!(buf.window_data(), vec![10]);
    assert_eq!(buf.push(11), None);
    assert_eq!(buf.push(12), None);
    assert_eq!(buf.push(13), Some(10));
    assert_eq!(buf.window_data(), vec![11, 12, 13]);
}

#[test]
fn capacity_one_holds_the_newest() {
    let mut buf: RingBuffer<i16> = RingBuffer::new(1).unwrap();
    assert_eq!(buf.push(4), None);
    assert!(buf.is_full());
    assert_eq!(buf.push(5), Some(4));
    assert_eq!(buf.window_data(), vec![5]);
}

#[test]
fn ring_buffer_holds_floats() {
    let mut buf: RingBuffer<f32> = RingBuffer::new(2).unwrap();
    buf.push(0.5);
    buf.push(1.5);
    buf.push(2.5);
    assert_eq!(buf.window_data(), vec![1.5, 2.5]);
}

#[test]
fn sliding_window_starts_with_defaults() {
    let w: SlidingWindow<i16> = SlidingWindow::new(3);
    assert_eq!(w.window_data(), vec![0, 0, 0]);
}

#[test]
fn sliding_window_shifts_by_one() {
    let mut w: SlidingWindow<i16> = SlidingWindow::new(3);
    w.push(1);
    assert_eq!(w.window_data(), vec![0, 0, 1]);
    w.push(2);
    w.push(3);
    w.push(4);
    assert_eq!(w.window_data(), vec![2, 3, 4]);
}

#[test]
fn sliding_window_clear_restores_defaults() {
    let mut w: SlidingWindow<i16> = SlidingWindow::new(2);
    w.push(9);
    w.push(8);
    w.clear();
    assert_eq!(w.window_data(), vec![0, 0]);
}

#[test]
fn empty_sliding_window_has_no_data() {
    let w: SlidingWindow<i16> = SlidingWindow::new(0);
    assert_eq!(w.window_data(), Vec::<i16>::new());
}
