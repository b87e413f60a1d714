use device_core::audio::AudioBuffer;

#[test]
fn ring_buffer_is_fifo_with_one_free_slot() {
    let mut b = AudioBuffer::new(5);
    assert!(b.is_empty());
    assert_eq!(b.available_write(), 4);
    assert_eq!(b.write(&[1, 2, 3, 4, 5, 6]), 4);
    assert!(b.is_full());
    assert_eq!(b.available_read(), 4);
    let mut out = [0i16; 3];
    assert_eq!(b.read(&mut out), 3);
    assert_eq!(out, [1, 2, 3]);
    assert_eq!(b.write(&[7, 8]), 2);
    let mut out = [9i16; 5];
    assert_eq!(b.read(&mut out), 3);
    assert_eq!(out, [4, 7, 8, 9, 9]);
    assert!(b.is_empty());
}

#[test]
fn ring_buffer_wraps_many_times() {
    let mut b = AudioBuffer::new(4);
    let mut expected: i16 = 0;
    for round in 0..20i16 {
        assert_eq!(b.write(&[round * 2, round * 2 + 1]), 2);
        let mut out = [0i16; 2];
        assert_eq!(b.read(&mut out), 2);
        assert_eq!(out, [expected, expected + 1]);
        expected += 2;
    }
}

#[test]
fn ring_buffer_clear_and_edge_sizes() {
    let mut b = AudioBuffer::new(3);
    b.write(&[1, 2]);
    b.clear();
    assert!(b.is_empty());
    assert_eq!(b.available_write(), 2);
    let mut one = AudioBuffer::new(1);
    assert!(one.is_empty());
    assert!(one.is_full());
    assert_eq!(one.write(&[5]), 0);
    let mut out: [i16; 0] = [];
    assert_eq!(b.read(&mut out), 0);
}
