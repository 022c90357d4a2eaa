use storm::utility::ring::{RingStore, BUFFER_SIZE};

#[test]
fn new_ring_has_no_value() {
    let ring: RingStore<u32> = RingStore::new();
    assert!(!ring.has_value());
}

#[test]
fn read_returns_latest_write() {
    let mut ring = RingStore::new();
    ring.write(10u32);
    assert!(ring.has_value());
    assert_eq!(ring.read(), 10);
    ring.write(11);
    assert_eq!(ring.read(), 11);
}

#[test]
fn ring_wraps_after_sixteen_writes() {
    let mut ring = RingStore::new();
    for v in 1u32..=17 {
        ring.write(v);
    }
    assert_eq!(ring.read(), 17);
    assert_eq!(BUFFER_SIZE, 16);
}
