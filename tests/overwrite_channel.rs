use storm::utility::replace_spsc;

#[test]
fn reads_initial_before_any_set() {
    let (_producer, consumer) = replace_spsc::make(7u32);
    assert_eq!(consumer.get(), 7);
}

#[test]
fn reads_last_of_many_writes() {
    let (producer, consumer) = replace_spsc::make(0i64);
    for v in [3i64, -4, 9, 12] {
        producer.set(v);
    }
    assert_eq!(consumer.get(), 12);
    assert_eq!(consumer.get(), 12);
}

#[test]
fn zero_then_five_scenario() {
    let (producer, consumer) = replace_spsc::make(0u32);
    assert_eq!(consumer.get(), 0);
    producer.set(5);
    assert_eq!(consumer.get(), 5);
    assert_eq!(consumer.get(), 5);
}

#[test]
fn seventeen_writes_read_the_last() {
    let (producer, consumer) = replace_spsc::make(100u32);
    for v in 1u32..=17 {
        producer.set(v);
    }
    assert_eq!(consumer.get(), 17);
}

#[test]
fn many_wraps_read_the_last() {
    let (producer, consumer) = replace_spsc::make((0u8, 0u8));
    for v in 0u8..=200 {
        producer.set((v, v.wrapping_mul(3)));
        assert_eq!(consumer.get(), (v, v.wrapping_mul(3)));
    }
}

#[test]
fn initial_ring_holds_initial() {
    let ring = replace_spsc::initial_ring(4u16);
    assert!(ring.has_value());
    assert_eq!(replace_spsc::current_value(&ring), 4);
}

#[test]
fn publish_changes_current_value() {
    let mut ring = replace_spsc::initial_ring(4u16);
    replace_spsc::publish(&mut ring, 8);
    assert_eq!(replace_spsc::current_value(&ring), 8);
    replace_spsc::publish(&mut ring, 2);
    assert_eq!(replace_spsc::current_value(&ring), 2);
}
