use byor::channel::engine::{engine_fill, engine_oneshot_roundtrip, engine_relay};

#[test]
fn relay_through_real_channel_is_identity() {
    let items: Vec<u64> = vec![3, 1, 4, 1, 5, 9, 2, 6];
    assert_eq!(engine_relay(&items, 1), items);
    assert_eq!(engine_relay(&items, 4), items);
    assert_eq!(engine_relay(&Vec::new(), 2), Vec::<u64>::new());
}

#[test]
fn real_bounded_channel_accepts_exactly_its_capacity() {
    assert_eq!(engine_fill(1, 7), 1);
    assert_eq!(engine_fill(5, 7), 5);
    assert_eq!(engine_fill(64, 0), 64);
}

#[test]
fn real_oneshot_roundtrip_yields_the_sent_value() {
    assert_eq!(engine_oneshot_roundtrip(42), Some(42));
    assert_eq!(engine_oneshot_roundtrip(0), Some(0));
    assert_eq!(engine_oneshot_roundtrip(u64::MAX), Some(u64::MAX));
}
