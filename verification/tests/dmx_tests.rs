use vulcan::dmx::{Fade, Universe};

#[test]
fn new_universe_is_all_zero() {
    let universe = Universe::new();
    let bytes = universe.as_bytes();
    assert_eq!(bytes.len(), 512);
    for value in bytes {
        assert_eq!(value, 0);
    }
}

#[test]
fn set_then_get_returns_value() {
    let mut universe = Universe::new();
    universe.set(1, 255);
    universe.set(256, 17);
    universe.set(512, 3);
    assert_eq!(universe.get(1), 255);
    assert_eq!(universe.get(256), 17);
    assert_eq!(universe.get(512), 3);
}

#[test]
fn get_out_of_range_returns_zero() {
    let mut universe = Universe::new();
    universe.set(7, 99);
    assert_eq!(universe.get(0), 0);
    assert_eq!(universe.get(513), 0);
    assert_eq!(universe.get(u32::MAX), 0);
}

#[test]
fn set_out_of_range_is_a_no_op() {
    let mut universe = Universe::new();
    let before = universe.as_bytes();
    universe.set(0, 200);
    universe.set(513, 200);
    universe.set(u32::MAX, 200);
    assert_eq!(universe.as_bytes(), before);
}

#[test]
fn as_bytes_is_wire_ordered() {
    let mut universe = Universe::new();
    universe.set(1, 10);
    universe.set(2, 20);
    universe.set(512, 30);
    let bytes = universe.as_bytes();
    assert_eq!(bytes[0], 10);
    assert_eq!(bytes[1], 20);
    assert_eq!(bytes[511], 30);
}

#[test]
fn from_bytes_round_trips() {
    let mut universe = Universe::new();
    universe.set(42, 142);
    let rebuilt = Universe::from_bytes(universe.as_bytes());
    assert_eq!(rebuilt.get(42), 142);
    assert_eq!(rebuilt.as_bytes(), universe.as_bytes());
}

#[test]
fn duplicate_preserves_values() {
    let mut universe = Universe::new();
    universe.set(9, 90);
    let copy = universe.duplicate();
    assert_eq!(copy.get(9), 90);
    assert_eq!(copy.as_bytes(), universe.as_bytes());
}

#[test]
fn last_write_wins_on_one_channel() {
    let mut universe = Universe::new();
    universe.set(1, 10);
    universe.set(1, 20);
    assert_eq!(universe.get(1), 20);
}

#[test]
fn fade_carries_its_fields() {
    let fade = Fade { channel: 5, value: 128, duration: Some(1500) };
    assert_eq!(fade.channel, 5);
    assert_eq!(fade.value, 128);
    assert_eq!(fade.duration, Some(1500));
    let instantaneous = Fade { channel: 5, value: 128, duration: None };
    assert_eq!(instantaneous.duration, None);
}
