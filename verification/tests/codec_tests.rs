use vulcan::codec::{decode_bytes, deserialize_universe, encode_bytes, serialize_universe};
use vulcan::dmx::Universe;

#[test]
fn encode_known_bytes() {
    let bytes = vec![0x00, 0x0f, 0xff, 0xa5];
    let text = encode_bytes(&bytes);
    assert_eq!(text, b"000fffa5".to_vec());
}

#[test]
fn decode_known_text() {
    let text = b"000fffa5".to_vec();
    let bytes = decode_bytes(&text).expect("well-formed hex must decode");
    assert_eq!(bytes, vec![0x00, 0x0f, 0xff, 0xa5]);
}

#[test]
fn decode_rejects_odd_length() {
    assert!(decode_bytes(&b"abc".to_vec()).is_none());
}

#[test]
fn decode_rejects_non_hex() {
    assert!(decode_bytes(&b"zz".to_vec()).is_none());
    assert!(decode_bytes(&b"0g".to_vec()).is_none());
}

#[test]
fn decode_rejects_uppercase() {
    assert!(decode_bytes(&b"FF".to_vec()).is_none());
}

#[test]
fn universe_round_trip() {
    let mut universe = Universe::new();
    for channel in 1..=512u32 {
        universe.set(channel, (channel % 251) as u8);
    }
    let text = serialize_universe(&universe);
    assert_eq!(text.len(), 1024);
    let back = deserialize_universe(&text);
    assert_eq!(back.as_bytes(), universe.as_bytes());
}

#[test]
fn snapshot_text_is_hex_of_wire_bytes() {
    let mut universe = Universe::new();
    universe.set(1, 0xff);
    universe.set(2, 0x0a);
    let text = serialize_universe(&universe);
    assert_eq!(&text[0..4], &b"ff0a"[..]);
    assert_eq!(&text[4..8], &b"0000"[..]);
}

#[test]
fn malformed_snapshot_becomes_blank_universe() {
    let blank = Universe::new().as_bytes();
    assert_eq!(deserialize_universe(&b"not a snapshot".to_vec()).as_bytes(), blank);
    assert_eq!(deserialize_universe(&Vec::new()).as_bytes(), blank);
    let mut bad = vec![b'f'; 1024];
    bad[100] = b'!';
    assert_eq!(deserialize_universe(&bad).as_bytes(), blank);
    let short = vec![b'a'; 1022];
    assert_eq!(deserialize_universe(&short).as_bytes(), blank);
}
