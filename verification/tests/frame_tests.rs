use clipsynk::frame::{current_unix_millis, Frame, HandShake};

fn frame_json(f: &Frame) -> String {
    let mut map = serde_json::Map::new();
    map.insert(
        "bytes".to_string(),
        serde_json::Value::Array(f.bytes.iter().map(|b| serde_json::Value::from(*b)).collect()),
    );
    map.insert("timestamp".to_string(), serde_json::Value::from(f.timestamp as u64));
    map.insert("hash".to_string(), serde_json::Value::from(f.hash));
    serde_json::to_string(&serde_json::Value::Object(map)).unwrap()
}

#[test]
fn test_reference_hashes() {
    let cases = ["", "hello", "ClipSynk", "The quick brown fox jumps over the lazy dog"];
    for s in cases {
        let h = xxhash_rust::const_xxh3::xxh3_64(s.as_bytes());
        let f = Frame::new(s.as_bytes());
        let json = frame_json(&f);
        println!("HASH for '{}': {} (hex: 0x{:016x}), JSON: {}", s, h, h, json);
        assert_eq!(f.hash, h);
        assert_eq!(f.bytes, s.as_bytes().to_vec());
    }
}

#[test]
fn empty_input_has_the_published_xxh3_digest() {
    let f = Frame::new(b"");
    assert_eq!(f.hash, 0x2D06800538D394C2);
    assert!(f.bytes.is_empty());
}

#[test]
fn digest_is_not_the_input() {
    let f = Frame::with_timestamp(&[1, 2, 3, 4, 5, 6, 7, 8], 9);
    assert_ne!(f.hash, u64::from_le_bytes([1, 2, 3, 4, 5, 6, 7, 8]));
    assert_ne!(f.hash, u64::from_be_bytes([1, 2, 3, 4, 5, 6, 7, 8]));
    assert_eq!(f.hash, xxhash_rust::const_xxh3::xxh3_64(&[1, 2, 3, 4, 5, 6, 7, 8]));
}

#[test]
fn with_timestamp_keeps_bytes_and_time() {
    let f = Frame::with_timestamp(b"abc", 1234);
    assert_eq!(f.bytes, b"abc".to_vec());
    assert_eq!(f.timestamp, 1234);
    assert_eq!(f.hash, xxhash_rust::const_xxh3::xxh3_64(b"abc"));
}

#[test]
fn frames_of_same_bytes_are_equal_whatever_their_time() {
    let a = Frame::with_timestamp(b"same", 1);
    let b = Frame::with_timestamp(b"same", 999);
    assert!(a == b);
    let c = Frame::new(b"same");
    assert!(a == c);
    let d = Frame::with_timestamp(b"other", 1);
    assert!(a != d);
}

#[test]
fn frame_equality_is_an_equivalence() {
    let a = Frame::with_timestamp(b"x", 1);
    let b = Frame::with_timestamp(b"x", 2);
    let c = Frame::with_timestamp(b"x", 3);
    assert!(a == a);
    assert_eq!(a == b, b == a);
    assert!(a == b && b == c && a == c);
}

#[test]
fn new_frame_is_stamped_with_the_clock() {
    let before = current_unix_millis();
    let f = Frame::new(b"now");
    let after = current_unix_millis();
    // 2020-01-01 in milliseconds since the epoch.
    assert!(before > 1_577_836_800_000);
    assert!(before <= f.timestamp && f.timestamp <= after);
}

#[test]
fn handshake_new_keeps_fields() {
    let h = HandShake::new(0x0123_4567_89ab_cdef_0011_2233_4455_6677, 4242);
    assert_eq!(h.device_id, 0x0123_4567_89ab_cdef_0011_2233_4455_6677);
    assert_eq!(h.tcp_port, 4242);
    assert_eq!(h, HandShake { device_id: 0x0123_4567_89ab_cdef_0011_2233_4455_6677, tcp_port: 4242 });
}
