use hitbox::backend::DeleteStatus;
use hitbox::entry::{decode_entry, encode_entry, read_entry, HEADER_LEN};
use hitbox::value::{CacheState, CachedValue, TtlSettings};

#[test]
fn encode_layout() {
    let bytes = encode_entry(0x01020304, 0x1122334455667788, &[9, 8]);
    assert_eq!(
        bytes,
        vec![4, 3, 2, 1, 0x88, 0x77, 0x66, 0x55, 0x44, 0x33, 0x22, 0x11, 9, 8]
    );
    assert_eq!(bytes.len(), HEADER_LEN + 2);
}

#[test]
fn round_trip() {
    let bytes = encode_entry(3, 1_700_000_000, b"payload");
    let e = decode_entry(&bytes).unwrap();
    assert_eq!(e.version, 3);
    assert_eq!(e.value, CachedValue::new(b"payload".to_vec(), 1_700_000_000));
    let empty = encode_entry(u32::MAX, u64::MAX, &[]);
    let e = decode_entry(&empty).unwrap();
    assert_eq!(e.version, u32::MAX);
    assert_eq!(e.value.expired, u64::MAX);
    assert!(e.value.data.is_empty());
}

#[test]
fn short_bytes_do_not_decode() {
    assert!(decode_entry(&[]).is_none());
    assert!(decode_entry(&[0; 11]).is_none());
    assert!(decode_entry(&[0; 12]).is_some());
}

#[test]
fn version_change_is_a_miss() {
    let ttl = TtlSettings::new(60, 55);
    let bytes = encode_entry(0, 100, &[1]);
    assert_eq!(read_entry(Some(&bytes), 1, 100, ttl), CacheState::Miss);
    assert_eq!(
        read_entry(Some(&bytes), 0, 100, ttl),
        CacheState::Actual(CachedValue::new(vec![1], 100))
    );
}

#[test]
fn unreadable_or_absent_is_a_miss() {
    let ttl = TtlSettings::new(60, 55);
    assert_eq!(read_entry(None, 0, 0, ttl), CacheState::Miss);
    assert_eq!(read_entry(Some(&[1, 2, 3]), 0, 0, ttl), CacheState::Miss);
}

#[test]
fn classification_boundaries() {
    let ttl = TtlSettings::new(10, 2);
    let v = |d: i32| Some(CachedValue::new(d, 100));
    assert_eq!(CacheState::classify(v(1), 90, ttl), CacheState::Actual(CachedValue::new(1, 100)));
    assert_eq!(CacheState::classify(v(1), 102, ttl), CacheState::Actual(CachedValue::new(1, 100)));
    assert_eq!(CacheState::classify(v(1), 103, ttl), CacheState::Stale(CachedValue::new(1, 100)));
    assert_eq!(CacheState::classify(v(1), 110, ttl), CacheState::Stale(CachedValue::new(1, 100)));
    assert_eq!(CacheState::classify(v(1), 111, ttl), CacheState::Miss);
    assert_eq!(CacheState::classify(None::<CachedValue<i32>>, 0, ttl), CacheState::Miss);
    assert!(CacheState::classify(v(1), 111, ttl).is_miss());
}

#[test]
fn delete_status_from_count() {
    assert_eq!(DeleteStatus::from_count(0), DeleteStatus::Missing);
    assert_eq!(DeleteStatus::from_count(3), DeleteStatus::Deleted(3));
}
