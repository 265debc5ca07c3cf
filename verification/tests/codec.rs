use greenhouse_records::codec::{decode_record, encode_record};
use greenhouse_records::record::SensorData;

fn sample_record() -> SensorData {
    SensorData {
        id: 42,
        device_id: "d\u{e9}j\u{e0}-1 \u{1F331}".to_string(),
        temperature: -49_999,
        humidity: 100_000,
        soil_moisture: 0,
        timestamp: 1_700_000_000,
        updated_at: Some(1_700_000_500),
    }
}

#[test]
fn round_trip_preserves_every_field() {
    let rec = sample_record();
    let bytes = encode_record(&rec);
    let back = decode_record(&bytes).expect("encoded bytes decode");
    assert_eq!(back.id, 42);
    assert_eq!(back.device_id, "d\u{e9}j\u{e0}-1 \u{1F331}");
    assert_eq!(back.temperature, -49_999);
    assert_eq!(back.humidity, 100_000);
    assert_eq!(back.soil_moisture, 0);
    assert_eq!(back.timestamp, 1_700_000_000);
    assert_eq!(back.updated_at, Some(1_700_000_500));
}

#[test]
fn round_trip_without_update_time() {
    let mut rec = sample_record();
    rec.updated_at = None;
    rec.device_id = "x".to_string();
    let bytes = encode_record(&rec);
    let back = decode_record(&bytes).expect("encoded bytes decode");
    assert_eq!(back.updated_at, None);
    assert_eq!(back.device_id, "x");
}

#[test]
fn encoding_layout_is_as_documented() {
    let mut rec = sample_record();
    rec.device_id = "A".to_string();
    let bytes = encode_record(&rec);
    // 49 fixed bytes, then 4 bytes per character.
    assert_eq!(bytes.len(), 49 + 4);
    assert_eq!(&bytes[0..8], 42u64.to_le_bytes().as_slice());
    // temperature is shifted by 50_000 so a valid reading is unsigned
    assert_eq!(&bytes[8..16], 1u64.to_le_bytes().as_slice());
    assert_eq!(bytes[40], 1, "update-time tag");
    assert_eq!(&bytes[49..53], ('A' as u32).to_le_bytes().as_slice());
}

#[test]
fn garbage_does_not_decode() {
    assert!(decode_record(&Vec::new()).is_none());
    assert!(decode_record(&vec![0u8; 48]).is_none());
    // 49 + 3 bytes: not a whole number of characters
    assert!(decode_record(&vec![0u8; 52]).is_none());
    // a temperature far above the valid range
    let mut bytes = encode_record(&sample_record());
    bytes[8..16].copy_from_slice(&u64::MAX.to_le_bytes());
    assert!(decode_record(&bytes).is_none());
    // a surrogate code point in the device id
    let mut bytes = encode_record(&sample_record());
    let n = bytes.len();
    bytes[n - 4..].copy_from_slice(&0xD800u32.to_le_bytes());
    assert!(decode_record(&bytes).is_none());
}
