use greenhouse_records::record::{Error, SensorDataPayload};
use greenhouse_records::service::RecordService;

fn payload(device_id: &str, temperature: i64, humidity: i64, soil_moisture: i64) -> SensorDataPayload {
    SensorDataPayload {
        device_id: device_id.to_string(),
        temperature,
        humidity,
        soil_moisture,
    }
}

fn sample() -> SensorDataPayload {
    payload("sensor-1", 22_500, 45_000, 30_000)
}

#[test]
fn add_and_get_round_trip() {
    let mut s = RecordService::open().expect("fresh memory holds an empty store");
    let added = s.add_sensor_data(sample(), 1_000).expect("valid payload");
    assert_eq!(added.id, 0);
    assert_eq!(added.device_id, "sensor-1");
    assert_eq!(added.temperature, 22_500);
    assert_eq!(added.humidity, 45_000);
    assert_eq!(added.soil_moisture, 30_000);
    assert_eq!(added.timestamp, 1_000);
    assert_eq!(added.updated_at, None);

    let read = s.get_sensor_data(0).expect("record present");
    assert_eq!(read.id, 0);
    assert_eq!(read.device_id, "sensor-1");
    assert_eq!(read.temperature, 22_500);
    assert_eq!(read.humidity, 45_000);
    assert_eq!(read.soil_moisture, 30_000);
    assert_eq!(read.timestamp, 1_000);
    assert_eq!(read.updated_at, None);
}

#[test]
fn ids_strictly_increase_even_with_deletes() {
    let mut s = RecordService::open().expect("fresh memory holds an empty store");
    let a = s.add_sensor_data(sample(), 1).expect("valid");
    let b = s.add_sensor_data(sample(), 2).expect("valid");
    assert!(b.id > a.id);
    s.delete_sensor_data(b.id).expect("present");
    s.delete_sensor_data(a.id).expect("present");
    let c = s.add_sensor_data(sample(), 3).expect("valid");
    assert!(c.id > b.id, "ids are never reused after deletion");
    assert_eq!((a.id, b.id, c.id), (0, 1, 2));
}

#[test]
fn update_replaces_fields_and_stamps_time() {
    let mut s = RecordService::open().expect("fresh memory holds an empty store");
    let added = s.add_sensor_data(sample(), 1_000).expect("valid");
    let updated = s
        .update_sensor_data(added.id, payload("sensor-2", -5_000, 80_000, 55_000), 2_000)
        .expect("record present");
    assert_eq!(updated.id, added.id);
    assert_eq!(updated.timestamp, 1_000, "creation time never changes");
    assert_eq!(updated.device_id, "sensor-2");
    assert_eq!(updated.temperature, -5_000);
    assert_eq!(updated.humidity, 80_000);
    assert_eq!(updated.soil_moisture, 55_000);
    assert_eq!(updated.updated_at, Some(2_000));
    assert!(updated.updated_at.unwrap() >= updated.timestamp);

    let again = s
        .update_sensor_data(added.id, payload("sensor-2", 0, 0, 0), 3_000)
        .expect("record present");
    assert_eq!(again.updated_at, Some(3_000));
    assert!(again.updated_at.unwrap() >= updated.updated_at.unwrap());
    assert_eq!(again.timestamp, 1_000);
}

#[test]
fn delete_removes_and_second_delete_fails() {
    let mut s = RecordService::open().expect("fresh memory holds an empty store");
    let added = s.add_sensor_data(sample(), 1).expect("valid");
    let removed = s.delete_sensor_data(added.id).expect("present");
    assert_eq!(removed.id, added.id);
    assert_eq!(removed.device_id, "sensor-1");
    assert!(matches!(s.get_sensor_data(added.id), Err(Error::NotFound { .. })));
    assert!(matches!(s.delete_sensor_data(added.id), Err(Error::NotFound { .. })));
}

#[test]
fn validation_rejects_out_of_range_values() {
    let mut s = RecordService::open().expect("fresh memory holds an empty store");
    match s.add_sensor_data(payload("sensor-1", 22_500, 150_000, 30_000), 1) {
        Err(Error::InvalidInput { msg }) => assert_eq!(msg, "Humidity must be between 0 and 100"),
        other => panic!("expected InvalidInput, got {:?}", other.is_ok()),
    }
    match s.add_sensor_data(payload("sensor-1", -60_000, 45_000, 30_000), 1) {
        Err(Error::InvalidInput { msg }) => {
            assert_eq!(msg, "Temperature must be between -50 and 60 degrees")
        }
        other => panic!("expected InvalidInput, got {:?}", other.is_ok()),
    }
    match s.add_sensor_data(payload("sensor-1", 22_500, 45_000, -1), 1) {
        Err(Error::InvalidInput { msg }) => {
            assert_eq!(msg, "Soil moisture must be between 0 and 100")
        }
        other => panic!("expected InvalidInput, got {:?}", other.is_ok()),
    }
    match s.add_sensor_data(payload("  ", 22_500, 45_000, 30_000), 1) {
        Err(Error::InvalidInput { msg }) => assert_eq!(msg, "Device ID cannot be empty"),
        other => panic!("expected InvalidInput, got {:?}", other.is_ok()),
    }
    // A rejected payload changes nothing: the next id is still 0.
    let added = s.add_sensor_data(sample(), 1).expect("valid");
    assert_eq!(added.id, 0);
}

#[test]
fn validation_rejects_unicode_whitespace_device_ids() {
    let mut s = RecordService::open().expect("fresh memory holds an empty store");
    // a vertical tab, and a run of non-ASCII whitespace, are blank too
    for blank in ["", "\u{b}", "\u{a0}\u{2003}", " \u{85}\t\u{3000}\u{2028}"] {
        match s.add_sensor_data(payload(blank, 22_500, 45_000, 30_000), 1) {
            Err(Error::InvalidInput { msg }) => assert_eq!(msg, "Device ID cannot be empty"),
            other => panic!("expected InvalidInput for {:?}, got ok={:?}", blank, other.is_ok()),
        }
    }
    // whitespace around a visible character is fine
    assert!(s.add_sensor_data(payload("\u{a0} x ", 22_500, 45_000, 30_000), 1).is_ok());
}

#[test]
fn validation_accepts_boundary_values() {
    let mut s = RecordService::open().expect("fresh memory holds an empty store");
    assert!(s.add_sensor_data(payload("d", -50_000, 0, 0), 1).is_ok());
    assert!(s.add_sensor_data(payload("d", 60_000, 100_000, 100_000), 1).is_ok());
}

#[test]
fn not_found_on_unknown_id() {
    let mut s = RecordService::open().expect("fresh memory holds an empty store");
    match s.get_sensor_data(999_999) {
        Err(Error::NotFound { msg }) => {
            assert_eq!(msg, "Sensor data with id=999999 not found")
        }
        _ => panic!("expected NotFound"),
    }
    match s.update_sensor_data(999_999, sample(), 1) {
        Err(Error::NotFound { msg }) => {
            assert_eq!(msg, "Couldn't update sensor data with id=999999. Data not found")
        }
        _ => panic!("expected NotFound"),
    }
    match s.delete_sensor_data(999_999) {
        Err(Error::NotFound { msg }) => {
            assert_eq!(msg, "Couldn't delete sensor data with id=999999. Data not found.")
        }
        _ => panic!("expected NotFound"),
    }
}

#[test]
fn state_survives_a_restart() {
    let mut s = RecordService::open().expect("fresh memory holds an empty store");
    let a = s.add_sensor_data(sample(), 1_000).expect("valid");
    let b = s
        .add_sensor_data(payload("sensor-2", -1_234, 99_999, 1), 1_001)
        .expect("valid");
    s.update_sensor_data(a.id, payload("sensor-1b", 10_000, 20_000, 30_000), 2_000)
        .expect("present");
    s.delete_sensor_data(b.id).expect("present");

    let before_a = s.get_sensor_data(a.id).expect("present");
    let s = s.restart();
    let after_a = s.get_sensor_data(a.id).expect("still present after restart");
    assert_eq!(after_a.id, before_a.id);
    assert_eq!(after_a.device_id, before_a.device_id);
    assert_eq!(after_a.temperature, before_a.temperature);
    assert_eq!(after_a.humidity, before_a.humidity);
    assert_eq!(after_a.soil_moisture, before_a.soil_moisture);
    assert_eq!(after_a.timestamp, before_a.timestamp);
    assert_eq!(after_a.updated_at, before_a.updated_at);
    assert!(matches!(s.get_sensor_data(b.id), Err(Error::NotFound { .. })));

    // The counter also survives: the next id continues past b.id.
    let mut s = s;
    let c = s.add_sensor_data(sample(), 3_000).expect("valid");
    assert_eq!(c.id, 2);
}

#[test]
fn open_on_fresh_memory_is_empty() {
    let s = RecordService::open().expect("fresh memory holds an empty store");
    assert_eq!(s.next_id(), 0);
    assert!(matches!(s.get_sensor_data(0), Err(Error::NotFound { .. })));
}

#[test]
fn next_id_reports_the_counter() {
    let mut s = RecordService::open().expect("fresh memory holds an empty store");
    assert_eq!(s.next_id(), 0);
    s.add_sensor_data(sample(), 1).expect("valid");
    assert_eq!(s.next_id(), 1);
    s.delete_sensor_data(0).expect("present");
    assert_eq!(s.next_id(), 1, "deletion does not lower the counter");
}
