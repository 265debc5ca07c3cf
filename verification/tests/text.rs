use greenhouse_records::text::{
    delete_not_found_message, get_not_found_message, u64_to_string, update_not_found_message,
};

#[test]
fn decimal_rendering() {
    assert_eq!(u64_to_string(0), "0");
    assert_eq!(u64_to_string(7), "7");
    assert_eq!(u64_to_string(10), "10");
    assert_eq!(u64_to_string(999_999), "999999");
    assert_eq!(u64_to_string(1_234_567_890), "1234567890");
    assert_eq!(u64_to_string(u64::MAX), "18446744073709551615");
}

#[test]
fn not_found_messages_name_the_id() {
    assert_eq!(get_not_found_message(7), "Sensor data with id=7 not found");
    assert_eq!(
        update_not_found_message(123),
        "Couldn't update sensor data with id=123. Data not found"
    );
    assert_eq!(
        delete_not_found_message(0),
        "Couldn't delete sensor data with id=0. Data not found."
    );
}
