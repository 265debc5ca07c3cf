//! The data model: sensor records, creation/update payloads, the error
//! taxonomy, and payload validation.
//!
//! Temperature, humidity and soil moisture are fixed-point readings in
//! thousandths of a unit (`SCALE`), so a humidity of 45.5% is stored as
//! 45_500. This keeps every domain rule a statement about integers.

use vstd::prelude::*;
use vstd::string::StrSliceExecFns;
use vstd::string::StringExecFns;

verus! {

/// Fixed-point scale: stored values are thousandths of a unit.
pub const SCALE: i64 = 1000;

/// Lowest accepted temperature reading, in thousandths of a degree.
pub const TEMPERATURE_MIN: i64 = -50 * SCALE;

/// Highest accepted temperature reading, in thousandths of a degree.
pub const TEMPERATURE_MAX: i64 = 60 * SCALE;

/// Lowest accepted humidity or soil moisture reading.
pub const PERCENT_MIN: i64 = 0;

/// Highest accepted humidity or soil moisture reading (100%, scaled).
pub const PERCENT_MAX: i64 = 100 * SCALE;

/// A single greenhouse sensor reading with identity and timestamps.
pub struct SensorData {
    /// Unique identifier, assigned by the store, immutable after creation.
    pub id: u64,
    /// Identifier of the originating device; never blank once validated.
    pub device_id: String,
    /// Temperature in thousandths of a degree, within `TEMPERATURE_MIN..=TEMPERATURE_MAX`.
    pub temperature: i64,
    /// Relative humidity in thousandths of a percent, within `PERCENT_MIN..=PERCENT_MAX`.
    pub humidity: i64,
    /// Soil moisture in thousandths of a percent, within `PERCENT_MIN..=PERCENT_MAX`.
    pub soil_moisture: i64,
    /// Creation time, set once when the record is created.
    pub timestamp: u64,
    /// Time of the last update; absent until the first update.
    pub updated_at: Option<u64>,
}

/// The mathematical value of a `SensorData`.
#[verifier::ext_equal]
pub struct SensorDataView {
    pub id: u64,
    pub device_id: Seq<char>,
    pub temperature: i64,
    pub humidity: i64,
    pub soil_moisture: i64,
    pub timestamp: u64,
    pub updated_at: Option<u64>,
}

impl View for SensorData {
    type V = SensorDataView;

    open spec fn view(&self) -> SensorDataView {
        SensorDataView {
            id: self.id,
            device_id: self.device_id@,
            temperature: self.temperature,
            humidity: self.humidity,
            soil_moisture: self.soil_moisture,
            timestamp: self.timestamp,
            updated_at: self.updated_at,
        }
    }
}

/// Caller-supplied fields for creating or updating a record; carries no
/// identity and no timestamps.
pub struct SensorDataPayload {
    pub device_id: String,
    pub temperature: i64,
    pub humidity: i64,
    pub soil_moisture: i64,
}

/// The mathematical value of a `SensorDataPayload`.
#[verifier::ext_equal]
pub struct PayloadView {
    pub device_id: Seq<char>,
    pub temperature: i64,
    pub humidity: i64,
    pub soil_moisture: i64,
}

impl View for SensorDataPayload {
    type V = PayloadView;

    open spec fn view(&self) -> PayloadView {
        PayloadView {
            device_id: self.device_id@,
            temperature: self.temperature,
            humidity: self.humidity,
            soil_moisture: self.soil_moisture,
        }
    }
}

/// Caller-visible failures: a missing record or a payload that fails
/// validation. Both are ordinary results, never panics.
#[derive(Debug)]
pub enum Error {
    /// The referenced id is absent from the record map.
    NotFound { msg: String },
    /// The payload failed one of the validation checks.
    InvalidInput { msg: String },
}

/// Whitespace for the purpose of judging a device id blank: the Unicode
/// White_Space code points, the set `str::trim` removes.
pub open spec fn is_space_char(c: char) -> bool {
    ||| c == '\u{9}'
    ||| c == '\u{a}'
    ||| c == '\u{b}'
    ||| c == '\u{c}'
    ||| c == '\u{d}'
    ||| c == ' '
    ||| c == '\u{85}'
    ||| c == '\u{a0}'
    ||| c == '\u{1680}'
    ||| c == '\u{2000}'
    ||| c == '\u{2001}'
    ||| c == '\u{2002}'
    ||| c == '\u{2003}'
    ||| c == '\u{2004}'
    ||| c == '\u{2005}'
    ||| c == '\u{2006}'
    ||| c == '\u{2007}'
    ||| c == '\u{2008}'
    ||| c == '\u{2009}'
    ||| c == '\u{200a}'
    ||| c == '\u{2028}'
    ||| c == '\u{2029}'
    ||| c == '\u{202f}'
    ||| c == '\u{205f}'
    ||| c == '\u{3000}'
}

/// A device id is blank when, trimmed of whitespace, nothing remains.
pub open spec fn device_id_blank(s: Seq<char>) -> bool {
    forall|i: int| 0 <= i < s.len() ==> is_space_char(s[i])
}

/// A payload is valid when the device id is not blank and every reading
/// lies inside its inclusive range.
pub open spec fn payload_valid(p: PayloadView) -> bool {
    &&& !device_id_blank(p.device_id)
    &&& PERCENT_MIN <= p.humidity <= PERCENT_MAX
    &&& TEMPERATURE_MIN <= p.temperature <= TEMPERATURE_MAX
    &&& PERCENT_MIN <= p.soil_moisture <= PERCENT_MAX
}

/// The payload part of a record: the fields an update replaces.
pub open spec fn record_payload(r: SensorDataView) -> PayloadView {
    PayloadView {
        device_id: r.device_id,
        temperature: r.temperature,
        humidity: r.humidity,
        soil_moisture: r.soil_moisture,
    }
}

/// A record is valid when its payload fields are.
pub open spec fn record_valid(r: SensorDataView) -> bool {
    payload_valid(record_payload(r))
}

pub open spec fn msg_device_id_empty() -> Seq<char> {
    "Device ID cannot be empty"@
}

pub open spec fn msg_humidity_range() -> Seq<char> {
    "Humidity must be between 0 and 100"@
}

pub open spec fn msg_temperature_range() -> Seq<char> {
    "Temperature must be between -50 and 60 degrees"@
}

pub open spec fn msg_soil_moisture_range() -> Seq<char> {
    "Soil moisture must be between 0 and 100"@
}

/// `e` is an `InvalidInput` error carrying exactly the message `m`.
pub open spec fn is_invalid_input(e: Error, m: Seq<char>) -> bool {
    e matches Error::InvalidInput { msg } && msg@ == m
}

/// `e` is a `NotFound` error carrying exactly the message `m`.
pub open spec fn is_not_found(e: Error, m: Seq<char>) -> bool {
    e matches Error::NotFound { msg } && msg@ == m
}

/// The error an invalid payload earns: the checks run in order and the
/// first failing one names the message.
pub open spec fn validation_error_for(p: PayloadView, e: Error) -> bool {
    if device_id_blank(p.device_id) {
        is_invalid_input(e, msg_device_id_empty())
    } else if !(PERCENT_MIN <= p.humidity <= PERCENT_MAX) {
        is_invalid_input(e, msg_humidity_range())
    } else if !(TEMPERATURE_MIN <= p.temperature <= TEMPERATURE_MAX) {
        is_invalid_input(e, msg_temperature_range())
    } else if !(PERCENT_MIN <= p.soil_moisture <= PERCENT_MAX) {
        is_invalid_input(e, msg_soil_moisture_range())
    } else {
        false
    }
}

/// The record a successful creation builds: the payload's fields, the
/// assigned id, creation time `now`, and no update time yet.
pub open spec fn created_record(p: PayloadView, id: u64, now: u64) -> SensorDataView {
    SensorDataView {
        id,
        device_id: p.device_id,
        temperature: p.temperature,
        humidity: p.humidity,
        soil_moisture: p.soil_moisture,
        timestamp: now,
        updated_at: None,
    }
}

/// The record a successful update leaves: the new payload's fields, the
/// old identity and creation time, and `now` as the update time.
pub open spec fn updated_record(r: SensorDataView, p: PayloadView, now: u64) -> SensorDataView {
    SensorDataView {
        id: r.id,
        device_id: p.device_id,
        temperature: p.temperature,
        humidity: p.humidity,
        soil_moisture: p.soil_moisture,
        timestamp: r.timestamp,
        updated_at: Some(now),
    }
}

/// Decides `is_space_char`.
fn is_space(c: char) -> (b: bool)
    ensures
        b == is_space_char(c),
{
    c == '\u{9}' || c == '\u{a}' || c == '\u{b}' || c == '\u{c}' || c == '\u{d}' || c == ' ' || c
        == '\u{85}' || c == '\u{a0}' || c == '\u{1680}' || c == '\u{2000}' || c == '\u{2001}' || c
        == '\u{2002}' || c == '\u{2003}' || c == '\u{2004}' || c == '\u{2005}' || c == '\u{2006}'
        || c == '\u{2007}' || c == '\u{2008}' || c == '\u{2009}' || c == '\u{200a}' || c
        == '\u{2028}' || c == '\u{2029}' || c == '\u{202f}' || c == '\u{205f}' || c == '\u{3000}'
}

/// True exactly when every character of the device id is whitespace.
fn device_id_is_blank(s: &String) -> (blank: bool)
    ensures
        blank == device_id_blank(s@),
{
    let n = s.as_str().unicode_len();
    let mut i: usize = 0;
    while i < n
        invariant
            i <= n,
            n == s@.len(),
            forall|j: int| 0 <= j < i ==> is_space_char(s@[j]),
        decreases n - i,
    {
        let c = s.as_str().get_char(i);
        if !is_space(c) {
            assert(!is_space_char(s@[i as int]));
            return false;
        }
        i = i + 1;
    }
    true
}

/// Checks a payload against the domain constraints, in order, stopping at
/// the first failure: blank device id, humidity range, temperature range,
/// soil moisture range. Returns `Ok` exactly on valid payloads.
pub fn validate_sensor_data_payload(payload: &SensorDataPayload) -> (r: Result<(), Error>)
    ensures
        r is Ok <==> payload_valid(payload@),
        r matches Err(e) ==> validation_error_for(payload@, e),
{
    if device_id_is_blank(&payload.device_id) {
        return Err(Error::InvalidInput { msg: String::from_str("Device ID cannot be empty") });
    }
    if payload.humidity < PERCENT_MIN || payload.humidity > PERCENT_MAX {
        return Err(
            Error::InvalidInput { msg: String::from_str("Humidity must be between 0 and 100") },
        );
    }
    if payload.temperature < TEMPERATURE_MIN || payload.temperature > TEMPERATURE_MAX {
        return Err(
            Error::InvalidInput {
                msg: String::from_str("Temperature must be between -50 and 60 degrees"),
            },
        );
    }
    if payload.soil_moisture < PERCENT_MIN || payload.soil_moisture > PERCENT_MAX {
        return Err(
            Error::InvalidInput {
                msg: String::from_str("Soil moisture must be between 0 and 100"),
            },
        );
    }
    Ok(())
}

/// Decides `record_valid`: whether the record's payload fields pass the
/// domain constraints.
pub fn record_is_valid(r: &SensorData) -> (b: bool)
    ensures
        b == record_valid(r@),
{
    !device_id_is_blank(&r.device_id) && PERCENT_MIN <= r.humidity && r.humidity <= PERCENT_MAX
        && TEMPERATURE_MIN <= r.temperature && r.temperature <= TEMPERATURE_MAX && PERCENT_MIN
        <= r.soil_moisture && r.soil_moisture <= PERCENT_MAX
}

} // verus!
