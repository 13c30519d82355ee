use ruuvi_sensor_protocol::{
    Acceleration, BatteryPotential, CarbonDioxide, Humidity, MeasurementSequenceNumber,
    MovementCounter, ParseError, ParticulateMatter, Pressure, SensorValues, Temperature,
    TransmitterPower,
};
use vstd::prelude::*;

verus! {

/// Vendor identifier under which the sensors publish their manufacturer data.
pub const MANUFACTURER_DATA_ID: u16 = 0x0499;

/// Buffers of at most this many bytes are refused before decoding: a format
/// marker and at least one data byte are required.
pub const MIN_PAYLOAD_LEN: usize = 2;

#[verifier::external_type_specification]
#[verifier::external_body]
pub struct ExSensorValues(SensorValues);

/// Why a manufacturer-data buffer yielded no readings.
#[derive(Clone, Copy, Debug, PartialEq, Eq, Structural)]
pub enum DecodeError {
    /// The advertisement carries no payload under the expected vendor identifier.
    UnknownManufacturerId(u16),
    /// The format marker names no scheme the decoder knows.
    UnsupportedFormatVersion(u8),
    /// Format marker, length of the buffer, and length that the format expects.
    InvalidValueLength(u8, usize, usize),
    /// The buffer is too short, or the device's properties could not be read.
    EmptyValue,
}

/// Full length of a frame, marker included, for each format the decoder knows.
pub open spec fn frame_len(version: u8) -> Option<nat> {
    if version == 3 {
        Some(14)
    } else if version == 5 {
        Some(24)
    } else if version == 6 {
        Some(20)
    } else if version == 0xE1 {
        Some(40)
    } else {
        None
    }
}

/// Acceleration vector, each component in milli-G.
#[derive(Clone, Copy, Debug, PartialEq, Eq, Structural)]
pub struct AccelerationMilliG {
    pub x: i16,
    pub y: i16,
    pub z: i16,
}

/// Decoded, versioned set of optional sensor quantities.
#[derive(Clone, Copy, Debug, PartialEq, Eq, Structural)]
pub struct SensorReadings {
    pub temperature_millicelsius: Option<i32>,
    pub humidity_ppm: Option<u32>,
    pub pressure_pascals: Option<u32>,
    pub battery_millivolts: Option<u16>,
    pub tx_power_dbm: Option<i8>,
    pub movement_counter: Option<u32>,
    pub measurement_sequence_number: Option<u32>,
    pub pm2_5: Option<u32>,
    pub co2_ppm: Option<u16>,
    pub acceleration_milli_g: Option<AccelerationMilliG>,
    pub format_version: Option<u8>,
}

/// The values that the decoder gives for a buffer it accepts.
pub uninterp spec fn decoded_values(data: Seq<u8>) -> SensorValues;

/// The temperature reading of the values decoded from `data`.
pub uninterp spec fn decoded_temperature(data: Seq<u8>) -> Option<i32>;

/// The humidity reading of the values decoded from `data`.
pub uninterp spec fn decoded_humidity(data: Seq<u8>) -> Option<u32>;

/// The pressure reading of the values decoded from `data`.
pub uninterp spec fn decoded_pressure(data: Seq<u8>) -> Option<u32>;

/// The battery reading of the values decoded from `data`.
pub uninterp spec fn decoded_battery(data: Seq<u8>) -> Option<u16>;

/// The tx power reading of the values decoded from `data`.
pub uninterp spec fn decoded_tx_power(data: Seq<u8>) -> Option<i8>;

/// The movement counter reading of the values decoded from `data`.
pub uninterp spec fn decoded_movement_counter(data: Seq<u8>) -> Option<u32>;

/// The sequence number reading of the values decoded from `data`.
pub uninterp spec fn decoded_sequence_number(data: Seq<u8>) -> Option<u32>;

/// The pm2 5 reading of the values decoded from `data`.
pub uninterp spec fn decoded_pm2_5(data: Seq<u8>) -> Option<u32>;

/// The co2 reading of the values decoded from `data`.
pub uninterp spec fn decoded_co2(data: Seq<u8>) -> Option<u16>;

/// The acceleration reading, in milli-G per axis, of the values decoded from `data`.
pub uninterp spec fn decoded_acceleration(data: Seq<u8>) -> Option<(i16, i16, i16)>;

/// An acceleration triple as the library's vector type.
pub open spec fn acceleration_from(a: Option<(i16, i16, i16)>) -> Option<AccelerationMilliG> {
    match a {
        Some((x, y, z)) => Some(AccelerationMilliG { x, y, z }),
        None => None,
    }
}

/// The readings of a buffer that the decoder accepts: the decoder's values,
/// and the buffer's first byte as format version.
pub open spec fn decoded_readings(data: Seq<u8>) -> SensorReadings {
    SensorReadings {
        temperature_millicelsius: decoded_temperature(data),
        humidity_ppm: decoded_humidity(data),
        pressure_pascals: decoded_pressure(data),
        battery_millivolts: decoded_battery(data),
        tx_power_dbm: decoded_tx_power(data),
        movement_counter: decoded_movement_counter(data),
        measurement_sequence_number: decoded_sequence_number(data),
        pm2_5: decoded_pm2_5(data),
        co2_ppm: decoded_co2(data),
        acceleration_milli_g: acceleration_from(decoded_acceleration(data)),
        format_version: Some(data[0]),
    }
}

/// What the decoder makes of a buffer: `None` where it decodes, else its
/// error. The format is chosen by the first byte, and the buffer must have
/// exactly that format's length.
pub open spec fn frame_error(data: Seq<u8>) -> Option<DecodeError> {
    if data.len() == 0 {
        Some(DecodeError::EmptyValue)
    } else if frame_len(data[0]) is None {
        Some(DecodeError::UnsupportedFormatVersion(data[0]))
    } else if data.len() != frame_len(data[0])->Some_0 {
        Some(
            DecodeError::InvalidValueLength(
                data[0],
                data.len() as usize,
                frame_len(data[0])->Some_0 as usize,
            ),
        )
    } else {
        None
    }
}

/// Relies on `SensorValues::from_manufacturer_specific_data` under the sensor
/// vendor's identifier: which buffers it accepts, and which error it gives for
/// the others; the values it returns depend on the buffer alone. The error is
/// carried over variant by variant.
#[verifier::external_body]
fn decode_frame(data: &[u8]) -> (r: Result<SensorValues, DecodeError>)
    ensures
        r is Ok <==> frame_error(data@) is None,
        r matches Err(e) ==> frame_error(data@) == Some(e),
        r matches Ok(v) ==> v == decoded_values(data@),
{
    match SensorValues::from_manufacturer_specific_data(MANUFACTURER_DATA_ID, data) {
        Ok(v) => Ok(v),
        Err(ParseError::UnknownManufacturerId(id)) => Err(DecodeError::UnknownManufacturerId(id)),
        Err(ParseError::UnsupportedFormatVersion(v)) => Err(DecodeError::UnsupportedFormatVersion(v)),
        Err(ParseError::InvalidValueLength(v, n, e)) => Err(DecodeError::InvalidValueLength(v, n, e)),
        Err(_) => Err(DecodeError::EmptyValue),
    }
}

/// Relies on `Temperature::temperature_as_millicelsius` of the decoded values.
#[verifier::external_body]
fn temperature_of(v: &SensorValues) -> (r: Option<i32>)
    ensures
        forall|data: Seq<u8>| #[trigger] decoded_values(data) == *v ==> r == decoded_temperature(data),
{
    v.temperature_as_millicelsius()
}

/// Relies on `Humidity::humidity_as_ppm` of the decoded values.
#[verifier::external_body]
fn humidity_of(v: &SensorValues) -> (r: Option<u32>)
    ensures
        forall|data: Seq<u8>| #[trigger] decoded_values(data) == *v ==> r == decoded_humidity(data),
{
    v.humidity_as_ppm()
}

/// Relies on `Pressure::pressure_as_pascals` of the decoded values.
#[verifier::external_body]
fn pressure_of(v: &SensorValues) -> (r: Option<u32>)
    ensures
        forall|data: Seq<u8>| #[trigger] decoded_values(data) == *v ==> r == decoded_pressure(data),
{
    v.pressure_as_pascals()
}

/// Relies on `BatteryPotential::battery_potential_as_millivolts` of the decoded values.
#[verifier::external_body]
fn battery_of(v: &SensorValues) -> (r: Option<u16>)
    ensures
        forall|data: Seq<u8>| #[trigger] decoded_values(data) == *v ==> r == decoded_battery(data),
{
    v.battery_potential_as_millivolts()
}

/// Relies on `TransmitterPower::tx_power_as_dbm` of the decoded values.
#[verifier::external_body]
fn tx_power_of(v: &SensorValues) -> (r: Option<i8>)
    ensures
        forall|data: Seq<u8>| #[trigger] decoded_values(data) == *v ==> r == decoded_tx_power(data),
{
    v.tx_power_as_dbm()
}

/// Relies on `MovementCounter::movement_counter` of the decoded values.
#[verifier::external_body]
fn movement_counter_of(v: &SensorValues) -> (r: Option<u32>)
    ensures
        forall|data: Seq<u8>| #[trigger] decoded_values(data) == *v ==> r == decoded_movement_counter(data),
{
    v.movement_counter()
}

/// Relies on `MeasurementSequenceNumber::measurement_sequence_number` of the decoded values.
#[verifier::external_body]
fn sequence_number_of(v: &SensorValues) -> (r: Option<u32>)
    ensures
        forall|data: Seq<u8>| #[trigger] decoded_values(data) == *v ==> r == decoded_sequence_number(data),
{
    v.measurement_sequence_number()
}

/// Relies on `ParticulateMatter::pm2_5_as_nanograms_per_cubic_meter` of the decoded values.
#[verifier::external_body]
fn pm2_5_of(v: &SensorValues) -> (r: Option<u32>)
    ensures
        forall|data: Seq<u8>| #[trigger] decoded_values(data) == *v ==> r == decoded_pm2_5(data),
{
    v.pm2_5_as_nanograms_per_cubic_meter()
}

/// Relies on `CarbonDioxide::carbon_dioxide_as_ppm` of the decoded values.
#[verifier::external_body]
fn co2_of(v: &SensorValues) -> (r: Option<u16>)
    ensures
        forall|data: Seq<u8>| #[trigger] decoded_values(data) == *v ==> r == decoded_co2(data),
{
    v.carbon_dioxide_as_ppm()
}

/// Relies on `Acceleration::acceleration_vector_as_milli_g` of the decoded
/// values; the vector's three components are moved into the library's own type.
#[verifier::external_body]
fn acceleration_of(v: &SensorValues) -> (r: Option<AccelerationMilliG>)
    ensures
        forall|data: Seq<u8>| #[trigger] decoded_values(data) == *v ==> r == acceleration_from(
            decoded_acceleration(data),
        ),
{
    v.acceleration_vector_as_milli_g().map(|a| AccelerationMilliG { x: a.0, y: a.1, z: a.2 })
}

/// Gathers the quantities that the decoder read from `data`.
fn readings_of(v: &SensorValues, data: &[u8]) -> (r: SensorReadings)
    requires
        data@.len() > 0,
        *v == decoded_values(data@),
    ensures
        r == decoded_readings(data@),
{
    SensorReadings {
        temperature_millicelsius: temperature_of(v),
        humidity_ppm: humidity_of(v),
        pressure_pascals: pressure_of(v),
        battery_millivolts: battery_of(v),
        tx_power_dbm: tx_power_of(v),
        movement_counter: movement_counter_of(v),
        measurement_sequence_number: sequence_number_of(v),
        pm2_5: pm2_5_of(v),
        co2_ppm: co2_of(v),
        acceleration_milli_g: acceleration_of(v),
        format_version: Some(data[0]),
    }
}

/// Outcome that the gateway owes for a buffer: `None` where it decodes, else
/// the error.
pub open spec fn gateway_error(data: Seq<u8>) -> Option<DecodeError> {
    if data.len() <= MIN_PAYLOAD_LEN {
        Some(DecodeError::EmptyValue)
    } else {
        frame_error(data)
    }
}

/// Validates a manufacturer-data buffer and decodes it. Buffers of at most two
/// bytes are refused before the decoder is called.
pub fn from_manufacturer_data(data: &[u8]) -> (r: Result<SensorReadings, DecodeError>)
    ensures
        r is Ok <==> gateway_error(data@) is None,
        r matches Err(e) ==> gateway_error(data@) == Some(e),
        r matches Ok(v) ==> v == decoded_readings(data@),
        r matches Ok(v) ==> v.format_version == Some(data@[0]),
{
    if data.len() > MIN_PAYLOAD_LEN {
        match decode_frame(data) {
            Ok(v) => Ok(readings_of(&v, data)),
            Err(e) => Err(e),
        }
    } else {
        Err(DecodeError::EmptyValue)
    }
}

} // verus!
