use crate::address::DeviceAddress;
use crate::readings::{
    decoded_readings, from_manufacturer_data, gateway_error, DecodeError, SensorReadings, MANUFACTURER_DATA_ID,
};
use vstd::prelude::*;

verus! {

/// One vendor-tagged payload of an advertisement.
#[derive(Clone, Debug)]
pub struct ManufacturerData {
    pub id: u16,
    pub data: Vec<u8>,
}

/// The advertisement-layer properties of a device, as the adapter reports them.
#[derive(Clone, Debug)]
pub struct Properties {
    pub rssi: Option<i16>,
    pub tx_power_level: Option<i16>,
    pub manufacturer_data: Vec<ManufacturerData>,
}

/// Outcome of asking the adapter about a device.
#[derive(Clone, Debug)]
pub enum PropertyQuery {
    /// The adapter knows no device under the event's identifier.
    DeviceUnknown,
    /// The device is known but its properties could not be read, or it has none.
    Unavailable,
    /// The device and its current properties.
    Found(DeviceAddress, Properties),
}

/// Measurement from one sensor broadcast.
#[derive(Clone, Copy, Debug, PartialEq, Eq)]
pub struct Measurement {
    pub address: DeviceAddress,
    pub tx_power: Option<i16>,
    pub rssi: Option<i16>,
    pub sensor_values: SensorReadings,
}

/// The payload that an advertisement carries under the sensor vendor's
/// identifier (its first such entry).
pub open spec fn vendor_payload(entries: Seq<ManufacturerData>) -> Option<Seq<u8>>
    decreases entries.len(),
{
    if entries.len() == 0 {
        None
    } else if entries[0].id == MANUFACTURER_DATA_ID {
        Some(entries[0].data@)
    } else {
        vendor_payload(entries.drop_first())
    }
}

/// What building a measurement from `props` yields: the error, or `None` on
/// success.
pub open spec fn build_error(props: Properties) -> Option<DecodeError> {
    match vendor_payload(props.manufacturer_data@) {
        None => Some(DecodeError::UnknownManufacturerId(0)),
        Some(p) => gateway_error(p),
    }
}

fn find_vendor_payload(entries: &Vec<ManufacturerData>) -> (r: Option<&Vec<u8>>)
    ensures
        match r {
            Some(d) => vendor_payload(entries@) == Some(d@),
            None => vendor_payload(entries@) is None,
        },
{
    let mut i: usize = 0;
    assert(entries@.subrange(0, entries@.len() as int) =~= entries@);
    while i < entries.len()
        invariant
            i <= entries@.len(),
            vendor_payload(entries@) == vendor_payload(
                entries@.subrange(i as int, entries@.len() as int),
            ),
        decreases entries.len() - i,
    {
        let ghost rest = entries@.subrange(i as int, entries@.len() as int);
        assert(rest.drop_first() =~= entries@.subrange(i + 1, entries@.len() as int));
        if entries[i].id == MANUFACTURER_DATA_ID {
            return Some(&entries[i].data);
        }
        i = i + 1;
    }
    None
}

/// Builds a measurement from a device's address and properties: the decoded
/// payload is the primary source, the advertisement's signal strength and
/// transmit power come along as they are.
pub fn measurement_from_properties(address: DeviceAddress, props: &Properties) -> (r: Result<
    Measurement,
    DecodeError,
>)
    ensures
        r is Ok <==> build_error(*props) is None,
        r matches Err(e) ==> build_error(*props) == Some(e),
        r matches Ok(m) ==> m.address == address && m.rssi == props.rssi && m.tx_power
            == props.tx_power_level && m.sensor_values.format_version == Some(
            vendor_payload(props.manufacturer_data@)->Some_0[0],
        ),
        r matches Ok(m) ==> m.sensor_values == decoded_readings(
            vendor_payload(props.manufacturer_data@)->Some_0,
        ),
{
    match find_vendor_payload(&props.manufacturer_data) {
        Some(data) => match from_manufacturer_data(data.as_slice()) {
            Ok(sensor_values) => Ok(
                Measurement {
                    address,
                    tx_power: props.tx_power_level,
                    rssi: props.rssi,
                    sensor_values,
                },
            ),
            Err(e) => Err(e),
        },
        None => Err(DecodeError::UnknownManufacturerId(0)),
    }
}

/// Outcome for a device after a discovery or update event: no outcome
/// (`None`) where the adapter does not know it or its properties could not be
/// read, else what building a measurement from its properties gives
/// (`Some(None)` for a measurement).
pub open spec fn measure_spec(query: PropertyQuery) -> Option<Option<DecodeError>> {
    match query {
        PropertyQuery::DeviceUnknown => None,
        PropertyQuery::Unavailable => None,
        PropertyQuery::Found(_, props) => Some(build_error(props)),
    }
}

/// Turns the answer of a property query into a measurement outcome.
pub fn measure(query: &PropertyQuery) -> (r: Option<Result<Measurement, DecodeError>>)
    ensures
        r is None <==> measure_spec(*query) is None,
        r matches Some(Err(e)) ==> measure_spec(*query) == Some(Some(e)),
        r matches Some(Ok(m)) ==> (measure_spec(*query) matches Some(None)),
        r matches Some(Ok(m)) ==> (query matches PropertyQuery::Found(a, p) && m.address == a
            && m.rssi == p.rssi && m.tx_power == p.tx_power_level && m.sensor_values
            == decoded_readings(vendor_payload(p.manufacturer_data@)->Some_0)),
{
    match query {
        PropertyQuery::DeviceUnknown => None,
        PropertyQuery::Unavailable => None,
        PropertyQuery::Found(address, props) => Some(measurement_from_properties(*address, props)),
    }
}

} // verus!
