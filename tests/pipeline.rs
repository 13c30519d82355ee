use ruuvi_influx::address::{normalize_text, DeviceAddress};
use ruuvi_influx::alias::{alias_map, parse_alias, Alias};
use ruuvi_influx::dispatch::{accepts_format, on_event, on_outcome, Action, BroadcastEvent, Config};
use ruuvi_influx::fields::{field_set, Field, FieldValue, TagKey, MISSING_PREREQUISITE_SENTINEL};
use ruuvi_influx::measurement::{
    measure, measurement_from_properties, ManufacturerData, Measurement, Properties, PropertyQuery,
};
use ruuvi_influx::point::{series_key, tag_set, to_data_point};
use ruuvi_influx::readings::{from_manufacturer_data, DecodeError, SensorReadings};

const ADDRESS: DeviceAddress = DeviceAddress { bytes: [0xAA, 0xBB, 0xCC, 0xDD, 0xEE, 0xFF] };

/// A format 5 frame: 21.5 degrees Celsius, 45 % relative humidity.
fn frame_v5() -> Vec<u8> {
    vec![
        0x05, 0x01, 0xAE, 0x46, 0x50, 0xC3, 0x7C, 0x00, 0x04, 0xFF, 0xFC, 0x04, 0x0C, 0xAC, 0x36,
        0x42, 0x00, 0xCD, 0xCB, 0xB8, 0x33, 0x4C, 0x88, 0x4F,
    ]
}

/// A format 3 frame from the protocol's documentation.
fn frame_v3() -> Vec<u8> {
    vec![
        0x03, 0x17, 0x01, 0x45, 0x35, 0x58, 0x03, 0xE8, 0x04, 0xE7, 0x05, 0xE6, 0x08, 0x86,
    ]
}

fn properties(payload: Vec<u8>) -> Properties {
    Properties {
        rssi: Some(-70),
        tx_power_level: Some(4),
        manufacturer_data: vec![ManufacturerData { id: 0x0499, data: payload }],
    }
}

fn measurement(payload: Vec<u8>) -> Measurement {
    measurement_from_properties(ADDRESS, &properties(payload)).unwrap()
}

fn config(aliases: Vec<Alias>, versions: Vec<u8>) -> Config {
    Config {
        series: "ruuvi_measurements".to_string(),
        aliases: alias_map(&aliases),
        keep_mac_colons: false,
        verbose: true,
        data_format_versions: versions,
    }
}

fn empty_readings() -> SensorReadings {
    SensorReadings {
        temperature_millicelsius: None,
        humidity_ppm: None,
        pressure_pascals: None,
        battery_millivolts: None,
        tx_power_dbm: None,
        movement_counter: None,
        measurement_sequence_number: None,
        pm2_5: None,
        co2_ppm: None,
        acceleration_milli_g: None,
        format_version: None,
    }
}

fn value_of(fields: &[(Field, FieldValue)], f: Field) -> Option<FieldValue> {
    fields.iter().find(|e| e.0 == f).map(|e| e.1)
}

fn as_float(v: FieldValue) -> f64 {
    match v {
        FieldValue::Ratio(n, d) => n as f64 / d as f64,
        FieldValue::Integer(n) => n as f64,
        _ => panic!("derived value"),
    }
}

#[test]
fn short_buffers_are_refused() {
    assert_eq!(from_manufacturer_data(&[]), Err(DecodeError::EmptyValue));
    assert_eq!(from_manufacturer_data(&[0x05]), Err(DecodeError::EmptyValue));
    assert_eq!(from_manufacturer_data(&[0x05, 0x01]), Err(DecodeError::EmptyValue));
    assert_eq!(from_manufacturer_data(&[0x07, 0x01]), Err(DecodeError::EmptyValue));
}

#[test]
fn unsupported_format_is_reported() {
    assert_eq!(
        from_manufacturer_data(&[0x07, 0x17, 0x01, 0x45]),
        Err(DecodeError::UnsupportedFormatVersion(7))
    );
}

#[test]
fn truncated_frame_is_reported() {
    assert_eq!(
        from_manufacturer_data(&[0x05, 0x01, 0xAE, 0x46]),
        Err(DecodeError::InvalidValueLength(5, 4, 24))
    );
}

#[test]
fn frame_v3_decodes() {
    let r = from_manufacturer_data(&frame_v3()).unwrap();
    assert_eq!(r.humidity_ppm, Some(115_000));
    assert_eq!(r.temperature_millicelsius, Some(1690));
    assert_eq!(r.pressure_pascals, Some(63656));
    assert_eq!(r.battery_millivolts, Some(2182));
    assert_eq!(r.format_version, Some(3));
    let a = r.acceleration_milli_g.unwrap();
    assert_eq!((a.x, a.y, a.z), (1000, 1255, 1510));
}

#[test]
fn missing_vendor_payload_is_unknown_manufacturer() {
    let props = Properties {
        rssi: None,
        tx_power_level: None,
        manufacturer_data: vec![ManufacturerData { id: 0x004C, data: frame_v5() }],
    };
    assert_eq!(
        measurement_from_properties(ADDRESS, &props),
        Err(DecodeError::UnknownManufacturerId(0))
    );
}

#[test]
fn property_query_outcomes() {
    assert_eq!(measure(&PropertyQuery::Unavailable), None);
    assert_eq!(measure(&PropertyQuery::DeviceUnknown), None);
    let m = measure(&PropertyQuery::Found(ADDRESS, properties(frame_v5()))).unwrap().unwrap();
    assert_eq!(m.address, ADDRESS);
    assert_eq!(m.rssi, Some(-70));
    assert_eq!(m.tx_power, Some(4));
}

#[test]
fn alias_parsing() {
    let a = parse_alias("AA:BB:CC:DD:EE:FF=Sauna").unwrap();
    assert_eq!(a.address, "AA:BB:CC:DD:EE:FF");
    assert_eq!(a.name, "Sauna");
    let b = parse_alias("AABB=x=y").unwrap();
    assert_eq!(b.address, "AABB");
    assert_eq!(b.name, "x=y");
    let c = parse_alias("AABB=").unwrap();
    assert_eq!(c.name, "");
    assert_eq!(parse_alias("AABB").unwrap_err(), "invalid alias");
}

#[test]
fn alias_resolution_falls_back_to_address() {
    let table = alias_map(&[
        parse_alias("AABBCCDDEEFF=Old").unwrap(),
        parse_alias("AABBCCDDEEFF=Sauna").unwrap(),
    ]);
    assert_eq!(table.resolve("AABBCCDDEEFF", false), "Sauna");
    assert_eq!(table.resolve("112233445566", false), "112233445566");
    let colons = alias_map(&[parse_alias("AA:BB:CC:DD:EE:FF=Sauna").unwrap()]);
    assert_eq!(colons.resolve("AABBCCDDEEFF", false), "Sauna");
    assert_eq!(colons.resolve("AA:BB:CC:DD:EE:FF", true), "Sauna");
    assert_eq!(colons.resolve("AABBCCDDEEFF", true), "AABBCCDDEEFF");
}

#[test]
fn colons_are_kept_on_request() {
    assert_eq!(ADDRESS.normalized(true), "AA:BB:CC:DD:EE:FF");
    assert_eq!(ADDRESS.normalized(false), "AABBCCDDEEFF");
    let addr = DeviceAddress { bytes: [0x01, 0x23, 0x45, 0x67, 0x89, 0x0A] };
    assert_eq!(addr.normalized(true), "01:23:45:67:89:0A");
    let table = alias_map(&[parse_alias("AA:BB:CC:DD:EE:FF=Sauna").unwrap()]);
    let m = measurement(frame_v5());
    let tags = tag_set(&table, &m, true);
    assert_eq!(tags[0], (TagKey::Mac, "AA:BB:CC:DD:EE:FF".to_string()));
    assert_eq!(tags[1], (TagKey::Name, "Sauna".to_string()));
    let stripped = tag_set(&table, &m, false);
    assert_eq!(stripped[0], (TagKey::Mac, "AABBCCDDEEFF".to_string()));
    assert_eq!(stripped[1], (TagKey::Name, "Sauna".to_string()));
    let plain = alias_map(&[parse_alias("AABBCCDDEEFF=Plain").unwrap()]);
    assert_eq!(tag_set(&plain, &m, true)[1], (TagKey::Name, "AA:BB:CC:DD:EE:FF".to_string()));
    assert_eq!(normalize_text("A:B::C", false), "ABC");
    assert_eq!(normalize_text("A:B::C", true), "A:B::C");
}

#[test]
fn format_allowlist() {
    let m3 = measurement(frame_v3());
    let m5 = measurement(frame_v5());
    let only3 = config(vec![], vec![3]);
    assert_eq!(on_outcome(&only3, Some(Ok(m3))), Action::Dispatch(m3));
    assert_eq!(on_outcome(&only3, Some(Ok(m5))), Action::Discard);
    let all = config(vec![], vec![]);
    assert_eq!(on_outcome(&all, Some(Ok(m3))), Action::Dispatch(m3));
    assert_eq!(on_outcome(&all, Some(Ok(m5))), Action::Dispatch(m5));
    assert!(accepts_format(&vec![3, 5], Some(5)));
    assert!(!accepts_format(&vec![3], None));
}

#[test]
fn errors_reported_only_when_verbose() {
    let mut c = config(vec![], vec![]);
    assert_eq!(
        on_outcome(&c, Some(Err(DecodeError::EmptyValue))),
        Action::ReportError(DecodeError::EmptyValue)
    );
    c.verbose = false;
    assert_eq!(on_outcome(&c, Some(Err(DecodeError::EmptyValue))), Action::Ignore);
    assert_eq!(on_outcome(&c, None), Action::Ignore);
}

#[test]
fn discovery_without_alias() {
    assert_eq!(on_event(BroadcastEvent::DeviceDiscovered), Action::QueryProperties);
    let c = config(vec![], vec![]);
    let outcome = measure(&PropertyQuery::Found(ADDRESS, properties(frame_v5())));
    let m = match on_outcome(&c, outcome) {
        Action::Dispatch(m) => m,
        other => panic!("unexpected {:?}", other),
    };
    let p = to_data_point(&c.aliases, c.series.clone(), &m, c.keep_mac_colons, 7);
    assert_eq!(p.measurement, "ruuvi_measurements");
    assert_eq!(p.tag_set[0], (TagKey::Mac, "AABBCCDDEEFF".to_string()));
    assert_eq!(p.tag_set[1], (TagKey::Name, "AABBCCDDEEFF".to_string()));
    assert_eq!(value_of(&p.field_set, Field::Temperature), Some(FieldValue::Ratio(2150, 1000)));
    assert_eq!(as_float(value_of(&p.field_set, Field::Temperature).unwrap()), 2.15);
    assert_eq!(as_float(value_of(&p.field_set, Field::Humidity).unwrap()), 45.0);
    assert_eq!(value_of(&p.field_set, Field::DataFormat), Some(FieldValue::Integer(5)));
    assert_eq!(p.timestamp_ns, 7);
}

#[test]
fn discovery_with_alias() {
    let c = config(vec![parse_alias("AA:BB:CC:DD:EE:FF=Sauna").unwrap()], vec![]);
    let m = measurement(frame_v5());
    let p = to_data_point(&c.aliases, c.series.clone(), &m, c.keep_mac_colons, 0);
    assert_eq!(p.tag_set[0], (TagKey::Mac, "AABBCCDDEEFF".to_string()));
    assert_eq!(p.tag_set[1], (TagKey::Name, "Sauna".to_string()));
}

#[test]
fn connection_events_are_ignored() {
    assert_eq!(on_event(BroadcastEvent::DeviceConnected), Action::Ignore);
    assert_eq!(on_event(BroadcastEvent::DeviceDisconnected), Action::Ignore);
    assert_eq!(on_event(BroadcastEvent::StateUpdate), Action::Ignore);
    assert_eq!(on_event(BroadcastEvent::DeviceUpdated), Action::QueryProperties);
}

#[test]
fn assembly_twice_gives_same_sets() {
    let table = alias_map(&[]);
    let m = measurement(frame_v5());
    let p1 = to_data_point(&table, "s".to_string(), &m, false, 1);
    let p2 = to_data_point(&table, "s".to_string(), &m, false, 2);
    assert_eq!(p1.tag_set, p2.tag_set);
    assert_eq!(p1.field_set, p2.field_set);
    assert_ne!(p1.timestamp_ns, p2.timestamp_ns);
}

#[test]
fn absent_quantities_give_absent_fields() {
    let m = Measurement { address: ADDRESS, tx_power: None, rssi: None, sensor_values: empty_readings() };
    assert!(field_set(&m).is_empty());
    let mut r = empty_readings();
    r.temperature_millicelsius = Some(-1500);
    let m = Measurement { address: ADDRESS, tx_power: None, rssi: Some(-60), sensor_values: r };
    let f = field_set(&m);
    assert_eq!(value_of(&f, Field::Temperature), Some(FieldValue::Ratio(-1500, 1000)));
    assert_eq!(
        value_of(&f, Field::DewPoint),
        Some(FieldValue::DewPoint {
            temperature_millicelsius: -1500,
            humidity_ppm: MISSING_PREREQUISITE_SENTINEL
        })
    );
    assert_eq!(value_of(&f, Field::Humidity), None);
    assert_eq!(value_of(&f, Field::AbsoluteHumidity), None);
    assert_eq!(value_of(&f, Field::AirDensity), None);
    assert_eq!(value_of(&f, Field::Rssi), Some(FieldValue::Integer(-60)));
    assert_eq!(value_of(&f, Field::TxPower), None);
}

#[test]
fn tx_power_falls_back_to_advertisement() {
    let mut r = empty_readings();
    r.humidity_ppm = Some(500_000);
    let m = Measurement { address: ADDRESS, tx_power: Some(-4), rssi: None, sensor_values: r };
    let f = field_set(&m);
    assert_eq!(value_of(&f, Field::TxPower), Some(FieldValue::Integer(-4)));
    assert_eq!(
        value_of(&f, Field::AbsoluteHumidity),
        Some(FieldValue::AbsoluteHumidity {
            temperature_millicelsius: MISSING_PREREQUISITE_SENTINEL,
            humidity_ppm: 500_000
        })
    );
    r.tx_power_dbm = Some(8);
    let m = Measurement { address: ADDRESS, tx_power: Some(-4), rssi: None, sensor_values: r };
    assert_eq!(value_of(&field_set(&m), Field::TxPower), Some(FieldValue::Integer(8)));
}

#[test]
fn field_set_order_and_scaling() {
    let m = measurement(frame_v5());
    let f = field_set(&m);
    let names: Vec<&str> = f.iter().map(|e| e.0.name()).collect();
    assert_eq!(TagKey::Mac.name(), "mac");
    assert_eq!(TagKey::Name.name(), "name");
    assert_eq!(Field::Pm25.name(), "pm25");
    assert_eq!(Field::Co2.name(), "co2");
    assert_eq!(
        names,
        vec![
            "temperature",
            "dewPoint",
            "humidity",
            "absoluteHumidity",
            "pressure",
            "batteryVoltage",
            "txPower",
            "movementCounter",
            "measurementSequenceNumber",
            "dataFormat",
            "rssi",
            "airDensity",
            "equilibriumVaporPressure",
            "accelerationX",
            "accelerationY",
            "accelerationZ",
        ]
    );
    assert_eq!(value_of(&f, Field::Pressure), Some(FieldValue::Ratio(100_044, 1000)));
    assert_eq!(value_of(&f, Field::AccelerationX), Some(FieldValue::Ratio(4, 1000)));
    assert_eq!(value_of(&f, Field::AccelerationY), Some(FieldValue::Ratio(-4, 1000)));
    assert_eq!(value_of(&f, Field::MovementCounter), Some(FieldValue::Integer(66)));
    assert_eq!(value_of(&f, Field::MeasurementSequenceNumber), Some(FieldValue::Integer(205)));
    assert_eq!(value_of(&f, Field::TxPower), Some(FieldValue::Integer(4)));
}

#[test]
fn series_key_escapes_names_and_tags() {
    let table = alias_map(&[parse_alias("AABBCCDDEEFF=Living room, north=1").unwrap()]);
    let m = measurement(frame_v5());
    let p = to_data_point(&table, "ruuvi data,x=y".to_string(), &m, false, 0);
    assert_eq!(
        series_key(&p),
        "ruuvi\\ data\\,x=y,mac=AABBCCDDEEFF,name=Living\\ room\\,\\ north\\=1"
    );
}
