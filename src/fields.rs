use crate::alias::AliasTable;
use crate::measurement::Measurement;
use vstd::prelude::*;

verus! {

/// Stands in for a missing prerequisite of a derived metric: where humidity is
/// absent the dew point is computed with this value as parts per million, and
/// where temperature is absent the absolute humidity is computed with it as
/// milli-Celsius. The derived value is then defined but has no physical
/// meaning; the policy is kept as it is and made explicit here.
pub const MISSING_PREREQUISITE_SENTINEL: i64 = 999_999_999;

/// Names of the fields of a data point.
#[derive(Clone, Copy, Debug, PartialEq, Eq, Structural)]
pub enum Field {
    Temperature,
    DewPoint,
    Humidity,
    AbsoluteHumidity,
    Pressure,
    BatteryVoltage,
    TxPower,
    MovementCounter,
    MeasurementSequenceNumber,
    Pm25,
    Co2,
    DataFormat,
    Rssi,
    AirDensity,
    EquilibriumVaporPressure,
    AccelerationX,
    AccelerationY,
    AccelerationZ,
}

/// The name under which field `f` is written.
pub open spec fn field_name(f: Field) -> Seq<char> {
    match f {
        Field::Temperature => "temperature"@,
        Field::DewPoint => "dewPoint"@,
        Field::Humidity => "humidity"@,
        Field::AbsoluteHumidity => "absoluteHumidity"@,
        Field::Pressure => "pressure"@,
        Field::BatteryVoltage => "batteryVoltage"@,
        Field::TxPower => "txPower"@,
        Field::MovementCounter => "movementCounter"@,
        Field::MeasurementSequenceNumber => "measurementSequenceNumber"@,
        Field::Pm25 => "pm25"@,
        Field::Co2 => "co2"@,
        Field::DataFormat => "dataFormat"@,
        Field::Rssi => "rssi"@,
        Field::AirDensity => "airDensity"@,
        Field::EquilibriumVaporPressure => "equilibriumVaporPressure"@,
        Field::AccelerationX => "accelerationX"@,
        Field::AccelerationY => "accelerationY"@,
        Field::AccelerationZ => "accelerationZ"@,
    }
}

impl Field {
    /// The field's name in the written data point.
    pub fn name(&self) -> (r: &'static str)
        ensures
            r@ == field_name(*self),
    {
        match self {
            Field::Temperature => "temperature",
            Field::DewPoint => "dewPoint",
            Field::Humidity => "humidity",
            Field::AbsoluteHumidity => "absoluteHumidity",
            Field::Pressure => "pressure",
            Field::BatteryVoltage => "batteryVoltage",
            Field::TxPower => "txPower",
            Field::MovementCounter => "movementCounter",
            Field::MeasurementSequenceNumber => "measurementSequenceNumber",
            Field::Pm25 => "pm25",
            Field::Co2 => "co2",
            Field::DataFormat => "dataFormat",
            Field::Rssi => "rssi",
            Field::AirDensity => "airDensity",
            Field::EquilibriumVaporPressure => "equilibriumVaporPressure",
            Field::AccelerationX => "accelerationX",
            Field::AccelerationY => "accelerationY",
            Field::AccelerationZ => "accelerationZ",
        }
    }
}

/// Value of a field. Scaled quantities are kept exact as a ratio; derived
/// metrics carry the inputs they are computed from.
#[derive(Clone, Copy, Debug, PartialEq, Eq, Structural)]
pub enum FieldValue {
    /// An unscaled integer.
    Integer(i64),
    /// The real number `numerator / divisor`.
    Ratio(i64, i64),
    /// Dew point in degrees Celsius at this temperature and relative humidity.
    DewPoint { temperature_millicelsius: i64, humidity_ppm: i64 },
    /// Absolute humidity in grams per cubic meter.
    AbsoluteHumidity { temperature_millicelsius: i64, humidity_ppm: i64 },
    /// Density of humid air in kilograms per cubic meter.
    AirDensity { temperature_millicelsius: i64, humidity_ppm: i64, pressure_pascals: i64 },
    /// Equilibrium vapour pressure of water at this temperature, in hectopascals,
    /// divided by one hundred.
    EquilibriumVaporPressure { temperature_millicelsius: i64 },
}

/// Names of the tags of a data point.
#[derive(Clone, Copy, Debug, PartialEq, Eq, Structural)]
pub enum TagKey {
    Mac,
    Name,
}

/// The name under which tag `t` is written.
pub open spec fn tag_name(t: TagKey) -> Seq<char> {
    match t {
        TagKey::Mac => "mac"@,
        TagKey::Name => "name"@,
    }
}

impl TagKey {
    /// The tag's name in the written data point.
    pub fn name(&self) -> (r: &'static str)
        ensures
            r@ == tag_name(*self),
    {
        match self {
            TagKey::Mac => "mac",
            TagKey::Name => "name",
        }
    }
}

/// The value that field `f` has for measurement `m`, if it is present.
pub open spec fn field_value(m: Measurement, f: Field) -> Option<FieldValue> {
    let r = m.sensor_values;
    match f {
        Field::Temperature => match r.temperature_millicelsius {
            Some(t) => Some(FieldValue::Ratio(t as i64, 1000)),
            None => None,
        },
        Field::DewPoint => match r.temperature_millicelsius {
            Some(t) => Some(
                FieldValue::DewPoint {
                    temperature_millicelsius: t as i64,
                    humidity_ppm: match r.humidity_ppm {
                        Some(h) => h as i64,
                        None => MISSING_PREREQUISITE_SENTINEL,
                    },
                },
            ),
            None => None,
        },
        Field::Humidity => match r.humidity_ppm {
            Some(h) => Some(FieldValue::Ratio(h as i64, 10000)),
            None => None,
        },
        Field::AbsoluteHumidity => match r.humidity_ppm {
            Some(h) => Some(
                FieldValue::AbsoluteHumidity {
                    temperature_millicelsius: match r.temperature_millicelsius {
                        Some(t) => t as i64,
                        None => MISSING_PREREQUISITE_SENTINEL,
                    },
                    humidity_ppm: h as i64,
                },
            ),
            None => None,
        },
        Field::Pressure => match r.pressure_pascals {
            Some(p) => Some(FieldValue::Ratio(p as i64, 1000)),
            None => None,
        },
        Field::BatteryVoltage => match r.battery_millivolts {
            Some(b) => Some(FieldValue::Ratio(b as i64, 1000)),
            None => None,
        },
        Field::TxPower => match r.tx_power_dbm {
            Some(p) => Some(FieldValue::Integer(p as i64)),
            None => match m.tx_power {
                Some(p) => Some(FieldValue::Integer(p as i64)),
                None => None,
            },
        },
        Field::MovementCounter => match r.movement_counter {
            Some(c) => Some(FieldValue::Integer(c as i64)),
            None => None,
        },
        Field::MeasurementSequenceNumber => match r.measurement_sequence_number {
            Some(c) => Some(FieldValue::Integer(c as i64)),
            None => None,
        },
        Field::Pm25 => match r.pm2_5 {
            Some(c) => Some(FieldValue::Ratio(c as i64, 1)),
            None => None,
        },
        Field::Co2 => match r.co2_ppm {
            Some(c) => Some(FieldValue::Ratio(c as i64, 1)),
            None => None,
        },
        Field::DataFormat => match r.format_version {
            Some(v) => Some(FieldValue::Integer(v as i64)),
            None => None,
        },
        Field::Rssi => match m.rssi {
            Some(s) => Some(FieldValue::Integer(s as i64)),
            None => None,
        },
        Field::AirDensity => match (
            r.temperature_millicelsius,
            r.humidity_ppm,
            r.pressure_pascals,
        ) {
            (Some(t), Some(h), Some(p)) => Some(
                FieldValue::AirDensity {
                    temperature_millicelsius: t as i64,
                    humidity_ppm: h as i64,
                    pressure_pascals: p as i64,
                },
            ),
            _ => None,
        },
        Field::EquilibriumVaporPressure => match r.temperature_millicelsius {
            Some(t) => Some(FieldValue::EquilibriumVaporPressure { temperature_millicelsius: t as i64 }),
            None => None,
        },
        Field::AccelerationX => match r.acceleration_milli_g {
            Some(a) => Some(FieldValue::Ratio(a.x as i64, 1000)),
            None => None,
        },
        Field::AccelerationY => match r.acceleration_milli_g {
            Some(a) => Some(FieldValue::Ratio(a.y as i64, 1000)),
            None => None,
        },
        Field::AccelerationZ => match r.acceleration_milli_g {
            Some(a) => Some(FieldValue::Ratio(a.z as i64, 1000)),
            None => None,
        },
    }
}

/// The entry of field `f`, or nothing where it is absent.
pub open spec fn entry(m: Measurement, f: Field) -> Seq<(Field, FieldValue)> {
    match field_value(m, f) {
        Some(v) => seq![(f, v)],
        None => Seq::empty(),
    }
}

/// Every field, in the order in which a field set lists them.
pub open spec fn all_fields() -> Seq<Field> {
    seq![
        Field::Temperature,
        Field::DewPoint,
        Field::Humidity,
        Field::AbsoluteHumidity,
        Field::Pressure,
        Field::BatteryVoltage,
        Field::TxPower,
        Field::MovementCounter,
        Field::MeasurementSequenceNumber,
        Field::Pm25,
        Field::Co2,
        Field::DataFormat,
        Field::Rssi,
        Field::AirDensity,
        Field::EquilibriumVaporPressure,
        Field::AccelerationX,
        Field::AccelerationY,
        Field::AccelerationZ,
    ]
}

/// The entries of the fields `fs` that are present for `m`, in the order of `fs`.
pub open spec fn entries_of(m: Measurement, fs: Seq<Field>) -> Seq<(Field, FieldValue)>
    decreases fs.len(),
{
    if fs.len() == 0 {
        Seq::empty()
    } else {
        entries_of(m, fs.drop_last()) + entry(m, fs.last())
    }
}

/// The field set of a measurement.
pub open spec fn field_set_spec(m: Measurement) -> Seq<(Field, FieldValue)> {
    entries_of(m, all_fields())
}

/// `s` holds an entry for field `f`.
pub open spec fn has_field(s: Seq<(Field, FieldValue)>, f: Field) -> bool {
    exists|i: int| 0 <= i < s.len() && #[trigger] s[i].0 == f
}

/// `s` holds the entry `(f, v)`.
pub open spec fn has_entry(s: Seq<(Field, FieldValue)>, f: Field, v: FieldValue) -> bool {
    exists|i: int| 0 <= i < s.len() && #[trigger] s[i] == (f, v)
}

fn field_order() -> (r: [Field; 18])
    ensures
        r@ == all_fields(),
{
    let r = [
        Field::Temperature,
        Field::DewPoint,
        Field::Humidity,
        Field::AbsoluteHumidity,
        Field::Pressure,
        Field::BatteryVoltage,
        Field::TxPower,
        Field::MovementCounter,
        Field::MeasurementSequenceNumber,
        Field::Pm25,
        Field::Co2,
        Field::DataFormat,
        Field::Rssi,
        Field::AirDensity,
        Field::EquilibriumVaporPressure,
        Field::AccelerationX,
        Field::AccelerationY,
        Field::AccelerationZ,
    ];
    assert(r@ =~= all_fields());
    r
}

/// Computes the value of field `f` for `m`.
pub fn compute_field(m: &Measurement, f: Field) -> (r: Option<FieldValue>)
    ensures
        r == field_value(*m, f),
{
    let r = &m.sensor_values;
    let humidity_or_sentinel: i64 = match r.humidity_ppm {
        Some(h) => h as i64,
        None => MISSING_PREREQUISITE_SENTINEL,
    };
    let temperature_or_sentinel: i64 = match r.temperature_millicelsius {
        Some(t) => t as i64,
        None => MISSING_PREREQUISITE_SENTINEL,
    };
    match f {
        Field::Temperature => match r.temperature_millicelsius {
            Some(t) => Some(FieldValue::Ratio(t as i64, 1000)),
            None => None,
        },
        Field::DewPoint => match r.temperature_millicelsius {
            Some(t) => Some(
                FieldValue::DewPoint {
                    temperature_millicelsius: t as i64,
                    humidity_ppm: humidity_or_sentinel,
                },
            ),
            None => None,
        },
        Field::Humidity => match r.humidity_ppm {
            Some(h) => Some(FieldValue::Ratio(h as i64, 10000)),
            None => None,
        },
        Field::AbsoluteHumidity => match r.humidity_ppm {
            Some(h) => Some(
                FieldValue::AbsoluteHumidity {
                    temperature_millicelsius: temperature_or_sentinel,
                    humidity_ppm: h as i64,
                },
            ),
            None => None,
        },
        Field::Pressure => match r.pressure_pascals {
            Some(p) => Some(FieldValue::Ratio(p as i64, 1000)),
            None => None,
        },
        Field::BatteryVoltage => match r.battery_millivolts {
            Some(b) => Some(FieldValue::Ratio(b as i64, 1000)),
            None => None,
        },
        Field::TxPower => match r.tx_power_dbm {
            Some(p) => Some(FieldValue::Integer(p as i64)),
            None => match m.tx_power {
                Some(p) => Some(FieldValue::Integer(p as i64)),
                None => None,
            },
        },
        Field::MovementCounter => match r.movement_counter {
            Some(c) => Some(FieldValue::Integer(c as i64)),
            None => None,
        },
        Field::MeasurementSequenceNumber => match r.measurement_sequence_number {
            Some(c) => Some(FieldValue::Integer(c as i64)),
            None => None,
        },
        Field::Pm25 => match r.pm2_5 {
            Some(c) => Some(FieldValue::Ratio(c as i64, 1)),
            None => None,
        },
        Field::Co2 => match r.co2_ppm {
            Some(c) => Some(FieldValue::Ratio(c as i64, 1)),
            None => None,
        },
        Field::DataFormat => match r.format_version {
            Some(v) => Some(FieldValue::Integer(v as i64)),
            None => None,
        },
        Field::Rssi => match m.rssi {
            Some(s) => Some(FieldValue::Integer(s as i64)),
            None => None,
        },
        Field::AirDensity => match (r.temperature_millicelsius, r.humidity_ppm, r.pressure_pascals) {
            (Some(t), Some(h), Some(p)) => Some(
                FieldValue::AirDensity {
                    temperature_millicelsius: t as i64,
                    humidity_ppm: h as i64,
                    pressure_pascals: p as i64,
                },
            ),
            _ => None,
        },
        Field::EquilibriumVaporPressure => match r.temperature_millicelsius {
            Some(t) => Some(FieldValue::EquilibriumVaporPressure { temperature_millicelsius: t as i64 }),
            None => None,
        },
        Field::AccelerationX => match r.acceleration_milli_g {
            Some(a) => Some(FieldValue::Ratio(a.x as i64, 1000)),
            None => None,
        },
        Field::AccelerationY => match r.acceleration_milli_g {
            Some(a) => Some(FieldValue::Ratio(a.y as i64, 1000)),
            None => None,
        },
        Field::AccelerationZ => match r.acceleration_milli_g {
            Some(a) => Some(FieldValue::Ratio(a.z as i64, 1000)),
            None => None,
        },
    }
}

/// Assembles the field set of a measurement: each field is present exactly
/// when its source quantities are, scaled as its value says.
pub fn field_set(m: &Measurement) -> (r: Vec<(Field, FieldValue)>)
    ensures
        r@ == field_set_spec(*m),
{
    let order = field_order();
    let mut fields: Vec<(Field, FieldValue)> = Vec::new();
    let mut i: usize = 0;
    while i < 18
        invariant
            i <= 18,
            order@ == all_fields(),
            fields@ == entries_of(*m, order@.subrange(0, i as int)),
        decreases 18 - i,
    {
        let f = order[i];
        let ghost next = order@.subrange(0, i + 1);
        assert(next.drop_last() =~= order@.subrange(0, i as int));
        match compute_field(m, f) {
            Some(v) => {
                fields.push((f, v));
            },
            None => {},
        }
        assert(fields@ =~= entries_of(*m, next));
        i = i + 1;
    }
    assert(order@.subrange(0, 18) =~= all_fields());
    fields
}

proof fn lemma_concat_fields(a: Seq<(Field, FieldValue)>, b: Seq<(Field, FieldValue)>, f: Field, v: FieldValue)
    ensures
        has_field(a + b, f) == (has_field(a, f) || has_field(b, f)),
        has_entry(a + b, f, v) == (has_entry(a, f, v) || has_entry(b, f, v)),
{
    let s = a + b;
    if has_field(s, f) {
        let i = choose|i: int| 0 <= i < s.len() && #[trigger] s[i].0 == f;
        if i < a.len() {
            assert(a[i].0 == f);
        } else {
            assert(b[i - a.len()].0 == f);
        }
    }
    if has_field(a, f) {
        let i = choose|i: int| 0 <= i < a.len() && #[trigger] a[i].0 == f;
        assert(s[i].0 == f);
    }
    if has_field(b, f) {
        let i = choose|i: int| 0 <= i < b.len() && #[trigger] b[i].0 == f;
        assert(s[i + a.len()].0 == f);
    }
    if has_entry(s, f, v) {
        let i = choose|i: int| 0 <= i < s.len() && #[trigger] s[i] == (f, v);
        if i < a.len() {
            assert(a[i] == (f, v));
        } else {
            assert(b[i - a.len()] == (f, v));
        }
    }
    if has_entry(a, f, v) {
        let i = choose|i: int| 0 <= i < a.len() && #[trigger] a[i] == (f, v);
        assert(s[i] == (f, v));
    }
    if has_entry(b, f, v) {
        let i = choose|i: int| 0 <= i < b.len() && #[trigger] b[i] == (f, v);
        assert(s[i + a.len()] == (f, v));
    }
}

proof fn lemma_entries_of(m: Measurement, fs: Seq<Field>, f: Field, v: FieldValue)
    ensures
        has_field(entries_of(m, fs), f) == (fs.contains(f) && field_value(m, f) is Some),
        has_entry(entries_of(m, fs), f, v) == (fs.contains(f) && field_value(m, f) == Some(v)),
    decreases fs.len(),
{
    if fs.len() > 0 {
        let g = fs.last();
        lemma_entries_of(m, fs.drop_last(), f, v);
        lemma_concat_fields(entries_of(m, fs.drop_last()), entry(m, g), f, v);
        if fs.contains(f) && f != g {
            let k = choose|k: int| 0 <= k < fs.len() && fs[k] == f;
            assert(fs.drop_last()[k] == f);
        }
        if fs.drop_last().contains(f) {
            let k = choose|k: int| 0 <= k < fs.drop_last().len() && fs.drop_last()[k] == f;
            assert(fs[k] == f);
        }
        if f == g {
            assert(fs[fs.len() - 1] == f);
        }
        let e = entry(m, g);
        if has_field(e, f) {
            let i = choose|i: int| 0 <= i < e.len() && #[trigger] e[i].0 == f;
        }
        if has_entry(e, f, v) {
            let i = choose|i: int| 0 <= i < e.len() && #[trigger] e[i] == (f, v);
        }
        if f == g && field_value(m, f) is Some {
            assert(e[0].0 == f);
        }
        if f == g && field_value(m, f) == Some(v) {
            assert(e[0] == (f, v));
        }
    }
}

proof fn lemma_all_fields_contains(f: Field)
    ensures
        all_fields().contains(f),
{
    let s = all_fields();
    match f {
        Field::Temperature => assert(s[0] == f),
        Field::DewPoint => assert(s[1] == f),
        Field::Humidity => assert(s[2] == f),
        Field::AbsoluteHumidity => assert(s[3] == f),
        Field::Pressure => assert(s[4] == f),
        Field::BatteryVoltage => assert(s[5] == f),
        Field::TxPower => assert(s[6] == f),
        Field::MovementCounter => assert(s[7] == f),
        Field::MeasurementSequenceNumber => assert(s[8] == f),
        Field::Pm25 => assert(s[9] == f),
        Field::Co2 => assert(s[10] == f),
        Field::DataFormat => assert(s[11] == f),
        Field::Rssi => assert(s[12] == f),
        Field::AirDensity => assert(s[13] == f),
        Field::EquilibriumVaporPressure => assert(s[14] == f),
        Field::AccelerationX => assert(s[15] == f),
        Field::AccelerationY => assert(s[16] == f),
        Field::AccelerationZ => assert(s[17] == f),
    }
}

/// A field is in the field set of `m` exactly when its value for `m` is
/// defined, and then with that value: a field whose source quantity is absent
/// is absent too.
pub proof fn field_presence(m: Measurement, f: Field, v: FieldValue)
    ensures
        has_field(field_set_spec(m), f) <==> field_value(m, f) is Some,
        has_entry(field_set_spec(m), f, v) <==> field_value(m, f) == Some(v),
{
    lemma_all_fields_contains(f);
    lemma_entries_of(m, all_fields(), f, v);
}

/// A field set holds no field whose source quantity is absent. The dew point
/// and the absolute humidity are the exception for their second input: where
/// it is absent they are still present, computed with the sentinel in its place.
pub proof fn absent_quantities_absent_fields(m: Measurement)
    ensures
        ({
            let s = field_set_spec(m);
            let r = m.sensor_values;
            &&& r.temperature_millicelsius is None ==> !has_field(s, Field::Temperature)
                && !has_field(s, Field::DewPoint) && !has_field(s, Field::AirDensity)
                && !has_field(s, Field::EquilibriumVaporPressure)
            &&& r.humidity_ppm is None ==> !has_field(s, Field::Humidity) && !has_field(
                s,
                Field::AbsoluteHumidity,
            ) && !has_field(s, Field::AirDensity)
            &&& r.pressure_pascals is None ==> !has_field(s, Field::Pressure) && !has_field(
                s,
                Field::AirDensity,
            )
            &&& r.battery_millivolts is None ==> !has_field(s, Field::BatteryVoltage)
            &&& r.tx_power_dbm is None && m.tx_power is None ==> !has_field(s, Field::TxPower)
            &&& r.movement_counter is None ==> !has_field(s, Field::MovementCounter)
            &&& r.measurement_sequence_number is None ==> !has_field(
                s,
                Field::MeasurementSequenceNumber,
            )
            &&& r.pm2_5 is None ==> !has_field(s, Field::Pm25)
            &&& r.co2_ppm is None ==> !has_field(s, Field::Co2)
            &&& r.format_version is None ==> !has_field(s, Field::DataFormat)
            &&& m.rssi is None ==> !has_field(s, Field::Rssi)
            &&& r.acceleration_milli_g is None ==> !has_field(s, Field::AccelerationX)
                && !has_field(s, Field::AccelerationY) && !has_field(s, Field::AccelerationZ)
            &&& (r.humidity_ppm is None && r.temperature_millicelsius is Some) ==> has_entry(
                s,
                Field::DewPoint,
                (FieldValue::DewPoint {
                    temperature_millicelsius: r.temperature_millicelsius->Some_0 as i64,
                    humidity_ppm: MISSING_PREREQUISITE_SENTINEL,
                }),
            )
            &&& (r.temperature_millicelsius is None && r.humidity_ppm is Some) ==> has_entry(
                s,
                Field::AbsoluteHumidity,
                (FieldValue::AbsoluteHumidity {
                    temperature_millicelsius: MISSING_PREREQUISITE_SENTINEL,
                    humidity_ppm: r.humidity_ppm->Some_0 as i64,
                }),
            )
        }),
{
    let r = m.sensor_values;
    let any = FieldValue::Integer(0);
    field_presence(m, Field::Temperature, any);
    field_presence(m, Field::Humidity, any);
    field_presence(m, Field::AirDensity, any);
    field_presence(m, Field::EquilibriumVaporPressure, any);
    field_presence(m, Field::Pressure, any);
    field_presence(m, Field::BatteryVoltage, any);
    field_presence(m, Field::TxPower, any);
    field_presence(m, Field::MovementCounter, any);
    field_presence(m, Field::MeasurementSequenceNumber, any);
    field_presence(m, Field::Pm25, any);
    field_presence(m, Field::Co2, any);
    field_presence(m, Field::DataFormat, any);
    field_presence(m, Field::Rssi, any);
    field_presence(m, Field::AccelerationX, any);
    field_presence(m, Field::AccelerationY, any);
    field_presence(m, Field::AccelerationZ, any);
    match r.temperature_millicelsius {
        Some(t) => field_presence(
            m,
            Field::DewPoint,
            FieldValue::DewPoint {
                temperature_millicelsius: t as i64,
                humidity_ppm: MISSING_PREREQUISITE_SENTINEL,
            },
        ),
        None => field_presence(m, Field::DewPoint, any),
    }
    match r.humidity_ppm {
        Some(h) => field_presence(
            m,
            Field::AbsoluteHumidity,
            FieldValue::AbsoluteHumidity {
                temperature_millicelsius: MISSING_PREREQUISITE_SENTINEL,
                humidity_ppm: h as i64,
            },
        ),
        None => field_presence(m, Field::AbsoluteHumidity, any),
    }
}

} // verus!
