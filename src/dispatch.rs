use crate::alias::AliasTable;
use crate::measurement::Measurement;
use crate::readings::DecodeError;
use vstd::prelude::*;

verus! {

/// Kinds of event that the wireless adapter reports.
#[derive(Clone, Copy, Debug, PartialEq, Eq, Structural)]
pub enum BroadcastEvent {
    DeviceDiscovered,
    DeviceUpdated,
    DeviceConnected,
    DeviceDisconnected,
    ManufacturerDataAdvertisement,
    ServiceDataAdvertisement,
    ServicesAdvertisement,
    StateUpdate,
}

/// Read-only configuration of the pipeline.
#[derive(Clone, Debug)]
pub struct Config {
    /// Name of the series the points are written to.
    pub series: String,
    pub aliases: AliasTable,
    pub keep_mac_colons: bool,
    /// Report decode errors.
    pub verbose: bool,
    /// Accepted format versions; empty accepts all.
    pub data_format_versions: Vec<u8>,
}

/// What the dispatch loop does next.
#[derive(Clone, Copy, Debug, PartialEq, Eq)]
pub enum Action {
    /// Nothing: wait for the next event.
    Ignore,
    /// Ask the adapter for the device's properties and measure them.
    QueryProperties,
    /// Report the error, then wait for the next event.
    ReportError(DecodeError),
    /// Drop the measurement, its format is not accepted.
    Discard,
    /// Build the point and hand it to the sink without waiting.
    Dispatch(Measurement),
}

/// Only discoveries and updates of a device lead to a property query; any
/// other event leaves the loop idle.
pub fn on_event(event: BroadcastEvent) -> (r: Action)
    ensures
        r == (if event is DeviceDiscovered || event is DeviceUpdated {
            Action::QueryProperties
        } else {
            Action::Ignore
        }),
{
    match event {
        BroadcastEvent::DeviceDiscovered => Action::QueryProperties,
        BroadcastEvent::DeviceUpdated => Action::QueryProperties,
        _ => Action::Ignore,
    }
}

/// A measurement of format `version` passes the allowlist.
pub open spec fn format_accepted(allowlist: Seq<u8>, version: Option<u8>) -> bool {
    allowlist.len() == 0 || (version is Some && allowlist.contains(version->Some_0))
}

/// Tests a format version against the allowlist; an empty list accepts all.
pub fn accepts_format(allowlist: &Vec<u8>, version: Option<u8>) -> (r: bool)
    ensures
        r == format_accepted(allowlist@, version),
{
    if allowlist.len() == 0 {
        return true;
    }
    match version {
        None => false,
        Some(v) => {
            let mut i: usize = 0;
            while i < allowlist.len()
                invariant
                    i <= allowlist@.len(),
                    version == Some(v),
                    forall|j: int| 0 <= j < i ==> allowlist@[j] != v,
                decreases allowlist.len() - i,
            {
                if allowlist[i] == v {
                    assert(allowlist@[i as int] == v);
                    assert(allowlist@.contains(v));
                    return true;
                }
                i = i + 1;
            }
            false
        },
    }
}

/// The step after measuring a device: no outcome and unreported errors leave
/// the loop idle, a measurement is dispatched if its format is accepted and
/// discarded otherwise.
pub fn on_outcome(config: &Config, outcome: Option<Result<Measurement, DecodeError>>) -> (r:
    Action)
    ensures
        r == match outcome {
            None => Action::Ignore,
            Some(Err(e)) => if config.verbose {
                Action::ReportError(e)
            } else {
                Action::Ignore
            },
            Some(Ok(m)) => if format_accepted(
                config.data_format_versions@,
                m.sensor_values.format_version,
            ) {
                Action::Dispatch(m)
            } else {
                Action::Discard
            },
        },
{
    match outcome {
        None => Action::Ignore,
        Some(Err(e)) => if config.verbose {
            Action::ReportError(e)
        } else {
            Action::Ignore
        },
        Some(Ok(m)) => if accepts_format(&config.data_format_versions, m.sensor_values.format_version) {
            Action::Dispatch(m)
        } else {
            Action::Discard
        },
    }
}

} // verus!
