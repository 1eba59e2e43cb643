//! Thermal sensing protocol.

use vstd::prelude::*;

verus! {

/// Get thermal status. Reply: temperature in tenths of a kelvin.
pub const GET_TEMPERATURE: usize = 0x01;

/// Get the number of thermal zones. Reply: the count.
pub const GET_ZONE_COUNT: usize = 0x02;

/// Get zone information. Reply: the serialized record in the inline
/// buffer.
pub const GET_ZONE_INFO: usize = 0x03;

/// What a thermal zone measures.
#[derive(Debug, Clone)]
pub enum ThermalType {
    /// A processor zone.
    Cpu,
    /// A graphics zone.
    Gpu,
    /// A mainboard zone.
    Board,
    /// Another zone kind, named freely.
    Other(String),
}

/// What a trip point triggers when crossed.
#[derive(Debug, Clone)]
pub enum TripType {
    /// Passive cooling.
    Passive,
    /// Active cooling.
    Active,
    /// Hot: urgent throttling.
    Hot,
    /// Critical: shut down.
    Critical,
}

/// One trip point of a thermal zone.
#[derive(Debug, Clone)]
pub struct ThermalTrip {
    /// Trip temperature in tenths of a kelvin.
    pub temp: u32,
    /// Hysteresis in tenths of a kelvin.
    pub hysteresis: u32,
    /// What crossing this trip triggers.
    pub trip_type: TripType,
}

/// One thermal zone as reported by a sensor driver.
#[derive(Debug, Clone)]
pub struct ThermalZoneInfo {
    /// Zone name.
    pub name: String,
    /// What the zone measures.
    pub thermal_type: ThermalType,
    /// The trip points of the zone.
    pub trips: Vec<ThermalTrip>,
    /// Identifier within the reporting driver.
    pub sensor_id: usize,
    /// Logic device id of the reporting driver.
    pub driver_logic_id: usize,
}

/// All thermal zones of the system.
#[derive(Debug, Clone)]
pub struct ThermalZones {
    /// The zones.
    pub zones: Vec<ThermalZoneInfo>,
}

impl Default for ThermalZones {
    /// No zones.
    fn default() -> (r: ThermalZones)
        ensures
            r.zones@.len() == 0,
    {
        ThermalZones { zones: Vec::new() }
    }
}

} // verus!
