//! Sensors and the power and thermal views assembled from them.
//!
//! A reading's type is a parameter `R`: the library moves readings into place and never
//! computes with them.
use vstd::prelude::*;

verus! {

/// A Sensor resource.
#[derive(Clone, Debug)]
pub struct Sensor<R> {
    pub odata_id: String,
    pub id: Option<String>,
    pub name: Option<String>,
    pub reading: Option<R>,
    pub reading_range_max: Option<R>,
    pub reading_units: Option<String>,
}

/// A power supply record.
#[derive(Clone, Debug)]
pub struct PowerSupply<R> {
    pub odata_id: Option<String>,
    pub id: Option<String>,
    pub name: Option<String>,
    pub last_power_output_watts: Option<R>,
    pub power_output_watts: Option<R>,
    pub power_capacity_watts: Option<R>,
    pub power_output_amps: Option<R>,
}

/// A voltage record.
#[derive(Clone, Debug)]
pub struct Voltages<R> {
    pub odata_id: String,
    pub name: Option<String>,
    pub reading_volts: Option<R>,
    pub upper_threshold_critical: Option<R>,
}

/// Power supplies and voltages.
#[derive(Clone, Debug)]
pub struct Power<R> {
    pub id: String,
    pub name: String,
    pub power_supplies: Option<Vec<PowerSupply<R>>>,
    pub voltages: Option<Vec<Voltages<R>>>,
}

/// A temperature record.
#[derive(Clone, Debug)]
pub struct Temperature<R> {
    pub name: Option<String>,
    pub reading_celsius: Option<R>,
    pub upper_threshold_critical: Option<R>,
}

/// One entry of `ThermalMetrics.TemperatureReadingsCelsius`.
#[derive(Clone, Debug)]
pub struct TemperatureReading<R> {
    pub data_source_uri: Option<String>,
    pub device_name: Option<String>,
    pub reading: Option<R>,
}

/// A fan.
#[derive(Clone, Debug)]
pub struct Fan<R> {
    pub odata_id: String,
    pub name: Option<String>,
    pub reading: Option<R>,
    pub reading_units: Option<String>,
}

/// A leak detector.
#[derive(Clone, Debug)]
pub struct LeakDetector {
    pub odata_id: String,
    pub name: Option<String>,
    pub detector_state: Option<String>,
}

/// Temperatures, fans and leak detectors.
#[derive(Clone, Debug)]
pub struct Thermal<R> {
    pub temperatures: Vec<Temperature<R>>,
    pub fans: Vec<Fan<R>>,
    pub leak_detectors: Option<Vec<LeakDetector>>,
}

impl<R> Voltages<R> {
    /// A voltage record read from a sensor: its id, name, reading and range maximum.
    pub fn from_sensor(t: Sensor<R>) -> (v: Voltages<R>)
        ensures
            v.odata_id == t.odata_id,
            v.name == t.name,
            v.reading_volts == t.reading,
            v.upper_threshold_critical == t.reading_range_max,
    {
        Voltages {
            odata_id: t.odata_id,
            name: t.name,
            reading_volts: t.reading,
            upper_threshold_critical: t.reading_range_max,
        }
    }
}

impl<R> Temperature<R> {
    /// A temperature record read from a sensor: its name, reading and range maximum.
    pub fn from_sensor(t: Sensor<R>) -> (v: Temperature<R>)
        ensures
            v.name == t.name,
            v.reading_celsius == t.reading,
            v.upper_threshold_critical == t.reading_range_max,
    {
        Temperature { name: t.name, reading_celsius: t.reading, upper_threshold_critical: t.reading_range_max }
    }

    /// A temperature record read from a ThermalMetrics entry: its device name and reading.
    pub fn from_reading(t: TemperatureReading<R>) -> (v: Temperature<R>)
        ensures
            v.name == t.device_name,
            v.reading_celsius == t.reading,
            v.upper_threshold_critical is None,
    {
        Temperature { name: t.device_name, reading_celsius: t.reading, upper_threshold_critical: None }
    }
}

} // verus!
