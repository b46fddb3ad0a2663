//! The decoded content of one telegram, reduced to the fields the metric
//! families read.
//!
//! Every field is optional: the device protocol permits partial readouts,
//! and a missing field only means the affected metric family is skipped
//! for this cycle. A state whose sequences carry fewer slots than a
//! family reads counts the missing slots as absent fields.

use vstd::prelude::*;
use crate::reading::Reading;
use crate::timestamp::DeviceTimestamp;

verus! {

/// The sub-meter device-type code that identifies a gas meter.
pub const GAS_DEVICE_TYPE: u64 = 3;

/// One tariff-indexed cumulative meter reading.
#[derive(Clone, Copy, Debug)]
pub struct MeterReading {
    /// Cumulative energy taken from the grid under this tariff.
    pub to: Option<Reading>,
}

/// Measurements of one electrical phase.
#[derive(Clone, Copy, Debug)]
pub struct PhaseLine {
    pub voltage: Option<Reading>,
    pub active_power_plus: Option<Reading>,
}

/// One sub-meter ("slave") device record reported through the primary
/// meter's telegram.
#[derive(Clone, Copy, Debug)]
pub struct SlaveMeter {
    pub device_type: Option<u64>,
    pub meter_reading: Option<(DeviceTimestamp, Reading)>,
}

/// A decoded snapshot of one telegram.
#[derive(Debug)]
pub struct ReadoutState {
    pub datetime: Option<DeviceTimestamp>,
    /// Tariff-indexed cumulative readings, tariff 1 first.
    pub meterreadings: Vec<MeterReading>,
    /// Per-phase line measurements, phase 1 first.
    pub lines: Vec<PhaseLine>,
    /// Instantaneous total power delivered.
    pub power_delivered: Option<Reading>,
    /// Sub-meter records; the gas meter is expected in the first slot.
    pub slaves: Vec<SlaveMeter>,
}

} // verus!
