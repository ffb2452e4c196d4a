use vstd::prelude::*;

verus! {

/// Cumulative byte counters for one network interface, as the sensor source
/// reports them. `name` is the interface name as raw bytes; counters are
/// running totals since interface initialization, intended to be monotone but
/// not guaranteed so (resets and wraparound happen).
#[derive(Debug, Clone)]
pub struct IfaceCounters {
    pub name: Vec<u8>,
    pub rx_bytes: u64,
    pub tx_bytes: u64,
}

/// One hardware sensor: a free-form label (raw bytes, any casing) and an
/// optional reading in millidegrees Celsius. A sensor that reports no value
/// is present but unusable; absence is distinct from zero degrees.
#[derive(Debug, Clone)]
pub struct Sensor {
    pub label: Vec<u8>,
    pub temp_millic: Option<i64>,
}

/// One refresh of the host's telemetry, handed in by the caller each tick.
/// CPU utilization is in hundredths of a percent (it may exceed 100_00 on
/// some platforms and is passed through unclamped); memory is in bytes;
/// interfaces and sensors come in source iteration order, which is the only
/// ordering the monitors ever rely on.
#[derive(Debug, Clone)]
pub struct SensorSnapshot {
    pub cpu_usage_centi: u64,
    pub memory_used_bytes: u64,
    pub memory_total_bytes: u64,
    pub interfaces: Vec<IfaceCounters>,
    pub sensors: Vec<Sensor>,
}

} // verus!
