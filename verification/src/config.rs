use vstd::prelude::*;

verus! {

/// Refresh cadence used when the configuration names none, in milliseconds.
pub fn default_refresh_interval() -> (r: u64)
    ensures
        r == 1000,
{
    1000
}

/// Every monitor toggle defaults to enabled.
pub fn default_true() -> (r: bool)
    ensures
        r,
{
    true
}

/// Five independent booleans, one per monitor category. A toggle gates the
/// whole monitor's refresh; there is no partial enablement.
#[derive(Debug, Clone)]
pub struct MonitorToggles {
    pub cpu_usage: bool,
    pub cpu_temperature: bool,
    pub gpu_temperature: bool,
    pub memory: bool,
    pub network: bool,
}

/// Caller-owned configuration: the tick interval and the per-monitor toggles.
#[derive(Debug, Clone)]
pub struct Config {
    pub refresh_interval_ms: u64,
    pub monitors: MonitorToggles,
}

impl Default for MonitorToggles {
    fn default() -> (t: Self)
        ensures
            t.cpu_usage,
            t.cpu_temperature,
            t.gpu_temperature,
            t.memory,
            t.network,
    {
        Self {
            cpu_usage: true,
            cpu_temperature: true,
            gpu_temperature: true,
            memory: true,
            network: true,
        }
    }
}

impl Default for Config {
    fn default() -> (c: Self)
        ensures
            c.refresh_interval_ms == 1000,
            c.monitors.cpu_usage,
            c.monitors.cpu_temperature,
            c.monitors.gpu_temperature,
            c.monitors.memory,
            c.monitors.network,
    {
        Self { refresh_interval_ms: default_refresh_interval(), monitors: MonitorToggles::default() }
    }
}

} // verus!
