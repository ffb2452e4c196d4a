use vstd::prelude::*;

verus! {

/// Instantaneous aggregate CPU utilization, in hundredths of a percent.
/// Fully replaced on every enabled tick; no windowed state. The value is the
/// source's reading unmodified — in particular it is never clamped to
/// [0, 100_00], since multi-core normalization can push it past 100%.
#[derive(Debug, Clone)]
pub struct CpuStats {
    pub usage_centi: u64,
}

impl CpuStats {
    /// Zero baseline at startup; the first enabled tick replaces it.
    pub fn new() -> (s: Self)
        ensures
            s.usage_centi == 0,
    {
        Self { usage_centi: 0 }
    }

    /// Pass-through: store the reading exactly as reported.
    pub fn update(&mut self, usage_centi: u64)
        ensures
            final(self).usage_centi == usage_centi,
    {
        self.usage_centi = usage_centi;
    }

    /// Latest reading, in hundredths of a percent.
    pub fn usage_centi(&self) -> (u: u64)
        ensures
            u == self.usage_centi,
    {
        self.usage_centi
    }
}

} // verus!
