use vstd::prelude::*;

verus! {

/// Current physical memory usage in bytes, used and total in the same unit so
/// the used/total ratio stays exact. Fully replaced on every enabled tick.
/// Display-unit conversion (binary gigabytes) is the presentation layer's job.
#[derive(Debug, Clone)]
pub struct MemoryStats {
    pub used_bytes: u64,
    pub total_bytes: u64,
}

impl MemoryStats {
    /// Zero baseline at startup; the first enabled tick replaces it.
    pub fn new() -> (s: Self)
        ensures
            s.used_bytes == 0,
            s.total_bytes == 0,
    {
        Self { used_bytes: 0, total_bytes: 0 }
    }

    /// Pass-through: store both readings exactly as reported.
    pub fn update(&mut self, used_bytes: u64, total_bytes: u64)
        ensures
            final(self).used_bytes == used_bytes,
            final(self).total_bytes == total_bytes,
    {
        self.used_bytes = used_bytes;
        self.total_bytes = total_bytes;
    }

    /// Latest used-memory reading, in bytes.
    pub fn used_bytes(&self) -> (b: u64)
        ensures
            b == self.used_bytes,
    {
        self.used_bytes
    }

    /// Latest total-memory reading, in bytes.
    pub fn total_bytes(&self) -> (b: u64)
        ensures
            b == self.total_bytes,
    {
        self.total_bytes
    }
}

} // verus!
