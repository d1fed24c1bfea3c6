use vstd::prelude::*;

verus! {

/// One snapshot of GPU telemetry, read by the surrounding program and
/// passed through for display.
#[derive(Debug, Clone)]
pub struct GpuStats {
    pub vram_used_mb: u64,
    pub vram_total_mb: u64,
    pub gpu_usage_percent: u8,
    pub temperature_c: Option<u8>,
    pub gpu_name: Option<String>,
}

impl Default for GpuStats {
    fn default() -> (s: GpuStats)
        ensures
            s.vram_used_mb == 0,
            s.vram_total_mb == 0,
            s.gpu_usage_percent == 0,
            s.temperature_c is None,
            s.gpu_name is None,
    {
        GpuStats {
            vram_used_mb: 0,
            vram_total_mb: 0,
            gpu_usage_percent: 0,
            temperature_c: None,
            gpu_name: None,
        }
    }
}

} // verus!
