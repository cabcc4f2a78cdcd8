//! Point-in-time device metrics.

use vstd::prelude::*;

verus! {

/// Real-time metrics of one GPU device.
///
/// Every field is read independently by the provider; a failed read
/// degrades the single field to zero (or to absent, for the fan speed)
/// instead of discarding the whole snapshot.
#[derive(Clone, Copy)]
pub struct GpuMetrics {
    /// GPU utilization percentage (0-100).
    pub gpu_utilization: u32,
    /// Memory utilization percentage (0-100).
    pub memory_utilization: u32,
    /// Encoder utilization percentage (0-100).
    pub encoder_utilization: u32,
    /// Decoder utilization percentage (0-100).
    pub decoder_utilization: u32,
    /// Current temperature in Celsius.
    pub temperature: u32,
    /// Current power usage in milliwatts.
    pub power_usage: u32,
    /// Fan speed percentage (0-100), `None` if not available.
    pub fan_speed: Option<u32>,
    /// Current graphics clock in MHz.
    pub clock_graphics: u32,
    /// Current memory clock in MHz.
    pub clock_memory: u32,
    /// Current SM clock in MHz.
    pub clock_sm: u32,
}

impl DeepView for GpuMetrics {
    type V = GpuMetrics;

    open spec fn deep_view(&self) -> GpuMetrics {
        *self
    }
}

/// The temperature band a reading falls into.
pub open spec fn temperature_status_of(temperature: u32) -> TemperatureStatus {
    if temperature <= 50 {
        TemperatureStatus::Cool
    } else if temperature <= 70 {
        TemperatureStatus::Normal
    } else if temperature <= 85 {
        TemperatureStatus::Warm
    } else {
        TemperatureStatus::Hot
    }
}

impl GpuMetrics {
    /// Whether the GPU is idle (less than 5% utilization).
    pub fn is_idle(&self) -> (r: bool)
        ensures
            r == (self.gpu_utilization < 5),
    {
        self.gpu_utilization < 5
    }

    /// Whether the GPU is under heavy load (more than 80% utilization).
    pub fn is_heavy_load(&self) -> (r: bool)
        ensures
            r == (self.gpu_utilization > 80),
    {
        self.gpu_utilization > 80
    }

    /// The temperature band of the current reading.
    pub fn temperature_status(&self) -> (r: TemperatureStatus)
        ensures
            r == temperature_status_of(self.temperature),
    {
        if self.temperature <= 50 {
            TemperatureStatus::Cool
        } else if self.temperature <= 70 {
            TemperatureStatus::Normal
        } else if self.temperature <= 85 {
            TemperatureStatus::Warm
        } else {
            TemperatureStatus::Hot
        }
    }
}

/// Temperature bands used for the cosmetic color hint.
#[derive(Clone, Copy, Debug, PartialEq, Eq, Structural)]
pub enum TemperatureStatus {
    /// At or below 50 degrees Celsius.
    Cool,
    /// 51-70 degrees Celsius.
    Normal,
    /// 71-85 degrees Celsius.
    Warm,
    /// Above 85 degrees Celsius.
    Hot,
}

impl TemperatureStatus {
    /// Color hint for the UI (CSS color name).
    pub fn color(&self) -> (r: &'static str)
        ensures
            self is Cool ==> r@ == "green"@,
            self is Normal ==> r@ == "blue"@,
            self is Warm ==> r@ == "orange"@,
            self is Hot ==> r@ == "red"@,
    {
        match self {
            TemperatureStatus::Cool => "green",
            TemperatureStatus::Normal => "blue",
            TemperatureStatus::Warm => "orange",
            TemperatureStatus::Hot => "red",
        }
    }
}

} // verus!
