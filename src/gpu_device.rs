use vstd::prelude::*;

verus! {

/// Default interval between two telemetry samples of a device, in ms.
pub const DEFAULT_DATA_UPDATE_INTERVAL_MS: u64 = 1000;

/// Default interval between two fan updates of a device, in ms.
pub const DEFAULT_FAN_UPDATE_INTERVAL_MS: u64 = 3000;

/// Temperature used for a curve when the sensor cannot be read, so that
/// the fans do not stall.
pub const SAFE_HIGH_TEMP: i32 = 110;

/// Vendor-specific tuning parameters.
#[derive(Debug, Clone, Copy, PartialEq, Eq, Structural)]
pub struct NvidiaConfig {
    pub core_clock_offset: Option<i32>,
    pub mem_clock_offset: Option<i32>,
}

/// Non-fan tuning parameters; a missing field leaves the device unchanged.
#[derive(Debug, Clone, Copy, PartialEq, Eq, Structural)]
pub struct GpuConfig {
    pub nvidia_config: NvidiaConfig,
    /// Power limit, in the driver's unit (milliwatts for Nvidia).
    pub power_limit: Option<u32>,
}

impl View for GpuConfig {
    type V = GpuConfig;

    open spec fn view(&self) -> GpuConfig {
        *self
    }
}

impl GpuConfig {
    /// A configuration that changes nothing.
    pub fn empty() -> (r: GpuConfig)
        ensures
            r.power_limit is None,
            r.nvidia_config.core_clock_offset is None,
            r.nvidia_config.mem_clock_offset is None,
    {
        GpuConfig {
            nvidia_config: NvidiaConfig { core_clock_offset: None, mem_clock_offset: None },
            power_limit: None,
        }
    }
}

/// A vendor slot for configurations; only the Nvidia one has behaviour.
#[derive(Debug, Clone, Copy, PartialEq, Eq, Structural)]
pub enum VendorConfig {
    Nvidia { core_clock_offset: u32, mem_clock_offset: u32 },
    AMD {  },
    Intel {  },
}

/// Vendor-specific static information.
#[derive(Debug, Clone)]
pub enum GpuVendorInfo {
    Nvidia {
        driver_version: String,
        vbios: String,
        cuda_core_count: u32,
        max_temp: Option<u32>,
        mem_max_temp: Option<u32>,
        slowdown_temp: Option<u32>,
        shutdown_temp: Option<u32>,
    },
    AMD {  },
}

/// Static information of a device, read once.
#[derive(Debug, Clone)]
pub struct GpuInfo {
    pub uuid: String,
    pub name: String,
    pub pcie_width: u32,
    pub pcie_gen: u32,
    pub power_limit_max: u32,
    pub power_limit_min: u32,
    pub power_limit_default: u32,
}

/// Vendor-specific telemetry; a reading the driver does not support is
/// `None`.
#[derive(Debug, Clone, Copy, PartialEq, Eq, Structural)]
pub enum GpuVendorData {
    Nvidia {
        sm_freq: Option<u32>,
        video_freq: Option<u32>,
        graphics_boost_freq: Option<u32>,
        mem_boost_freq: Option<u32>,
        sm_boost_freq: Option<u32>,
        video_boost_freq: Option<u32>,
    },
    AMD {  },
}

/// A telemetry sample of a device.
#[derive(Debug, Clone, Copy, PartialEq, Eq, Structural)]
pub struct GpuData {
    pub temp_gpu: u32,
    pub graphics_freq: u32,
    pub mem_freq: u32,
    pub core_clock_offset: i32,
    pub mem_clock_offset: i32,
    pub power_usage: u32,
    pub power_limit: u32,
    pub fan_speed: u32,
    pub fan_speed_rpm: u32,
    pub core_usage: u32,
    pub mem_usage: u32,
    pub total_memory: u64,
    pub used_memory: u64,
    pub free_memory: u64,
}

/// The vendor of a device.
#[derive(Debug, Clone, Copy, PartialEq, Eq, Structural)]
pub enum GpuVendor {
    Nvidia,
    AMD,
}

/// A failure of a device operation.
#[derive(Debug, Clone)]
pub enum DeviceError {
    Initialization { reason: String },
    DeviceAcquisition { reason: String },
    DeviceQuery { reason: String },
    DeviceFanError { reason: String },
}

/// The fan-control policy written to the driver.
#[derive(Debug, Clone, Copy, PartialEq, Eq, Structural)]
pub enum FanPolicy {
    /// The driver controls the fans from the temperature.
    TemperatureContinuous,
    /// The fans run at the speed written to them.
    Manual,
}

} // verus!
