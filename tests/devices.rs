use mossd::devices_manager::{
    fan_mode_from_policy, fan_policy_for, gpu_config_writes, DeviceState, DevicesManager, DevicesManagerError,
    DriverWrite,
};
use mossd::fan_curve::FanMode;
use mossd::gpu_device::{DeviceError, FanPolicy, GpuConfig, GpuData, GpuInfo, GpuVendorData, GpuVendorInfo, NvidiaConfig};
use mossd::hysteresis_curve::HysteresisCurve;
use mossd::linear_curve::LinearCurve;

fn info(uuid: &str) -> GpuInfo {
    GpuInfo {
        uuid: uuid.to_string(),
        name: "Test GPU".to_string(),
        pcie_width: 16,
        pcie_gen: 4,
        power_limit_max: 300000,
        power_limit_min: 100000,
        power_limit_default: 250000,
    }
}

fn data(temp: u32) -> GpuData {
    GpuData {
        temp_gpu: temp,
        graphics_freq: 1500,
        mem_freq: 7000,
        core_clock_offset: 0,
        mem_clock_offset: 0,
        power_usage: 90000,
        power_limit: 250000,
        fan_speed: 40,
        fan_speed_rpm: 1200,
        core_usage: 10,
        mem_usage: 5,
        total_memory: 8,
        used_memory: 2,
        free_memory: 6,
    }
}

fn vendor_data() -> GpuVendorData {
    GpuVendorData::Nvidia {
        sm_freq: Some(1500),
        video_freq: None,
        graphics_boost_freq: None,
        mem_boost_freq: None,
        sm_boost_freq: None,
        video_boost_freq: None,
    }
}

fn vendor_info() -> GpuVendorInfo {
    GpuVendorInfo::Nvidia {
        driver_version: "550".to_string(),
        vbios: "1.0".to_string(),
        cuda_core_count: 4096,
        max_temp: Some(93),
        mem_max_temp: None,
        slowdown_temp: Some(90),
        shutdown_temp: Some(98),
    }
}

fn device(uuid: &str, mode: FanMode, now: u64) -> DeviceState {
    DeviceState::new(uuid.to_string(), info(uuid), vendor_info(), data(40), vendor_data(), mode, now)
}

fn manager() -> DevicesManager {
    let mut m = DevicesManager::new();
    m.add_device(device("GPU-A", FanMode::Auto, 0));
    m.add_device(device("GPU-B", FanMode::Curve, 0));
    m
}

fn s(v: &str) -> String {
    v.to_string()
}

#[test]
fn devices_are_listed_once() {
    let mut m = manager();
    m.add_device(device("GPU-A", FanMode::Manual(20), 5));
    assert_eq!(m.list_devices(), vec![s("GPU-A"), s("GPU-B")]);
    assert_eq!(m.get_device(&s("GPU-A")).unwrap().fan_mode, FanMode::Manual(20));
    assert!(matches!(m.get_device(&s("GPU-Z")), Err(DevicesManagerError::InvalidDevice { .. })));
}

#[test]
fn fan_update_by_mode() {
    let mut m = manager();
    assert_eq!(m.fan_command(&s("GPU-A"), Some(50)).unwrap(), None);
    assert_eq!(m.fan_command(&s("GPU-B"), Some(50)).unwrap(), Some(100));
    assert!(m.set_fan_mode(&s("GPU-A"), FanMode::Manual(150), Ok(())).is_ok());
    assert_eq!(m.fan_command(&s("GPU-A"), None).unwrap(), Some(100));
    assert!(matches!(m.fan_command(&s("GPU-Z"), None), Err(DevicesManagerError::InvalidDevice { .. })));
}

#[test]
fn curve_reads_safe_high_without_sensor() {
    let mut m = manager();
    let curve = HysteresisCurve::<LinearCurve>::new(&[(40, 20), (110, 90)], 0, 0);
    assert!(m.set_fan_curve(&s("GPU-B"), curve).is_ok());
    assert_eq!(m.fan_command(&s("GPU-B"), None).unwrap(), Some(90));
    assert_eq!(m.fan_command(&s("GPU-B"), Some(40)).unwrap(), Some(20));
    assert_eq!(m.fan_command(&s("GPU-B"), Some(75)).unwrap(), Some(55));
    assert_eq!(m.fan_command(&s("GPU-B"), Some(u32::MAX)).unwrap(), Some(90));
}

#[test]
fn failed_policy_write_keeps_mode() {
    let mut m = manager();
    let r = m.set_fan_mode(&s("GPU-A"), FanMode::Curve, Err(DeviceError::DeviceFanError { reason: s("denied") }));
    assert!(matches!(r, Err(DevicesManagerError::Device(DeviceError::DeviceFanError { .. }))));
    assert_eq!(m.get_device(&s("GPU-A")).unwrap().fan_mode, FanMode::Auto);
    let r = m.set_fan_mode(&s("GPU-Z"), FanMode::Curve, Ok(()));
    assert!(matches!(r, Err(DevicesManagerError::InvalidDevice { .. })));
}

#[test]
fn policies_follow_modes() {
    assert_eq!(fan_policy_for(FanMode::Auto), FanPolicy::TemperatureContinuous);
    assert_eq!(fan_policy_for(FanMode::Curve), FanPolicy::Manual);
    assert_eq!(fan_policy_for(FanMode::Manual(10)), FanPolicy::Manual);
    assert_eq!(fan_mode_from_policy(FanPolicy::TemperatureContinuous), FanMode::Auto);
    assert_eq!(fan_mode_from_policy(FanPolicy::Manual), FanMode::Curve);
}

#[test]
fn scheduler_picks_earliest_deadline() {
    let mut m = manager();
    assert!(m.set_fan_update_interval(&s("GPU-A"), 5000).is_ok());
    assert!(m.set_fan_update_interval(&s("GPU-B"), 2000).is_ok());
    assert_eq!(m.schedule_fan_update(500), Some((s("GPU-B"), 1500)));
    assert!(m.fan_updated(&s("GPU-B"), 2000).is_ok());
    assert_eq!(m.schedule_fan_update(2000), Some((s("GPU-B"), 2000)));
    assert_eq!(m.schedule_fan_update(3500), Some((s("GPU-B"), 500)));
    assert_eq!(m.schedule_fan_update(4500), Some((s("GPU-B"), 0)));
    assert_eq!(m.schedule_fan_update(9000), Some((s("GPU-A"), 0)));
    assert!(matches!(m.set_fan_update_interval(&s("GPU-Z"), 1), Err(DevicesManagerError::InvalidDevice { .. })));
}

#[test]
fn scheduler_ties_and_empty() {
    let m = manager();
    assert_eq!(m.schedule_fan_update(1000), Some((s("GPU-A"), 2000)));
    assert_eq!(DevicesManager::new().schedule_fan_update(0), None);
}

#[test]
fn samples_refresh_after_interval() {
    let mut m = manager();
    assert_eq!(m.data_is_stale(&s("GPU-A"), 500).unwrap(), false);
    assert_eq!(m.data_is_stale(&s("GPU-A"), 1000).unwrap(), true);
    assert!(m.store_data(&s("GPU-A"), data(70), vendor_data(), 1000).is_ok());
    assert_eq!(m.get_device(&s("GPU-A")).unwrap().data.temp_gpu, 70);
    assert_eq!(m.data_is_stale(&s("GPU-A"), 1500).unwrap(), false);
    assert!(m.set_data_update_interval(&s("GPU-A"), 100).is_ok());
    assert_eq!(m.data_is_stale(&s("GPU-A"), 1100).unwrap(), true);
    assert!(m.data_is_stale(&s("GPU-Z"), 0).is_err());
}

#[test]
fn config_writes_only_present_fields() {
    let full = GpuConfig { nvidia_config: NvidiaConfig { core_clock_offset: Some(-20), mem_clock_offset: Some(500) }, power_limit: Some(200000) };
    assert_eq!(gpu_config_writes(&full), vec![
        DriverWrite::PowerLimit(200000),
        DriverWrite::CoreClockOffset(-20),
        DriverWrite::MemClockOffset(500),
    ]);
    let partial = GpuConfig { nvidia_config: NvidiaConfig { core_clock_offset: None, mem_clock_offset: Some(5) }, power_limit: None };
    assert_eq!(gpu_config_writes(&partial), vec![DriverWrite::MemClockOffset(5)]);
    assert!(gpu_config_writes(&GpuConfig::empty()).is_empty());
}

#[test]
fn shutdown_restores_every_device() {
    let mut m = manager();
    assert!(m.set_fan_mode(&s("GPU-B"), FanMode::Manual(60), Ok(())).is_ok());
    let plan = m.shutdown_plan();
    assert_eq!(plan.len(), 2);
    for (uuid, config) in plan.iter() {
        assert!(uuid == "GPU-A" || uuid == "GPU-B");
        assert_eq!(config.nvidia_config.core_clock_offset, Some(0));
        assert_eq!(config.nvidia_config.mem_clock_offset, Some(0));
        assert_eq!(config.power_limit, Some(250000));
    }
    m.finish_shutdown(&vec![true, true]);
    assert_eq!(m.get_device(&s("GPU-A")).unwrap().fan_mode, FanMode::Auto);
    assert_eq!(m.get_device(&s("GPU-B")).unwrap().fan_mode, FanMode::Auto);
}

#[test]
fn shutdown_keeps_refused_devices() {
    let mut m = manager();
    m.finish_shutdown(&vec![true, false]);
    assert_eq!(m.get_device(&s("GPU-B")).unwrap().fan_mode, FanMode::Curve);
}
