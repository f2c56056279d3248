use mossd::arg_parser::ArgsOptions;
use mossd::config_manager::ConfigMessageAnswer;
use mossd::dbus_service::{DBusService, DBusServiceAnswer, DBusServiceMessage};
use mossd::devices_manager::{DevicesManagerAnswer, DevicesManagerMessage};
use mossd::fan_curve::{FanCurve, FanCurveInfo, FanMode};
use mossd::gpu_device::{GpuConfig, GpuVendorInfo};
use mossd::state_manager::{
    dbus_answer, dbus_request, expect_config, expect_device_list, expect_fan_curve, expect_fan_mode,
    expect_fan_update_interval, startup_commands, StateManagerError,
};

fn kinds(cmds: &[DevicesManagerMessage]) -> Vec<&'static str> {
    cmds.iter()
        .map(|c| match c {
            DevicesManagerMessage::SetDeviceFanCurve { .. } => "curve",
            DevicesManagerMessage::SetDeviceFanUpdateInterval { .. } => "interval",
            DevicesManagerMessage::SetDeviceFanMode { .. } => "mode",
            DevicesManagerMessage::ApplyDeviceGpuConfig { .. } => "config",
            _ => "other",
        })
        .collect()
}

#[test]
fn startup_sends_curve_before_mode() {
    let info = FanCurveInfo { points: vec![(30, 20), (80, 100)], lower_threshold: Some(2), upper_threshold: Some(3) };
    let cmds = startup_commands(&"GPU-1".to_string(), Some(info), Some(2000), FanMode::Curve, Some(GpuConfig::empty()));
    assert_eq!(kinds(&cmds), vec!["curve", "interval", "mode", "config"]);
    match &cmds[0] {
        DevicesManagerMessage::SetDeviceFanCurve { uuid, fan_curve } => {
            assert_eq!(uuid, "GPU-1");
            assert_eq!(fan_curve.lower_threshold, 2);
            assert_eq!(fan_curve.upper_threshold, 3);
            assert_eq!(fan_curve.points_num(), 2);
        }
        _ => panic!("first command is not the curve"),
    }
    match &cmds[2] {
        DevicesManagerMessage::SetDeviceFanMode { uuid, fan_mode } => {
            assert_eq!(uuid, "GPU-1");
            assert_eq!(*fan_mode, FanMode::Curve);
        }
        _ => panic!("third command is not the mode"),
    }
}

#[test]
fn startup_skips_missing_settings() {
    let cmds = startup_commands(&"GPU-1".to_string(), None, None, FanMode::Auto, None);
    assert_eq!(kinds(&cmds), vec!["mode"]);
    let cmds = startup_commands(&"GPU-1".to_string(), None, Some(1000), FanMode::Manual(40), None);
    assert_eq!(kinds(&cmds), vec!["interval", "mode"]);
}

#[test]
fn unexpected_answers_are_invalid() {
    assert!(matches!(expect_device_list(DevicesManagerAnswer::DeviceData(None)), Err(StateManagerError::InvalidResponse { .. })));
    assert_eq!(expect_device_list(DevicesManagerAnswer::DeviceList(vec!["a".to_string()])).unwrap(), vec!["a".to_string()]);
    assert!(matches!(expect_fan_mode(ConfigMessageAnswer::Config(None)), Err(StateManagerError::InvalidResponse { .. })));
    assert_eq!(expect_fan_mode(ConfigMessageAnswer::FanMode(FanMode::Curve)).unwrap(), FanMode::Curve);
    assert!(matches!(expect_fan_curve(ConfigMessageAnswer::FanMode(FanMode::Auto)), Err(StateManagerError::InvalidResponse { .. })));
    assert!(expect_fan_curve(ConfigMessageAnswer::FanCurve(None)).unwrap().is_none());
    assert_eq!(expect_fan_update_interval(ConfigMessageAnswer::FanUpdateInterval(Some(7))).unwrap(), Some(7));
    assert!(matches!(expect_fan_update_interval(ConfigMessageAnswer::FanCurve(None)), Err(StateManagerError::InvalidResponse { .. })));
    assert_eq!(expect_config(ConfigMessageAnswer::Config(None)).unwrap(), None);
    assert!(matches!(expect_config(ConfigMessageAnswer::FanUpdateInterval(None)), Err(StateManagerError::InvalidResponse { .. })));
}

#[test]
fn ipc_requests_are_translated() {
    let req = DBusServiceMessage::GetGpuInfo { uuid: "GPU-1".to_string() };
    match dbus_request(&req) {
        DevicesManagerMessage::GetDeviceInfo { uuid } => assert_eq!(uuid, "GPU-1"),
        other => panic!("unexpected request {:?}", other),
    }
    assert!(matches!(dbus_request(&DBusServiceMessage::GetGpus), DevicesManagerMessage::ListDevices));
    match dbus_answer(&DBusServiceMessage::GetGpus, DevicesManagerAnswer::DeviceList(vec!["x".to_string()])) {
        Ok(DBusServiceAnswer::Gpus(v)) => assert_eq!(v, vec!["x".to_string()]),
        other => panic!("unexpected answer {:?}", other),
    }
    let r = dbus_answer(&req, DevicesManagerAnswer::DeviceList(vec![]));
    assert!(matches!(r, Err(StateManagerError::InvalidResponse { .. })));
}

#[test]
fn vendor_objects_and_paths() {
    let nv = GpuVendorInfo::Nvidia {
        driver_version: "550".to_string(),
        vbios: "1".to_string(),
        cuda_core_count: 1,
        max_temp: None,
        mem_max_temp: None,
        slowdown_temp: None,
        shutdown_temp: None,
    };
    assert!(DBusService::has_vendor_object(&nv));
    assert!(!DBusService::has_vendor_object(&GpuVendorInfo::AMD {}));
    assert_eq!(DBusService::object_number(0), 1);
    assert_eq!(DBusService::object_number(4), 5);
    let _service = DBusService::new();
}

#[test]
fn default_config_path() {
    assert_eq!(ArgsOptions::default().config_file_path, "moss/config.json");
}
