use vstd::prelude::*;

use crate::config_manager::ConfigMessageAnswer;
use crate::dbus_service::{DBusServiceAnswer, DBusServiceMessage};
use crate::devices_manager::{DevicesManagerAnswer, DevicesManagerMessage};
use crate::fan_curve::{FanCurve, FanCurveInfo, FanMode};
use crate::gpu_device::GpuConfig;
use crate::hysteresis_curve::HysteresisCurve;
use crate::linear_curve::{built_map, LinearCurve};

verus! {

/// A failure of the state manager.
#[derive(Debug, Clone)]
pub enum StateManagerError {
    TX { reason: String },
    RX { reason: String },
    InvalidResponse { reason: String },
}

fn invalid_response() -> (r: StateManagerError)
    ensures
        r is InvalidResponse,
{
    StateManagerError::InvalidResponse { reason: "Invalid response".to_owned() }
}

/// Whether `c` is the runtime curve made from a curve description: a
/// hysteresis curve over the description's points, with no reading yet and
/// missing thresholds at 0.
pub open spec fn curve_made_from(c: HysteresisCurve<LinearCurve>, info: (Seq<(i32, u8)>, Option<u32>, Option<u32>)) -> bool {
    &&& c.wf()
    &&& c.points() == built_map(info.0)
    &&& c.last_update is None
    &&& c.lower_threshold == (match info.1 { Some(v) => v, None => 0 })
    &&& c.upper_threshold == (match info.2 { Some(v) => v, None => 0 })
}

/// The index of the fan-mode command among a device's start-up commands:
/// after the curve and the interval, where they are sent.
pub open spec fn fan_mode_position(has_curve: bool, has_interval: bool) -> int {
    (if has_curve { 1int } else { 0int }) + (if has_interval { 1int } else { 0int })
}

/// The commands that apply a device's stored settings at start-up, in
/// order: its curve and its fan update interval where the configuration
/// gives them, then its fan mode (so that the first evaluation uses the
/// intended curve), then its configuration where there is one.
pub fn startup_commands(
    uuid: &String,
    curve: Option<FanCurveInfo>,
    interval_ms: Option<u64>,
    mode: FanMode,
    config: Option<GpuConfig>,
) -> (r: Vec<DevicesManagerMessage>)
    ensures
        ({
            let p = fan_mode_position(curve is Some, interval_ms is Some);
            &&& r@.len() == p + 1 + (if config is Some { 1int } else { 0int })
            &&& curve is Some ==> match r@[0] {
                DevicesManagerMessage::SetDeviceFanCurve { uuid: u, fan_curve } => u@ == uuid@ && curve_made_from(fan_curve, curve.unwrap()@),
                _ => false,
            }
            &&& interval_ms is Some ==> match r@[p - 1] {
                DevicesManagerMessage::SetDeviceFanUpdateInterval { uuid: u, interval_ms: v } => u@ == uuid@ && v == interval_ms.unwrap(),
                _ => false,
            }
            &&& match r@[p] {
                DevicesManagerMessage::SetDeviceFanMode { uuid: u, fan_mode } => u@ == uuid@ && fan_mode == mode,
                _ => false,
            }
            &&& config is Some ==> match r@[p + 1] {
                DevicesManagerMessage::ApplyDeviceGpuConfig { uuid: u, config: c } => u@ == uuid@ && c == config.unwrap(),
                _ => false,
            }
        }),
{
    let mut r: Vec<DevicesManagerMessage> = Vec::new();
    if let Some(info) = &curve {
        let fan_curve = HysteresisCurve::<LinearCurve>::from_info(info);
        r.push(DevicesManagerMessage::SetDeviceFanCurve { uuid: uuid.clone(), fan_curve });
    }
    if let Some(v) = interval_ms {
        r.push(DevicesManagerMessage::SetDeviceFanUpdateInterval { uuid: uuid.clone(), interval_ms: v });
    }
    r.push(DevicesManagerMessage::SetDeviceFanMode { uuid: uuid.clone(), fan_mode: mode });
    if let Some(c) = config {
        r.push(DevicesManagerMessage::ApplyDeviceGpuConfig { uuid: uuid.clone(), config: c });
    }
    r
}

/// The device list of an answer; any other answer is invalid.
pub fn expect_device_list(answer: DevicesManagerAnswer) -> (r: Result<Vec<String>, StateManagerError>)
    ensures
        match answer {
            DevicesManagerAnswer::DeviceList(v) => r == Ok::<Vec<String>, StateManagerError>(v),
            _ => r is Err && r->Err_0 is InvalidResponse,
        },
{
    match answer {
        DevicesManagerAnswer::DeviceList(v) => Ok(v),
        _ => Err(invalid_response()),
    }
}

/// The curve description of an answer; any other answer is invalid.
pub fn expect_fan_curve(answer: ConfigMessageAnswer) -> (r: Result<Option<FanCurveInfo>, StateManagerError>)
    ensures
        match answer {
            ConfigMessageAnswer::FanCurve(c) => r == Ok::<Option<FanCurveInfo>, StateManagerError>(c),
            _ => r is Err && r->Err_0 is InvalidResponse,
        },
{
    match answer {
        ConfigMessageAnswer::FanCurve(c) => Ok(c),
        _ => Err(invalid_response()),
    }
}

/// The fan update interval of an answer; any other answer is invalid.
pub fn expect_fan_update_interval(answer: ConfigMessageAnswer) -> (r: Result<Option<u64>, StateManagerError>)
    ensures
        match answer {
            ConfigMessageAnswer::FanUpdateInterval(v) => r == Ok::<Option<u64>, StateManagerError>(v),
            _ => r is Err && r->Err_0 is InvalidResponse,
        },
{
    match answer {
        ConfigMessageAnswer::FanUpdateInterval(v) => Ok(v),
        _ => Err(invalid_response()),
    }
}

/// The fan mode of an answer; any other answer is invalid.
pub fn expect_fan_mode(answer: ConfigMessageAnswer) -> (r: Result<FanMode, StateManagerError>)
    ensures
        match answer {
            ConfigMessageAnswer::FanMode(m) => r == Ok::<FanMode, StateManagerError>(m),
            _ => r is Err && r->Err_0 is InvalidResponse,
        },
{
    match answer {
        ConfigMessageAnswer::FanMode(m) => Ok(m),
        _ => Err(invalid_response()),
    }
}

/// The configuration of an answer; any other answer is invalid.
pub fn expect_config(answer: ConfigMessageAnswer) -> (r: Result<Option<GpuConfig>, StateManagerError>)
    ensures
        match answer {
            ConfigMessageAnswer::Config(c) => r == Ok::<Option<GpuConfig>, StateManagerError>(c),
            _ => r is Err && r->Err_0 is InvalidResponse,
        },
{
    match answer {
        ConfigMessageAnswer::Config(c) => Ok(c),
        _ => Err(invalid_response()),
    }
}

/// The device-manager request that serves an IPC request.
pub fn dbus_request(msg: &DBusServiceMessage) -> (r: DevicesManagerMessage)
    ensures
        match *msg {
            DBusServiceMessage::GetGpus => r is ListDevices,
            DBusServiceMessage::GetGpuInfo { uuid } => match r {
                DevicesManagerMessage::GetDeviceInfo { uuid: u } => u@ == uuid@,
                _ => false,
            },
            DBusServiceMessage::GetGpuVendorInfo { uuid } => match r {
                DevicesManagerMessage::GetDeviceVendorInfo { uuid: u } => u@ == uuid@,
                _ => false,
            },
        },
{
    match msg {
        DBusServiceMessage::GetGpus => DevicesManagerMessage::ListDevices,
        DBusServiceMessage::GetGpuInfo { uuid } => DevicesManagerMessage::GetDeviceInfo { uuid: uuid.clone() },
        DBusServiceMessage::GetGpuVendorInfo { uuid } => DevicesManagerMessage::GetDeviceVendorInfo { uuid: uuid.clone() },
    }
}

/// The IPC answer to a request, from the device manager's answer; an
/// answer of another kind than the request asked for is invalid.
pub fn dbus_answer(msg: &DBusServiceMessage, answer: DevicesManagerAnswer) -> (r: Result<DBusServiceAnswer, StateManagerError>)
    ensures
        match (*msg, answer) {
            (DBusServiceMessage::GetGpus, DevicesManagerAnswer::DeviceList(v)) => r == Ok::<DBusServiceAnswer, StateManagerError>(DBusServiceAnswer::Gpus(v)),
            (DBusServiceMessage::GetGpuInfo { .. }, DevicesManagerAnswer::DeviceInfo(i)) => r == Ok::<DBusServiceAnswer, StateManagerError>(DBusServiceAnswer::GpuInfo(i)),
            (DBusServiceMessage::GetGpuVendorInfo { .. }, DevicesManagerAnswer::DeviceVendorInfo(i)) => r == Ok::<DBusServiceAnswer, StateManagerError>(DBusServiceAnswer::GpuVendorInfo(i)),
            _ => r is Err && r->Err_0 is InvalidResponse,
        },
{
    match msg {
        DBusServiceMessage::GetGpus => match answer {
            DevicesManagerAnswer::DeviceList(v) => Ok(DBusServiceAnswer::Gpus(v)),
            _ => Err(invalid_response()),
        },
        DBusServiceMessage::GetGpuInfo { .. } => match answer {
            DevicesManagerAnswer::DeviceInfo(i) => Ok(DBusServiceAnswer::GpuInfo(i)),
            _ => Err(invalid_response()),
        },
        DBusServiceMessage::GetGpuVendorInfo { .. } => match answer {
            DevicesManagerAnswer::DeviceVendorInfo(i) => Ok(DBusServiceAnswer::GpuVendorInfo(i)),
            _ => Err(invalid_response()),
        },
    }
}

} // verus!
