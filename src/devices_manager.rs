use vstd::prelude::*;

use crate::fan_curve::{FanCurve, FanMode};
use crate::gpu_device::{
    DeviceError, FanPolicy, GpuConfig, GpuData, GpuInfo, GpuVendorData, GpuVendorInfo,
    NvidiaConfig, DEFAULT_DATA_UPDATE_INTERVAL_MS, DEFAULT_FAN_UPDATE_INTERVAL_MS, SAFE_HIGH_TEMP,
};
use crate::hysteresis_curve::HysteresisCurve;
use crate::linear_curve::LinearCurve;

verus! {

/// A failure of a device-manager operation.
#[derive(Debug, Clone)]
pub enum DevicesManagerError {
    Device(DeviceError),
    Discovery { reason: String },
    TX { reason: String },
    InvalidDevice { reason: String },
}

/// An answer of the device manager.
#[derive(Debug)]
pub enum DevicesManagerAnswer {
    DeviceList(Vec<String>),
    DeviceInfo(GpuInfo),
    DeviceVendorInfo(GpuVendorInfo),
    DeviceData(Option<GpuData>),
    DeviceVendorData(Option<GpuVendorData>),
}

/// A request or command to the device manager.
#[derive(Debug)]
pub enum DevicesManagerMessage {
    ListDevices,
    GetDeviceInfo { uuid: String },
    GetDeviceVendorInfo { uuid: String },
    GetDeviceData { uuid: String },
    GetDeviceVendorData { uuid: String },
    SetDeviceDataUpdateInterval { uuid: String, interval_ms: u64 },
    SetDeviceFanMode { uuid: String, fan_mode: FanMode },
    SetDeviceFanCurve { uuid: String, fan_curve: HysteresisCurve<LinearCurve> },
    SetDeviceFanUpdateInterval { uuid: String, interval_ms: u64 },
    ApplyDeviceGpuConfig { uuid: String, config: GpuConfig },
}

/// A write to the driver that a configuration asks for.
#[derive(Debug, Clone, Copy, PartialEq, Eq, Structural)]
pub enum DriverWrite {
    PowerLimit(u32),
    CoreClockOffset(i32),
    MemClockOffset(i32),
}

/// The driver writes a configuration asks for, in order: power limit,
/// core-clock offset, memory-clock offset, each only where it is present.
pub open spec fn config_writes(c: GpuConfig) -> Seq<DriverWrite> {
    let a = match c.power_limit {
        Some(p) => seq![DriverWrite::PowerLimit(p)],
        None => Seq::empty(),
    };
    let b = match c.nvidia_config.core_clock_offset {
        Some(o) => seq![DriverWrite::CoreClockOffset(o)],
        None => Seq::empty(),
    };
    let d = match c.nvidia_config.mem_clock_offset {
        Some(o) => seq![DriverWrite::MemClockOffset(o)],
        None => Seq::empty(),
    };
    a + b + d
}

/// The writes that apply a configuration; missing fields leave the device
/// unchanged.
pub fn gpu_config_writes(config: &GpuConfig) -> (r: Vec<DriverWrite>)
    ensures
        r@ == config_writes(*config),
{
    let mut r: Vec<DriverWrite> = Vec::new();
    if let Some(p) = config.power_limit {
        r.push(DriverWrite::PowerLimit(p));
    }
    if let Some(o) = config.nvidia_config.core_clock_offset {
        r.push(DriverWrite::CoreClockOffset(o));
    }
    if let Some(o) = config.nvidia_config.mem_clock_offset {
        r.push(DriverWrite::MemClockOffset(o));
    }
    assert(r@ =~= config_writes(*config));
    r
}

/// The policy written to the driver for a fan mode: the driver's own
/// control for `Auto`, manual control otherwise.
pub open spec fn policy_of(mode: FanMode) -> FanPolicy {
    match mode {
        FanMode::Auto => FanPolicy::TemperatureContinuous,
        _ => FanPolicy::Manual,
    }
}

pub fn fan_policy_for(mode: FanMode) -> (r: FanPolicy)
    ensures
        r == policy_of(mode),
{
    match mode {
        FanMode::Auto => FanPolicy::TemperatureContinuous,
        _ => FanPolicy::Manual,
    }
}

/// The mode a device is found in: automatic under the driver's own
/// control, else curve-driven (a manual policy left behind is taken over).
pub fn fan_mode_from_policy(policy: FanPolicy) -> (r: FanMode)
    ensures
        r == (if policy == FanPolicy::TemperatureContinuous {
            FanMode::Auto
        } else {
            FanMode::Curve
        }),
{
    match policy {
        FanPolicy::TemperatureContinuous => FanMode::Auto,
        FanPolicy::Manual => FanMode::Curve,
    }
}

/// The configuration applied at shutdown: clock offsets cleared and the
/// power limit back at the device's default.
pub open spec fn restore_config(info: GpuInfo) -> GpuConfig {
    GpuConfig {
        nvidia_config: NvidiaConfig { core_clock_offset: Some(0), mem_clock_offset: Some(0) },
        power_limit: Some(info.power_limit_default),
    }
}

/// The time since `since`, none when the clock reads earlier.
pub open spec fn elapsed(since: u64, now: u64) -> int {
    if now >= since {
        now - since
    } else {
        0
    }
}

/// The time left until an interval that started at `since` has passed.
pub open spec fn remaining(since: u64, interval: u64, now: u64) -> int {
    if interval > elapsed(since, now) {
        interval - elapsed(since, now)
    } else {
        0
    }
}

/// The temperature a curve is read at: the sensor's reading, or the safe
/// high temperature when the sensor could not be read.
pub open spec fn curve_temp(reading: Option<u32>) -> i32 {
    match reading {
        Some(t) => if t <= 0x7fff_ffff {
            t as i32
        } else {
            0x7fff_ffffi32
        },
        None => SAFE_HIGH_TEMP,
    }
}

/// The state the device manager keeps of one device.
#[derive(Debug)]
pub struct DeviceState {
    pub uuid: String,
    pub info: GpuInfo,
    pub vendor_info: GpuVendorInfo,
    pub data: GpuData,
    pub vendor_data: GpuVendorData,
    /// Minimum time between two telemetry samples, in ms.
    pub data_update_interval_ms: u64,
    /// When the last sample was taken, in ms.
    pub data_last_update_ms: u64,
    pub fan_mode: FanMode,
    pub fan_curve: HysteresisCurve<LinearCurve>,
    /// Time between two fan updates, in ms.
    pub fan_update_interval_ms: u64,
    /// When the fans were last updated, in ms.
    pub last_fan_update_ms: u64,
}

impl DeviceState {
    pub open spec fn wf(&self) -> bool {
        self.fan_mode.wf() && self.fan_curve.wf()
    }

    /// The time left until the device's next fan update.
    pub open spec fn fan_delay(&self, now: u64) -> int {
        remaining(self.last_fan_update_ms, self.fan_update_interval_ms, now)
    }

    /// The speed a fan update writes: none in automatic mode, the curve's
    /// speed at the reading in curve mode, the set speed in manual mode.
    pub open spec fn fan_output(&self, reading: Option<u32>) -> Option<u8> {
        match self.fan_mode {
            FanMode::Auto => None,
            FanMode::Curve => Some(self.fan_curve.speed_for(curve_temp(reading))),
            FanMode::Manual(p) => Some(p),
        }
    }

    /// The device after a fan update: a curve-driven device's curve has
    /// taken the reading.
    pub open spec fn after_fan_output(&self, reading: Option<u32>) -> DeviceState {
        match self.fan_mode {
            FanMode::Curve => DeviceState { fan_curve: self.fan_curve.after_reading(curve_temp(reading)), ..*self },
            _ => *self,
        }
    }

    /// A device found at `now`, in the given mode, with a full-speed curve
    /// and the default intervals.
    pub fn new(
        uuid: String,
        info: GpuInfo,
        vendor_info: GpuVendorInfo,
        data: GpuData,
        vendor_data: GpuVendorData,
        fan_mode: FanMode,
        now_ms: u64,
    ) -> (r: DeviceState)
        ensures
            r.wf(),
            r.uuid == uuid,
            r.info == info,
            r.vendor_info == vendor_info,
            r.fan_mode == fan_mode.clamped(),
            r.data == data,
            r.vendor_data == vendor_data,
            r.data_update_interval_ms == DEFAULT_DATA_UPDATE_INTERVAL_MS,
            r.data_last_update_ms == now_ms,
            r.fan_update_interval_ms == DEFAULT_FAN_UPDATE_INTERVAL_MS,
            r.last_fan_update_ms == now_ms,
            forall|t: i32| r.fan_curve.speed_for(t) == 100,
    {
        DeviceState {
            uuid,
            info,
            vendor_info,
            data,
            vendor_data,
            data_update_interval_ms: DEFAULT_DATA_UPDATE_INTERVAL_MS,
            data_last_update_ms: now_ms,
            fan_mode: fan_mode.clamp(),
            fan_curve: HysteresisCurve::<LinearCurve>::full_speed(),
            fan_update_interval_ms: DEFAULT_FAN_UPDATE_INTERVAL_MS,
            last_fan_update_ms: now_ms,
        }
    }
}

/// No uuid occurs twice among the devices.
pub open spec fn unique_uuids(s: Seq<DeviceState>) -> bool {
    forall|i: int, j: int| 0 <= i < s.len() && 0 <= j < s.len() && i != j ==> s[i].uuid@ != s[j].uuid@
}

pub open spec fn has_device(s: Seq<DeviceState>, uuid: Seq<char>) -> bool {
    exists|i: int| 0 <= i < s.len() && s[i].uuid@ == uuid
}

/// The devices after the one with the given uuid has been replaced by
/// `change` of it.
pub open spec fn changed_device(s: Seq<DeviceState>, uuid: Seq<char>, change: spec_fn(DeviceState) -> DeviceState) -> Seq<DeviceState> {
    s.map_values(|d: DeviceState| if d.uuid@ == uuid { change(d) } else { d })
}

proof fn lemma_update_is_change(
    s: Seq<DeviceState>,
    i: int,
    uuid: Seq<char>,
    change: spec_fn(DeviceState) -> DeviceState,
)
    requires
        unique_uuids(s),
        0 <= i < s.len(),
        s[i].uuid@ == uuid,
    ensures
        s.update(i, change(s[i])) == changed_device(s, uuid, change),
{
    assert forall|j: int| 0 <= j < s.len() && j != i implies s[j].uuid@ != uuid by {}
    assert(s.update(i, change(s[i])) =~= changed_device(s, uuid, change));
}

proof fn lemma_update_keeps_wf(s: Seq<DeviceState>, i: int, d: DeviceState)
    requires
        unique_uuids(s),
        forall|j: int| 0 <= j < s.len() ==> #[trigger] s[j].wf(),
        0 <= i < s.len(),
        d.uuid == s[i].uuid,
        d.wf(),
    ensures
        unique_uuids(s.update(i, d)),
        forall|j: int| 0 <= j < s.len() ==> #[trigger] s.update(i, d)[j].wf(),
{
    let s2 = s.update(i, d);
    assert forall|a: int, b: int| 0 <= a < s2.len() && 0 <= b < s2.len() && a != b implies s2[a].uuid@ != s2[b].uuid@ by {
        assert(s2[a].uuid == s[a].uuid);
        assert(s2[b].uuid == s[b].uuid);
    }
}

proof fn lemma_no_change(s: Seq<DeviceState>, uuid: Seq<char>, change: spec_fn(DeviceState) -> DeviceState)
    requires
        !has_device(s, uuid),
    ensures
        s == changed_device(s, uuid, change),
{
    assert forall|j: int| 0 <= j < s.len() implies s[j].uuid@ != uuid by {
        if s[j].uuid@ == uuid {
            assert(has_device(s, uuid));
        }
    }
    assert(s =~= changed_device(s, uuid, change));
}

/// The devices after shutdown: each one whose driver accepted the automatic
/// policy is in automatic mode; the others are as they were.
pub open spec fn restored(s: Seq<DeviceState>, accepted: Seq<bool>) -> Seq<DeviceState> {
    Seq::new(s.len(), |i: int| if accepted[i] {
        DeviceState { fan_mode: FanMode::Auto, ..s[i] }
    } else {
        s[i]
    })
}

/// When the driver accepts every restoring write, every device ends in
/// automatic fan mode, and the configuration sent to each clears its clock
/// offsets.
pub proof fn lemma_shutdown_restores_all(s: Seq<DeviceState>, accepted: Seq<bool>)
    requires
        accepted.len() == s.len(),
        forall|i: int| 0 <= i < accepted.len() ==> accepted[i],
    ensures
        forall|i: int| 0 <= i < s.len() ==> (#[trigger] restored(s, accepted)[i]).fan_mode == FanMode::Auto,
        forall|i: int| 0 <= i < s.len() ==> (#[trigger] restore_config(s[i].info)).nvidia_config.core_clock_offset == Some(0i32)
            && restore_config(s[i].info).nvidia_config.mem_clock_offset == Some(0i32),
{
}

/// The devices and the fan scheduler.
pub struct DevicesManager {
    devices: Vec<DeviceState>,
}

impl DevicesManager {
    pub closed spec fn devices(&self) -> Seq<DeviceState> {
        self.devices@
    }

    pub open spec fn wf(&self) -> bool {
        &&& unique_uuids(self.devices())
        &&& forall|i: int| 0 <= i < self.devices().len() ==> #[trigger] self.devices()[i].wf()
    }

    /// A manager without devices.
    pub fn new() -> (r: DevicesManager)
        ensures
            r.wf(),
            r.devices().len() == 0,
    {
        DevicesManager { devices: Vec::new() }
    }

    fn index_of(&self, uuid: &String) -> (r: Option<usize>)
        ensures
            match r {
                Some(i) => i < self.devices().len() && self.devices()[i as int].uuid@ == uuid@,
                None => !has_device(self.devices(), uuid@),
            },
    {
        let mut i: usize = 0;
        while i < self.devices.len()
            invariant
                i <= self.devices.len(),
                forall|j: int| 0 <= j < i ==> self.devices@[j].uuid@ != uuid@,
            decreases self.devices.len() - i,
        {
            if self.devices[i].uuid == *uuid {
                return Some(i);
            }
            i = i + 1;
        }
        None
    }

    fn invalid_device() -> (r: DevicesManagerError)
        ensures
            r is InvalidDevice,
    {
        DevicesManagerError::InvalidDevice { reason: "Trying to access non-existing device".to_owned() }
    }

    /// Adds a found device; one found earlier with the same uuid is replaced.
    pub fn add_device(&mut self, device: DeviceState)
        requires
            old(self).wf(),
            device.wf(),
        ensures
            final(self).wf(),
            has_device(final(self).devices(), device.uuid@),
            forall|i: int| 0 <= i < final(self).devices().len() && final(self).devices()[i].uuid@ == device.uuid@
                ==> final(self).devices()[i] == device,
            forall|u: Seq<char>| u != device.uuid@ ==> (has_device(final(self).devices(), u) == has_device(old(self).devices(), u)),
    {
        let ghost s = self.devices@;
        match self.index_of(&device.uuid) {
            Some(i) => {
                self.devices.set(i, device);
                proof {
                    let s2 = self.devices@;
                    assert forall|u: Seq<char>| u != device.uuid@ implies has_device(s2, u) == has_device(s, u) by {
                        if has_device(s, u) {
                            let j = choose|j: int| 0 <= j < s.len() && s[j].uuid@ == u;
                            assert(s2[j].uuid@ == u);
                        }
                        if has_device(s2, u) {
                            let j = choose|j: int| 0 <= j < s2.len() && s2[j].uuid@ == u;
                            assert(s[j].uuid@ == u);
                        }
                    }
                    assert(s2[i as int].uuid@ == device.uuid@);
                }
            },
            None => {
                self.devices.push(device);
                proof {
                    let s2 = self.devices@;
                    assert forall|u: Seq<char>| u != device.uuid@ implies has_device(s2, u) == has_device(s, u) by {
                        if has_device(s, u) {
                            let j = choose|j: int| 0 <= j < s.len() && s[j].uuid@ == u;
                            assert(s2[j].uuid@ == u);
                        }
                        if has_device(s2, u) {
                            let j = choose|j: int| 0 <= j < s2.len() && s2[j].uuid@ == u;
                            assert(s[j].uuid@ == u);
                        }
                    }
                    assert(s2[s.len() as int].uuid@ == device.uuid@);
                }
            },
        }
    }

    /// The uuids of all devices.
    pub fn list_devices(&self) -> (r: Vec<String>)
        ensures
            r@.len() == self.devices().len(),
            forall|i: int| 0 <= i < r@.len() ==> r@[i]@ == self.devices()[i].uuid@,
    {
        let mut r: Vec<String> = Vec::new();
        let mut i: usize = 0;
        while i < self.devices.len()
            invariant
                i <= self.devices.len(),
                r@.len() == i,
                forall|j: int| 0 <= j < i ==> r@[j]@ == self.devices@[j].uuid@,
            decreases self.devices.len() - i,
        {
            r.push(self.devices[i].uuid.clone());
            i = i + 1;
        }
        r
    }

    /// The device with the given uuid.
    pub fn get_device(&self, uuid: &String) -> (r: Result<&DeviceState, DevicesManagerError>)
        requires
            self.wf(),
        ensures
            r is Ok <==> has_device(self.devices(), uuid@),
            r is Ok ==> r->Ok_0.uuid@ == uuid@ && self.devices().contains(*r->Ok_0),
            r is Err ==> r->Err_0 is InvalidDevice,
    {
        match self.index_of(uuid) {
            Some(i) => Ok(&self.devices[i]),
            None => Err(Self::invalid_device()),
        }
    }

    /// Records the device's fan mode once the driver has taken the
    /// matching policy (`policy_of(mode)`); a manual speed is clamped. When
    /// the write failed, nothing changes.
    pub fn set_fan_mode(&mut self, uuid: &String, mode: FanMode, policy_written: Result<(), DeviceError>) -> (r: Result<(), DevicesManagerError>)
        requires
            old(self).wf(),
        ensures
            final(self).wf(),
            !has_device(old(self).devices(), uuid@) ==> r is Err && r->Err_0 is InvalidDevice,
            has_device(old(self).devices(), uuid@) && policy_written is Err ==> r == Err::<(), DevicesManagerError>(
                DevicesManagerError::Device(policy_written->Err_0),
            ),
            r is Ok <==> has_device(old(self).devices(), uuid@) && policy_written is Ok,
            r is Ok ==> final(self).devices() == changed_device(old(self).devices(), uuid@,
                |d: DeviceState| DeviceState { fan_mode: mode.clamped(), ..d }),
            r is Err ==> final(self).devices() == old(self).devices(),
    {
        match self.index_of(uuid) {
            Some(i) => match policy_written {
                Ok(()) => {
                    let ghost s = self.devices@;
                    self.devices[i].fan_mode = mode.clamp();
                    proof {
                        lemma_update_is_change(s, i as int, uuid@, |d: DeviceState| DeviceState { fan_mode: mode.clamped(), ..d });
                        assert(self.devices@ == s.update(i as int, DeviceState { fan_mode: mode.clamped(), ..s[i as int] }));
                        assert(old(self).devices()[i as int].wf());
                        lemma_update_keeps_wf(s, i as int, DeviceState { fan_mode: mode.clamped(), ..s[i as int] });
                    }
                    Ok(())
                },
                Err(e) => Err(DevicesManagerError::Device(e)),
            },
            None => Err(Self::invalid_device()),
        }
    }

    /// Replaces the device's fan curve; the fan mode is kept.
    pub fn set_fan_curve(&mut self, uuid: &String, curve: HysteresisCurve<LinearCurve>) -> (r: Result<(), DevicesManagerError>)
        requires
            old(self).wf(),
            curve.wf(),
        ensures
            final(self).wf(),
            r is Ok <==> has_device(old(self).devices(), uuid@),
            r is Err ==> r->Err_0 is InvalidDevice,
            final(self).devices() == changed_device(old(self).devices(), uuid@,
                |d: DeviceState| DeviceState { fan_curve: curve, ..d }),
    {
        let ghost s = self.devices@;
        match self.index_of(uuid) {
            Some(i) => {
                self.devices[i].fan_curve = curve;
                proof {
                    lemma_update_is_change(s, i as int, uuid@, |d: DeviceState| DeviceState { fan_curve: curve, ..d });
                    assert(self.devices@ == s.update(i as int, DeviceState { fan_curve: curve, ..s[i as int] }));
                    assert(old(self).devices()[i as int].wf());
                    lemma_update_keeps_wf(s, i as int, DeviceState { fan_curve: curve, ..s[i as int] });
                }
                Ok(())
            },
            None => {
                proof {
                    lemma_no_change(s, uuid@, |d: DeviceState| DeviceState { fan_curve: curve, ..d });
                }
                Err(Self::invalid_device())
            },
        }
    }

    /// Sets the time between two fan updates of the device, in ms.
    pub fn set_fan_update_interval(&mut self, uuid: &String, interval_ms: u64) -> (r: Result<(), DevicesManagerError>)
        requires
            old(self).wf(),
        ensures
            final(self).wf(),
            r is Ok <==> has_device(old(self).devices(), uuid@),
            r is Err ==> r->Err_0 is InvalidDevice,
            final(self).devices() == changed_device(old(self).devices(), uuid@,
                |d: DeviceState| DeviceState { fan_update_interval_ms: interval_ms, ..d }),
    {
        let ghost s = self.devices@;
        match self.index_of(uuid) {
            Some(i) => {
                self.devices[i].fan_update_interval_ms = interval_ms;
                proof {
                    lemma_update_is_change(s, i as int, uuid@, |d: DeviceState| DeviceState { fan_update_interval_ms: interval_ms, ..d });
                    assert(self.devices@ == s.update(i as int, DeviceState { fan_update_interval_ms: interval_ms, ..s[i as int] }));
                    assert(old(self).devices()[i as int].wf());
                    lemma_update_keeps_wf(s, i as int, DeviceState { fan_update_interval_ms: interval_ms, ..s[i as int] });
                }
                Ok(())
            },
            None => {
                proof {
                    lemma_no_change(s, uuid@, |d: DeviceState| DeviceState { fan_update_interval_ms: interval_ms, ..d });
                }
                Err(Self::invalid_device())
            },
        }
    }

    /// Sets the minimum time between two telemetry samples of the device,
    /// in ms.
    pub fn set_data_update_interval(&mut self, uuid: &String, interval_ms: u64) -> (r: Result<(), DevicesManagerError>)
        requires
            old(self).wf(),
        ensures
            final(self).wf(),
            r is Ok <==> has_device(old(self).devices(), uuid@),
            r is Err ==> r->Err_0 is InvalidDevice,
            final(self).devices() == changed_device(old(self).devices(), uuid@,
                |d: DeviceState| DeviceState { data_update_interval_ms: interval_ms, ..d }),
    {
        let ghost s = self.devices@;
        match self.index_of(uuid) {
            Some(i) => {
                self.devices[i].data_update_interval_ms = interval_ms;
                proof {
                    lemma_update_is_change(s, i as int, uuid@, |d: DeviceState| DeviceState { data_update_interval_ms: interval_ms, ..d });
                    assert(self.devices@ == s.update(i as int, DeviceState { data_update_interval_ms: interval_ms, ..s[i as int] }));
                    assert(old(self).devices()[i as int].wf());
                    lemma_update_keeps_wf(s, i as int, DeviceState { data_update_interval_ms: interval_ms, ..s[i as int] });
                }
                Ok(())
            },
            None => {
                proof {
                    lemma_no_change(s, uuid@, |d: DeviceState| DeviceState { data_update_interval_ms: interval_ms, ..d });
                }
                Err(Self::invalid_device())
            },
        }
    }

    /// Whether the device's sample is due for a refresh at `now`: its
    /// refresh interval has passed since it was taken.
    pub fn data_is_stale(&self, uuid: &String, now_ms: u64) -> (r: Result<bool, DevicesManagerError>)
        requires
            self.wf(),
        ensures
            r is Ok <==> has_device(self.devices(), uuid@),
            r is Err ==> r->Err_0 is InvalidDevice,
            forall|i: int| 0 <= i < self.devices().len() && self.devices()[i].uuid@ == uuid@ ==> r == Ok::<bool, DevicesManagerError>(
                elapsed(self.devices()[i].data_last_update_ms, now_ms) >= self.devices()[i].data_update_interval_ms,
            ),
    {
        match self.index_of(uuid) {
            Some(i) => {
                let d = &self.devices[i];
                let elapsed: u64 = if now_ms >= d.data_last_update_ms {
                    now_ms - d.data_last_update_ms
                } else {
                    0
                };
                Ok(elapsed >= d.data_update_interval_ms)
            },
            None => Err(Self::invalid_device()),
        }
    }

    /// Stores a fresh sample of the device, taken at `now`.
    pub fn store_data(&mut self, uuid: &String, data: GpuData, vendor_data: GpuVendorData, now_ms: u64) -> (r: Result<(), DevicesManagerError>)
        requires
            old(self).wf(),
        ensures
            final(self).wf(),
            r is Ok <==> has_device(old(self).devices(), uuid@),
            r is Err ==> r->Err_0 is InvalidDevice,
            final(self).devices() == changed_device(old(self).devices(), uuid@,
                |d: DeviceState| DeviceState { data, vendor_data, data_last_update_ms: now_ms, ..d }),
    {
        let ghost s = self.devices@;
        match self.index_of(uuid) {
            Some(i) => {
                self.devices[i].data = data;
                self.devices[i].vendor_data = vendor_data;
                self.devices[i].data_last_update_ms = now_ms;
                proof {
                    lemma_update_is_change(s, i as int, uuid@, |d: DeviceState| DeviceState { data, vendor_data, data_last_update_ms: now_ms, ..d });
                    assert(self.devices@ == s.update(i as int, DeviceState { data, vendor_data, data_last_update_ms: now_ms, ..s[i as int] }));
                    assert(old(self).devices()[i as int].wf());
                    lemma_update_keeps_wf(s, i as int, DeviceState { data, vendor_data, data_last_update_ms: now_ms, ..s[i as int] });
                }
                Ok(())
            },
            None => {
                proof {
                    lemma_no_change(s, uuid@, |d: DeviceState| DeviceState { data, vendor_data, data_last_update_ms: now_ms, ..d });
                }
                Err(Self::invalid_device())
            },
        }
    }

    /// Decides one fan update of the device from a temperature reading
    /// (`None` when the sensor could not be read): the speed to write to
    /// its fans, or none in automatic mode. Only this device changes: a
    /// curve-driven device's curve takes the reading.
    pub fn fan_command(&mut self, uuid: &String, reading: Option<u32>) -> (r: Result<Option<u8>, DevicesManagerError>)
        requires
            old(self).wf(),
        ensures
            final(self).wf(),
            r is Ok <==> has_device(old(self).devices(), uuid@),
            r is Err ==> r->Err_0 is InvalidDevice,
            forall|i: int| 0 <= i < old(self).devices().len() && old(self).devices()[i].uuid@ == uuid@
                ==> r == Ok::<Option<u8>, DevicesManagerError>(old(self).devices()[i].fan_output(reading)),
            final(self).devices() == changed_device(old(self).devices(), uuid@,
                |d: DeviceState| d.after_fan_output(reading)),
    {
        let ghost s = self.devices@;
        match self.index_of(uuid) {
            Some(i) => {
                let ghost di = s[i as int];
                assert(self.devices()[i as int].wf());
                let mode = self.devices[i].fan_mode;
                let out = match mode {
                    FanMode::Auto => None,
                    FanMode::Manual(p) => Some(p),
                    FanMode::Curve => {
                        let temp: i32 = match reading {
                            Some(t) => if t <= 0x7fff_ffff {
                                t as i32
                            } else {
                                0x7fff_ffff
                            },
                            None => SAFE_HIGH_TEMP,
                        };
                        Some(self.devices[i].fan_curve.get_speed(temp))
                    },
                };
                proof {
                    lemma_update_is_change(s, i as int, uuid@, |d: DeviceState| d.after_fan_output(reading));
                    assert(self.devices@ == s.update(i as int, di.after_fan_output(reading)));
                    assert(old(self).devices()[i as int].wf());
                    lemma_update_keeps_wf(s, i as int, di.after_fan_output(reading));
                    assert forall|j: int| 0 <= j < s.len() && s[j].uuid@ == uuid@ implies j == i by {}
                }
                Ok(out)
            },
            None => {
                proof {
                    lemma_no_change(s, uuid@, |d: DeviceState| d.after_fan_output(reading));
                }
                Err(Self::invalid_device())
            },
        }
    }

    /// Records a successful fan update of the device at `now`.
    pub fn fan_updated(&mut self, uuid: &String, now_ms: u64) -> (r: Result<(), DevicesManagerError>)
        requires
            old(self).wf(),
        ensures
            final(self).wf(),
            r is Ok <==> has_device(old(self).devices(), uuid@),
            r is Err ==> r->Err_0 is InvalidDevice,
            final(self).devices() == changed_device(old(self).devices(), uuid@,
                |d: DeviceState| DeviceState { last_fan_update_ms: now_ms, ..d }),
    {
        let ghost s = self.devices@;
        match self.index_of(uuid) {
            Some(i) => {
                self.devices[i].last_fan_update_ms = now_ms;
                proof {
                    lemma_update_is_change(s, i as int, uuid@, |d: DeviceState| DeviceState { last_fan_update_ms: now_ms, ..d });
                    assert(self.devices@ == s.update(i as int, DeviceState { last_fan_update_ms: now_ms, ..s[i as int] }));
                    assert(old(self).devices()[i as int].wf());
                    lemma_update_keeps_wf(s, i as int, DeviceState { last_fan_update_ms: now_ms, ..s[i as int] });
                }
                Ok(())
            },
            None => {
                proof {
                    lemma_no_change(s, uuid@, |d: DeviceState| DeviceState { last_fan_update_ms: now_ms, ..d });
                }
                Err(Self::invalid_device())
            },
        }
    }

    /// The device whose fan update is due first, with the time left until
    /// then; among equal deadlines the earliest device in the list. None
    /// when there is no device.
    pub fn schedule_fan_update(&self, now_ms: u64) -> (r: Option<(String, u64)>)
        ensures
            r is None <==> self.devices().len() == 0,
            r is Some ==> exists|k: int| #![trigger self.devices()[k]]
                0 <= k < self.devices().len()
                && self.devices()[k].uuid@ == r->Some_0.0@
                && r->Some_0.1 == self.devices()[k].fan_delay(now_ms)
                && forall|j: int| 0 <= j < self.devices().len() ==> r->Some_0.1 <= #[trigger] self.devices()[j].fan_delay(now_ms),
    {
        if self.devices.len() == 0 {
            return None;
        }
        let mut best: usize = 0;
        let mut best_delay: u64 = Self::fan_delay_of(&self.devices[0], now_ms);
        let mut i: usize = 1;
        while i < self.devices.len()
            invariant
                1 <= i <= self.devices.len(),
                best < i,
                best_delay == self.devices@[best as int].fan_delay(now_ms),
                forall|j: int| 0 <= j < i ==> best_delay <= #[trigger] self.devices@[j].fan_delay(now_ms),
            decreases self.devices.len() - i,
        {
            let d = Self::fan_delay_of(&self.devices[i], now_ms);
            if d < best_delay {
                best = i;
                best_delay = d;
            }
            i = i + 1;
        }
        let u = self.devices[best].uuid.clone();
        proof {
            assert(self.devices()[best as int].uuid@ == u@);
            assert forall|j: int| 0 <= j < self.devices().len() implies best_delay <= #[trigger] self.devices()[j].fan_delay(now_ms) by {
                assert(self.devices@[j].fan_delay(now_ms) == self.devices()[j].fan_delay(now_ms));
            }
        }
        Some((u, best_delay))
    }

    fn fan_delay_of(d: &DeviceState, now_ms: u64) -> (r: u64)
        ensures
            r == d.fan_delay(now_ms),
    {
        let elapsed: u64 = if now_ms >= d.last_fan_update_ms {
            now_ms - d.last_fan_update_ms
        } else {
            0
        };
        if d.fan_update_interval_ms > elapsed {
            d.fan_update_interval_ms - elapsed
        } else {
            0
        }
    }

    /// What shutdown restores on each device, in order: its uuid and the
    /// configuration that clears its clock offsets and puts its power limit
    /// back at the default. Each device is also set to automatic fan mode
    /// (policy `TemperatureContinuous`).
    pub fn shutdown_plan(&self) -> (r: Vec<(String, GpuConfig)>)
        ensures
            r@.len() == self.devices().len(),
            forall|i: int| 0 <= i < r@.len() ==> r@[i].0@ == self.devices()[i].uuid@
                && r@[i].1 == restore_config(self.devices()[i].info),
    {
        let mut r: Vec<(String, GpuConfig)> = Vec::new();
        let mut i: usize = 0;
        while i < self.devices.len()
            invariant
                i <= self.devices.len(),
                r@.len() == i,
                forall|j: int| 0 <= j < i ==> r@[j].0@ == self.devices@[j].uuid@
                    && r@[j].1 == restore_config(self.devices@[j].info),
            decreases self.devices.len() - i,
        {
            let d = &self.devices[i];
            let config = GpuConfig {
                nvidia_config: NvidiaConfig { core_clock_offset: Some(0), mem_clock_offset: Some(0) },
                power_limit: Some(d.info.power_limit_default),
            };
            r.push((d.uuid.clone(), config));
            i = i + 1;
        }
        r
    }

    /// Records the outcome of shutdown: each device whose driver accepted
    /// the automatic policy is in automatic mode; the others keep theirs.
    pub fn finish_shutdown(&mut self, accepted: &Vec<bool>)
        requires
            old(self).wf(),
            accepted@.len() == old(self).devices().len(),
        ensures
            final(self).wf(),
            final(self).devices() == restored(old(self).devices(), accepted@),
    {
        let ghost s = self.devices@;
        let mut i: usize = 0;
        while i < self.devices.len()
            invariant
                i <= self.devices.len(),
                self.devices@.len() == s.len(),
                accepted@.len() == s.len(),
                unique_uuids(s),
                forall|j: int| 0 <= j < s.len() ==> #[trigger] s[j].wf(),
                forall|j: int| 0 <= j < i ==> #[trigger] self.devices@[j] == (if accepted@[j] {
                    DeviceState { fan_mode: FanMode::Auto, ..s[j] }
                } else {
                    s[j]
                }),
                forall|j: int| i <= j < s.len() ==> #[trigger] self.devices@[j] == s[j],
            decreases self.devices.len() - i,
        {
            if accepted[i] {
                self.devices[i].fan_mode = FanMode::Auto;
            }
            i = i + 1;
        }
        proof {
            assert forall|a: int, b: int| 0 <= a < s.len() && 0 <= b < s.len() && a != b implies self.devices@[a].uuid@ != self.devices@[b].uuid@ by {
                assert(self.devices@[a].uuid == s[a].uuid);
                assert(self.devices@[b].uuid == s[b].uuid);
            }
            assert forall|j: int| 0 <= j < s.len() implies #[trigger] self.devices@[j].wf() by {
                assert(s[j].wf());
            }
            assert(self.devices@ =~= restored(s, accepted@));
        }
    }
}

} // verus!
