use vstd::prelude::*;

use crate::gpu_device::{GpuInfo, GpuVendorInfo};

verus! {

/// A failure of the IPC service.
#[derive(Debug, Clone)]
pub enum DbusServiceError {
    TX { reason: String },
    RX { reason: String },
    InvalidResponse { reason: String },
    DBusConnection { reason: String },
    DBusObject { reason: String },
}

/// A request of the IPC service to the state manager.
#[derive(Debug)]
pub enum DBusServiceMessage {
    GetGpus,
    GetGpuInfo { uuid: String },
    GetGpuVendorInfo { uuid: String },
}

/// An answer of the state manager to the IPC service.
#[derive(Debug)]
pub enum DBusServiceAnswer {
    Gpus(Vec<String>),
    GpuInfo(GpuInfo),
    GpuVendorInfo(GpuVendorInfo),
}

/// The IPC service; its objects live on the bus connection.
pub struct DBusService {}

impl DBusService {
    pub fn new() -> (r: DBusService) {
        DBusService {}
    }

    /// Whether a device gets a vendor-specific object besides its generic
    /// one: Nvidia devices do.
    pub fn has_vendor_object(info: &GpuVendorInfo) -> (r: bool)
        ensures
            r == (info is Nvidia),
    {
        match info {
            GpuVendorInfo::Nvidia { .. } => true,
            GpuVendorInfo::AMD {  } => false,
        }
    }

    /// The number in the object path of the device at index `i` of the
    /// device list: devices are numbered from 1.
    pub fn object_number(i: usize) -> (r: u64)
        requires
            i < 0xffff_ffff_ffff_ffff,
        ensures
            r == i + 1,
    {
        i as u64 + 1
    }
}

} // verus!
