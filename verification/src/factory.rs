//! The entry into the device stack: what the core module reports about the
//! connected devices, and the creation of recording sinks.

use vstd::prelude::*;
use crate::device::{Device, DeviceConfiguration};
use crate::error::Error;
use crate::record::Record;
use crate::runtime::NativeRuntime;
use crate::structs::HardwareVersion;

verus! {

/// The core device module: how many devices are connected and whether an
/// open will be accepted, plus the identity the opened device reports.
pub struct Factory {
    /// The number of connected devices.
    pub installed_count: u32,
    /// Whether an open of a valid index is accepted (a device can already be
    /// claimed by another process).
    pub open_succeeds: bool,
    /// The serial number an opened device reports.
    pub serial_number: String,
    /// The firmware versions an opened device reports.
    pub version: HardwareVersion,
}

impl Factory {
    /// Gets the number of connected devices.
    pub fn device_get_installed_count(&self) -> (r: u32)
        ensures
            r == self.installed_count,
    {
        self.installed_count
    }

    /// Opens the device at `index`. Fails when the index is out of range or
    /// the device cannot be claimed.
    pub fn device_open(&self, index: u32) -> (r: Result<Device, Error>)
        ensures
            match r {
                Ok(d) => self.open_succeeds && index < self.installed_count && d.serial_number
                    == self.serial_number && d.version == self.version,
                Err(e) => (!self.open_succeeds || index >= self.installed_count) && e
                    == Error::Failed,
            },
    {
        if self.open_succeeds && index < self.installed_count {
            Ok(Device { serial_number: self.serial_number.clone(), version: self.version })
        } else {
            Err(Error::Failed)
        }
    }
}

/// The recording module, borrowing the core device module's capabilities.
pub struct FactoryRecord {
    pub core: Factory,
    /// Whether a recording sink can be created at the target path.
    pub record_create_succeeds: bool,
}

impl FactoryRecord {
    /// Gets the number of connected devices.
    pub fn device_get_installed_count(&self) -> (r: u32)
        ensures
            r == self.core.installed_count,
    {
        self.core.device_get_installed_count()
    }

    /// Opens the device at `index`.
    pub fn device_open(&self, index: u32) -> (r: Result<Device, Error>)
        ensures
            match r {
                Ok(d) => self.core.open_succeeds && index < self.core.installed_count
                    && d.serial_number == self.core.serial_number && d.version == self.core.version,
                Err(e) => (!self.core.open_succeeds || index >= self.core.installed_count) && e
                    == Error::Failed,
            },
    {
        self.core.device_open(index)
    }

    /// Opens a new recording sink at the target path, bound to the device's
    /// resolved configuration. The sink starts with no tracks declared and
    /// nothing written.
    pub fn record_create(
        &self,
        path: &str,
        device: &Device,
        rt: &NativeRuntime,
        device_configuration: &DeviceConfiguration,
    ) -> (r: Result<Record, Error>)
        ensures
            match r {
                Ok(record) => self.record_create_succeeds && record == Record::new_spec(
                    rt.behavior.sink_writes_succeed,
                ),
                Err(e) => !self.record_create_succeeds && e == Error::Failed,
            },
    {
        let _ = path;
        let _ = device;
        let _ = device_configuration;
        if self.record_create_succeeds {
            Ok(Record::new(rt.behavior.sink_writes_succeed))
        } else {
            Err(Error::Failed)
        }
    }
}

} // verus!
