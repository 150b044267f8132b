//! Stream configuration of a device: a plain value describing the formats,
//! modes, frame rate and synchronization settings the cameras are started
//! with. Constructed through a builder that fills defaults and allows
//! field-by-field overrides; copied by value wherever consumed.

use vstd::prelude::*;
use crate::camera::Camera;
use crate::enums::{ColorControlCommand, ColorControlMode, ColorResolution, DepthMode, Fps,
    ImageFormat, WiredSyncMode};
use crate::error::{Error, K4A_BUFFER_RESULT_SUCCEEDED, K4A_BUFFER_RESULT_TOO_SMALL};
use crate::runtime::{ColorControlWrite, NativeRuntime};
use crate::structs::HardwareVersion;
use crate::utility::{get_k4a_string, lemma_probe_string_round_trip};

verus! {

/// An open device. Created by opening an index, destroyed by the close,
/// which consumes it; the camera and IMU streams it produces borrow it, so
/// the close cannot be written while either stream lives.
pub struct Device {
    /// The device serial number, as the hardware reports it.
    pub serial_number: String,
    /// The firmware versions of the device's subsystems.
    pub version: HardwareVersion,
}

impl Device {
    /// Gets the device serial number, through the two-call probe protocol:
    /// one call to learn the size, one call to fill a buffer of exactly that
    /// size. A device that reports an empty serial number yields the
    /// `TooSmall` probe error.
    pub fn get_serialnum(&self) -> (r: Result<String, Error>)
        requires
            self.serial_number@.len() < usize::MAX,
        ensures
            match r {
                Ok(s) => self.serial_number@.len() > 0 && s == self.serial_number,
                Err(e) => self.serial_number@.len() == 0 && e == Error::TooSmall,
            },
    {
        let serial = &self.serial_number;
        let fetch = |cap: usize| -> (ret: (u32, usize, String))
            ensures
                cap == 0 ==> ret.0 == K4A_BUFFER_RESULT_TOO_SMALL && ret.1 == serial@.len() + 1,
                cap != 0 ==> ret.0 == K4A_BUFFER_RESULT_SUCCEEDED && ret.2 == *serial,
            {
                if cap == 0 {
                    (K4A_BUFFER_RESULT_TOO_SMALL, serial.unicode_len() + 1, String::new())
                } else {
                    (K4A_BUFFER_RESULT_SUCCEEDED, serial.unicode_len() + 1, serial.clone())
                }
            };
        let r = get_k4a_string(&fetch);
        proof {
            if self.serial_number@.len() > 0 {
                lemma_probe_string_round_trip(
                    fetch,
                    (self.serial_number@.len() + 1) as usize,
                    self.serial_number,
                    r,
                );
            }
        }
        r
    }

    /// Gets the version numbers of the device's firmware subsystems.
    pub fn get_version(&self) -> (r: Result<HardwareVersion, Error>)
        ensures
            r == Ok::<HardwareVersion, Error>(self.version),
    {
        Ok(self.version)
    }

    /// Sets one color sensor control. An accepted write is recorded in the
    /// runtime's control log; a rejected write leaves no trace. The device
    /// itself is unchanged either way.
    pub fn set_color_control(
        &mut self,
        rt: &mut NativeRuntime,
        command: ColorControlCommand,
        mode: ColorControlMode,
        value: i32,
    ) -> (r: Result<(), Error>)
        ensures
            *final(self) == *old(self),
            r == Ok::<(), Error>(()) <==> old(rt).behavior.color_control_succeeds,
            old(rt).behavior.color_control_succeeds ==> final(rt).color_controls@ == old(rt).color_controls@.push(ColorControlWrite { command, mode, value }),
            !old(rt).behavior.color_control_succeeds ==> r == Err::<(), Error>(Error::Failed)
                && final(rt).color_controls == old(rt).color_controls,
            final(rt).ledger == old(rt).ledger,
            final(rt).captures == old(rt).captures,
            final(rt).imu == old(rt).imu,
            final(rt).clock_ms == old(rt).clock_ms,
            final(rt).cameras_running == old(rt).cameras_running,
            final(rt).imu_running == old(rt).imu_running,
            final(rt).behavior == old(rt).behavior,
    {
        if rt.behavior.color_control_succeeds {
            rt.color_controls.push(ColorControlWrite { command, mode, value });
            Ok(())
        } else {
            Err(Error::Failed)
        }
    }

    /// Starts the camera streams with the given configuration. The returned
    /// stream borrows this device; its stop call must come before the device
    /// can be closed.
    pub fn start_cameras<'a>(
        &'a self,
        rt: &mut NativeRuntime,
        configuration: &DeviceConfiguration,
    ) -> (r: Result<Camera<'a>, Error>)
        ensures
            if old(rt).behavior.start_cameras_succeeds && !old(rt).cameras_running {
                r is Ok && *final(rt) == (NativeRuntime { cameras_running: true, ..*old(rt) })
            } else {
                r == Err::<Camera<'a>, Error>(Error::Failed) && *final(rt) == *old(rt)
            },
    {
        let _ = configuration;
        Camera::new(self, rt)
    }

    /// Closes the device, exactly once: the device is consumed. No camera or
    /// IMU stream can still borrow it here, so every stop call has already
    /// happened.
    pub fn close(self) {
    }
}

/// Configuration the color and depth cameras are started with.
#[derive(Clone, Copy, Debug, PartialEq, Eq, Structural)]
pub struct DeviceConfiguration {
    pub color_format: ImageFormat,
    pub color_resolution: ColorResolution,
    pub depth_mode: DepthMode,
    pub camera_fps: Fps,
    pub synchronized_images_only: bool,
    pub depth_delay_off_color_usec: i32,
    pub wired_sync_mode: WiredSyncMode,
    pub subordinate_delay_off_master_usec: u32,
    pub disable_streaming_indicator: bool,
}

/// The all-streams-disabled configuration every builder starts from.
pub open spec fn spec_disabled_configuration() -> DeviceConfiguration {
    DeviceConfiguration {
        color_format: ImageFormat::MJPG,
        color_resolution: ColorResolution::Off,
        depth_mode: DepthMode::Off,
        camera_fps: Fps::_5fps,
        synchronized_images_only: false,
        depth_delay_off_color_usec: 0,
        wired_sync_mode: WiredSyncMode::Standalone,
        subordinate_delay_off_master_usec: 0,
        disable_streaming_indicator: false,
    }
}

impl DeviceConfiguration {
    pub fn builder() -> (r: DeviceConfigurationBuilder)
        ensures
            r.value == spec_disabled_configuration(),
    {
        DeviceConfigurationBuilder {
            value: DeviceConfiguration {
                color_format: ImageFormat::MJPG,
                color_resolution: ColorResolution::Off,
                depth_mode: DepthMode::Off,
                camera_fps: Fps::_5fps,
                synchronized_images_only: false,
                depth_delay_off_color_usec: 0,
                wired_sync_mode: WiredSyncMode::Standalone,
                subordinate_delay_off_master_usec: 0,
                disable_streaming_indicator: false,
            },
        }
    }

    /// Image format to capture with the color camera.
    pub fn color_format(&self) -> (r: ImageFormat)
        ensures
            r == self.color_format,
    {
        self.color_format
    }

    /// Image resolution to capture with the color camera.
    pub fn color_resolution(&self) -> (r: ColorResolution)
        ensures
            r == self.color_resolution,
    {
        self.color_resolution
    }

    /// Capture mode for the depth camera.
    pub fn depth_mode(&self) -> (r: DepthMode)
        ensures
            r == self.depth_mode,
    {
        self.depth_mode
    }

    /// Desired frame rate for the color and depth camera.
    pub fn camera_fps(&self) -> (r: Fps)
        ensures
            r == self.camera_fps,
    {
        self.camera_fps
    }

    /// Only produce captures that contain synchronized color and depth
    /// images.
    pub fn synchronized_images_only(&self) -> (r: bool)
        ensures
            r == self.synchronized_images_only,
    {
        self.synchronized_images_only
    }

    /// Desired delay between the capture of the color image and the capture
    /// of the depth image.
    pub fn depth_delay_off_color_usec(&self) -> (r: i32)
        ensures
            r == self.depth_delay_off_color_usec,
    {
        self.depth_delay_off_color_usec
    }

    /// The external synchronization mode.
    pub fn wired_sync_mode(&self) -> (r: WiredSyncMode)
        ensures
            r == self.wired_sync_mode,
    {
        self.wired_sync_mode
    }

    /// The external synchronization timing.
    pub fn subordinate_delay_off_master_usec(&self) -> (r: u32)
        ensures
            r == self.subordinate_delay_off_master_usec,
    {
        self.subordinate_delay_off_master_usec
    }

    /// Whether the streaming indicator light is suppressed while the cameras
    /// are in use.
    pub fn disable_streaming_indicator(&self) -> (r: bool)
        ensures
            r == self.disable_streaming_indicator,
    {
        self.disable_streaming_indicator
    }
}

impl Default for DeviceConfiguration {
    fn default() -> (r: DeviceConfiguration)
        ensures
            r == spec_disabled_configuration(),
    {
        DeviceConfiguration::builder().build()
    }
}

/// Builds a [`DeviceConfiguration`] by overriding fields of the disabled
/// default, one at a time.
#[derive(Clone, Copy, Debug)]
pub struct DeviceConfigurationBuilder {
    pub value: DeviceConfiguration,
}

impl DeviceConfigurationBuilder {
    /// Image format to capture with the color camera.
    pub fn color_format(self, value: ImageFormat) -> (r: DeviceConfigurationBuilder)
        ensures
            r.value == (DeviceConfiguration {
                color_format: value,
                ..self.value
            }),
    {
        DeviceConfigurationBuilder {
            value: DeviceConfiguration { color_format: value, ..self.value },
        }
    }

    /// Image resolution to capture with the color camera.
    pub fn color_resolution(self, value: ColorResolution) -> (r: DeviceConfigurationBuilder)
        ensures
            r.value == (DeviceConfiguration {
                color_resolution: value,
                ..self.value
            }),
    {
        DeviceConfigurationBuilder {
            value: DeviceConfiguration { color_resolution: value, ..self.value },
        }
    }

    /// Capture mode for the depth camera.
    pub fn depth_mode(self, value: DepthMode) -> (r: DeviceConfigurationBuilder)
        ensures
            r.value == (DeviceConfiguration {
                depth_mode: value,
                ..self.value
            }),
    {
        DeviceConfigurationBuilder {
            value: DeviceConfiguration { depth_mode: value, ..self.value },
        }
    }

    /// Desired frame rate for the color and depth camera.
    pub fn camera_fps(self, value: Fps) -> (r: DeviceConfigurationBuilder)
        ensures
            r.value == (DeviceConfiguration {
                camera_fps: value,
                ..self.value
            }),
    {
        DeviceConfigurationBuilder {
            value: DeviceConfiguration { camera_fps: value, ..self.value },
        }
    }

    /// Only produce captures that contain synchronized color and depth
    /// images.
    pub fn synchronized_images_only(self, value: bool) -> (r: DeviceConfigurationBuilder)
        ensures
            r.value == (DeviceConfiguration {
                synchronized_images_only: value,
                ..self.value
            }),
    {
        DeviceConfigurationBuilder {
            value: DeviceConfiguration { synchronized_images_only: value, ..self.value },
        }
    }

    /// Desired delay between the capture of the color image and the capture
    /// of the depth image.
    pub fn depth_delay_off_color_usec(self, value: i32) -> (r: DeviceConfigurationBuilder)
        ensures
            r.value == (DeviceConfiguration {
                depth_delay_off_color_usec: value,
                ..self.value
            }),
    {
        DeviceConfigurationBuilder {
            value: DeviceConfiguration { depth_delay_off_color_usec: value, ..self.value },
        }
    }

    /// The external synchronization mode.
    pub fn wired_sync_mode(self, value: WiredSyncMode) -> (r: DeviceConfigurationBuilder)
        ensures
            r.value == (DeviceConfiguration {
                wired_sync_mode: value,
                ..self.value
            }),
    {
        DeviceConfigurationBuilder {
            value: DeviceConfiguration { wired_sync_mode: value, ..self.value },
        }
    }

    /// The external synchronization timing.
    pub fn subordinate_delay_off_master_usec(self, value: u32) -> (r: DeviceConfigurationBuilder)
        ensures
            r.value == (DeviceConfiguration {
                subordinate_delay_off_master_usec: value,
                ..self.value
            }),
    {
        DeviceConfigurationBuilder {
            value: DeviceConfiguration {
                subordinate_delay_off_master_usec: value,
                ..self.value
            },
        }
    }

    /// Whether the streaming indicator light is suppressed while the cameras
    /// are in use.
    pub fn disable_streaming_indicator(self, value: bool) -> (r: DeviceConfigurationBuilder)
        ensures
            r.value == (DeviceConfiguration {
                disable_streaming_indicator: value,
                ..self.value
            }),
    {
        DeviceConfigurationBuilder {
            value: DeviceConfiguration { disable_streaming_indicator: value, ..self.value },
        }
    }

    pub fn build(&self) -> (r: DeviceConfiguration)
        ensures
            r == self.value,
    {
        self.value
    }
}

} // verus!
