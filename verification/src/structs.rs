//! Plain value types shared across the system: image dimensions, value
//! ranges, hardware version records, color-control capabilities, and the
//! recording/track settings the sink is configured with.

use vstd::prelude::*;
use crate::enums::{
    ColorControlMode, ColorResolution, DepthMode, FirmwareBuildType, FirmwareSignatureType, Fps,
    ImageFormat, WiredSyncMode,
};

verus! {

/// Width and height of an image, in pixels.
#[derive(Clone, Copy, Debug, PartialEq, Eq, Structural)]
pub struct Dimension {
    pub width: i32,
    pub height: i32,
}

/// An inclusive value range.
#[derive(Clone, Copy, Debug, PartialEq, Eq, Structural)]
pub struct Range<T> {
    pub min: T,
    pub max: T,
}

/// A three-part version number of one hardware subsystem.
#[derive(Clone, Copy, Debug, PartialEq, Eq, Structural)]
pub struct Version {
    pub major: u32,
    pub minor: u32,
    pub iteration: u32,
}

/// Version numbers of the device's firmware subsystems.
#[derive(Clone, Copy, Debug, PartialEq, Eq, Structural)]
pub struct HardwareVersion {
    pub rgb: Version,
    pub depth: Version,
    pub audio: Version,
    pub depth_sensor: Version,
    pub firmware_build: FirmwareBuildType,
    pub firmware_signature: FirmwareSignatureType,
}

/// What a color sensor control supports, as reported by the device.
#[derive(Clone, Copy, Debug, PartialEq, Eq, Structural)]
pub struct ColorControlCapabilities {
    pub supports_auto: bool,
    pub min_value: i32,
    pub max_value: i32,
    pub step_value: i32,
    pub default_value: i32,
    pub default_mode: ColorControlMode,
}

/// Settings of a custom video track in a recording.
#[derive(Clone, Copy, Debug, PartialEq, Eq, Structural)]
pub struct RecordVideoSettings {
    width: u64,
    height: u64,
    frame_rate: u64,
}

impl RecordVideoSettings {
    pub fn new(width: u64, height: u64, frame_rate: u64) -> (r: RecordVideoSettings)
        ensures
            r.width() == width,
            r.height() == height,
            r.frame_rate() == frame_rate,
    {
        RecordVideoSettings { width, height, frame_rate }
    }

    /// Frame width of the video.
    pub closed spec fn spec_width(&self) -> u64 {
        self.width
    }

    #[verifier::when_used_as_spec(spec_width)]
    pub fn width(&self) -> (r: u64)
        ensures
            r == self.spec_width(),
    {
        self.width
    }

    /// Frame height of the video.
    pub closed spec fn spec_height(&self) -> u64 {
        self.height
    }

    #[verifier::when_used_as_spec(spec_height)]
    pub fn height(&self) -> (r: u64)
        ensures
            r == self.spec_height(),
    {
        self.height
    }

    /// Frame rate (frames-per-second) of the video.
    pub closed spec fn spec_frame_rate(&self) -> u64 {
        self.frame_rate
    }

    #[verifier::when_used_as_spec(spec_frame_rate)]
    pub fn frame_rate(&self) -> (r: u64)
        ensures
            r == self.spec_frame_rate(),
    {
        self.frame_rate
    }
}

/// Settings of a custom subtitle track in a recording.
#[derive(Clone, Copy, Debug, PartialEq, Eq, Structural)]
pub struct RecordSubtitleSettings {
    high_freq_data: bool,
}

impl RecordSubtitleSettings {
    pub fn new(high_freq_data: bool) -> (r: RecordSubtitleSettings)
        ensures
            r.high_freq_data() == high_freq_data,
    {
        RecordSubtitleSettings { high_freq_data }
    }

    pub closed spec fn spec_high_freq_data(&self) -> bool {
        self.high_freq_data
    }

    #[verifier::when_used_as_spec(spec_high_freq_data)]
    pub fn high_freq_data(&self) -> (r: bool)
        ensures
            r == self.spec_high_freq_data(),
    {
        self.high_freq_data
    }
}

/// An image size in pixels, as a transformation target.
#[derive(Clone, Copy, Debug, PartialEq, Eq, Structural)]
pub struct Resolution {
    pub width: i32,
    pub height: i32,
}

/// How an existing recording was configured, as read back from its header.
#[derive(Clone, Copy, Debug, PartialEq, Eq, Structural)]
pub struct RecordConfiguration {
    pub color_format: ImageFormat,
    pub color_resolution: ColorResolution,
    pub depth_mode: DepthMode,
    pub camera_fps: Fps,
    pub color_track_enabled: bool,
    pub depth_track_enabled: bool,
    pub ir_track_enabled: bool,
    pub imu_track_enabled: bool,
    pub depth_delay_off_color_usec: i32,
    pub wired_sync_mode: WiredSyncMode,
    pub subordinate_delay_off_master_usec: u32,
    pub start_timestamp_offset_usec: u32,
}

impl RecordConfiguration {
    /// Image format used to record the color camera.
    pub fn color_format(&self) -> (r: ImageFormat)
        ensures
            r == self.color_format,
    {
        self.color_format
    }

    /// Image resolution used to record the color camera.
    pub fn color_resolution(&self) -> (r: ColorResolution)
        ensures
            r == self.color_resolution,
    {
        self.color_resolution
    }

    /// Mode used to record the depth camera.
    pub fn depth_mode(&self) -> (r: DepthMode)
        ensures
            r == self.depth_mode,
    {
        self.depth_mode
    }

    /// Frame rate used to record the color and depth camera.
    pub fn camera_fps(&self) -> (r: Fps)
        ensures
            r == self.camera_fps,
    {
        self.camera_fps
    }

    /// True if the recording contains color camera frames.
    pub fn color_track_enabled(&self) -> (r: bool)
        ensures
            r == self.color_track_enabled,
    {
        self.color_track_enabled
    }

    /// True if the recording contains depth camera frames.
    pub fn depth_track_enabled(&self) -> (r: bool)
        ensures
            r == self.depth_track_enabled,
    {
        self.depth_track_enabled
    }

    /// True if the recording contains IR camera frames.
    pub fn ir_track_enabled(&self) -> (r: bool)
        ensures
            r == self.ir_track_enabled,
    {
        self.ir_track_enabled
    }

    /// True if the recording contains IMU sample data.
    pub fn imu_track_enabled(&self) -> (r: bool)
        ensures
            r == self.imu_track_enabled,
    {
        self.imu_track_enabled
    }

    /// The delay between color and depth images in the recording.
    pub fn depth_delay_off_color_usec(&self) -> (r: i32)
        ensures
            r == self.depth_delay_off_color_usec,
    {
        self.depth_delay_off_color_usec
    }

    /// External synchronization mode of the recorded device.
    pub fn wired_sync_mode(&self) -> (r: WiredSyncMode)
        ensures
            r == self.wired_sync_mode,
    {
        self.wired_sync_mode
    }

    /// The delay between this recording and its externally synced master.
    pub fn subordinate_delay_off_master_usec(&self) -> (r: u32)
        ensures
            r == self.subordinate_delay_off_master_usec,
    {
        self.subordinate_delay_off_master_usec
    }

    /// The timestamp offset of the start of the recording.
    pub fn start_timestamp_offset_usec(&self) -> (r: u32)
        ensures
            r == self.start_timestamp_offset_usec,
    {
        self.start_timestamp_offset_usec
    }
}

} // verus!
