//! The enumerated settings and modes of the sensor runtime, with their
//! native wire encodings and the per-mode constants (image dimensions,
//! depth ranges, frame rates) that the rest of the system depends on.

use vstd::prelude::*;
use crate::structs::{Dimension, Range};

verus! {

/// Verbosity levels of debug messaging.
#[derive(Clone, Copy, Debug, PartialEq, Eq, Structural)]
pub enum LogLevel {
    Critical,
    Error,
    Warning,
    Info,
    Trace,
    Off,
}

impl LogLevel {
    pub open spec fn spec_as_primitive(self) -> u32 {
        match self {
            LogLevel::Critical => 0,
            LogLevel::Error => 1,
            LogLevel::Warning => 2,
            LogLevel::Info => 3,
            LogLevel::Trace => 4,
            LogLevel::Off => 5,
        }
    }

    pub fn as_primitive(self) -> (r: u32)
        ensures
            r == self.spec_as_primitive(),
    {
        match self {
            LogLevel::Critical => 0,
            LogLevel::Error => 1,
            LogLevel::Warning => 2,
            LogLevel::Info => 3,
            LogLevel::Trace => 4,
            LogLevel::Off => 5,
        }
    }

    pub fn from_primitive(s: u32) -> (r: Option<LogLevel>)
        ensures
            match r {
                Some(v) => v.spec_as_primitive() == s,
                None => s > 5,
            },
    {
        match s {
            0 => Some(LogLevel::Critical),
            1 => Some(LogLevel::Error),
            2 => Some(LogLevel::Warning),
            3 => Some(LogLevel::Info),
            4 => Some(LogLevel::Trace),
            5 => Some(LogLevel::Off),
            _ => None,
        }
    }
}

/// Capture mode of the depth camera.
#[derive(Clone, Copy, Debug, PartialEq, Eq, Structural)]
pub enum DepthMode {
    Off,
    NFov2x2Binned,
    NFovUnbinned,
    WFov2x2Binned,
    WFovUnbinned,
    PassiveIr,
}

impl DepthMode {
    pub open spec fn spec_as_primitive(self) -> u32 {
        match self {
            DepthMode::Off => 0,
            DepthMode::NFov2x2Binned => 1,
            DepthMode::NFovUnbinned => 2,
            DepthMode::WFov2x2Binned => 3,
            DepthMode::WFovUnbinned => 4,
            DepthMode::PassiveIr => 5,
        }
    }

    pub fn as_primitive(self) -> (r: u32)
        ensures
            r == self.spec_as_primitive(),
    {
        match self {
            DepthMode::Off => 0,
            DepthMode::NFov2x2Binned => 1,
            DepthMode::NFovUnbinned => 2,
            DepthMode::WFov2x2Binned => 3,
            DepthMode::WFovUnbinned => 4,
            DepthMode::PassiveIr => 5,
        }
    }

    pub fn from_primitive(s: u32) -> (r: Option<DepthMode>)
        ensures
            match r {
                Some(v) => v.spec_as_primitive() == s,
                None => s > 5,
            },
    {
        match s {
            0 => Some(DepthMode::Off),
            1 => Some(DepthMode::NFov2x2Binned),
            2 => Some(DepthMode::NFovUnbinned),
            3 => Some(DepthMode::WFov2x2Binned),
            4 => Some(DepthMode::WFovUnbinned),
            5 => Some(DepthMode::PassiveIr),
            _ => None,
        }
    }

    /// The image dimensions the depth camera produces in this mode.
    pub open spec fn spec_dimension(self) -> Dimension {
        match self {
            DepthMode::NFov2x2Binned => Dimension { width: 320, height: 288 },
            DepthMode::NFovUnbinned => Dimension { width: 640, height: 576 },
            DepthMode::WFov2x2Binned => Dimension { width: 512, height: 512 },
            DepthMode::WFovUnbinned => Dimension { width: 1024, height: 1024 },
            DepthMode::PassiveIr => Dimension { width: 1024, height: 1024 },
            DepthMode::Off => Dimension { width: 0, height: 0 },
        }
    }

    /// Gets the dimensions of the depth images that the depth camera will
    /// produce for a given depth mode.
    pub fn get_dimension(&self) -> (r: Dimension)
        ensures
            r == self.spec_dimension(),
    {
        match self {
            DepthMode::NFov2x2Binned => Dimension { width: 320, height: 288 },
            DepthMode::NFovUnbinned => Dimension { width: 640, height: 576 },
            DepthMode::WFov2x2Binned => Dimension { width: 512, height: 512 },
            DepthMode::WFovUnbinned => Dimension { width: 1024, height: 1024 },
            DepthMode::PassiveIr => Dimension { width: 1024, height: 1024 },
            DepthMode::Off => Dimension { width: 0, height: 0 },
        }
    }

    /// The range of depth values expected in this mode, in millimeters.
    pub open spec fn spec_range(self) -> Range<u16> {
        match self {
            DepthMode::NFov2x2Binned => Range { min: 500u16, max: 5800u16 },
            DepthMode::NFovUnbinned => Range { min: 500u16, max: 4000u16 },
            DepthMode::WFov2x2Binned => Range { min: 250u16, max: 3000u16 },
            DepthMode::WFovUnbinned => Range { min: 250u16, max: 2500u16 },
            _ => Range { min: 0u16, max: 0u16 },
        }
    }

    /// Gets the range of values that we expect to see from the depth camera
    /// when using a given depth mode, in millimeters.
    pub fn get_range(&self) -> (r: Range<u16>)
        ensures
            r == self.spec_range(),
    {
        match self {
            DepthMode::NFov2x2Binned => Range { min: 500u16, max: 5800u16 },
            DepthMode::NFovUnbinned => Range { min: 500u16, max: 4000u16 },
            DepthMode::WFov2x2Binned => Range { min: 250u16, max: 3000u16 },
            DepthMode::WFovUnbinned => Range { min: 250u16, max: 2500u16 },
            _ => Range { min: 0u16, max: 0u16 },
        }
    }

    /// The expected min/max IR brightness levels in this mode.
    pub open spec fn spec_ir_level(self) -> Range<u16> {
        match self {
            DepthMode::PassiveIr => Range { min: 250u16, max: 3000u16 },
            DepthMode::Off => Range { min: 0u16, max: 0u16 },
            _ => Range { min: 0u16, max: 1000u16 },
        }
    }

    /// Gets the expected min/max IR brightness levels that we expect to see
    /// from the IR camera when using a given depth mode.
    pub fn get_ir_level(&self) -> (r: Range<u16>)
        ensures
            r == self.spec_ir_level(),
    {
        match self {
            DepthMode::PassiveIr => Range { min: 250u16, max: 3000u16 },
            DepthMode::Off => Range { min: 0u16, max: 0u16 },
            _ => Range { min: 0u16, max: 1000u16 },
        }
    }
}

/// Capture resolution of the color camera.
#[derive(Clone, Copy, Debug, PartialEq, Eq, Structural)]
pub enum ColorResolution {
    Off,
    _720p,
    _1080p,
    _1440p,
    _1536p,
    _2160p,
    _3072p,
}

impl ColorResolution {
    pub open spec fn spec_as_primitive(self) -> u32 {
        match self {
            ColorResolution::Off => 0,
            ColorResolution::_720p => 1,
            ColorResolution::_1080p => 2,
            ColorResolution::_1440p => 3,
            ColorResolution::_1536p => 4,
            ColorResolution::_2160p => 5,
            ColorResolution::_3072p => 6,
        }
    }

    pub fn as_primitive(self) -> (r: u32)
        ensures
            r == self.spec_as_primitive(),
    {
        match self {
            ColorResolution::Off => 0,
            ColorResolution::_720p => 1,
            ColorResolution::_1080p => 2,
            ColorResolution::_1440p => 3,
            ColorResolution::_1536p => 4,
            ColorResolution::_2160p => 5,
            ColorResolution::_3072p => 6,
        }
    }

    pub fn from_primitive(s: u32) -> (r: Option<ColorResolution>)
        ensures
            match r {
                Some(v) => v.spec_as_primitive() == s,
                None => s > 6,
            },
    {
        match s {
            0 => Some(ColorResolution::Off),
            1 => Some(ColorResolution::_720p),
            2 => Some(ColorResolution::_1080p),
            3 => Some(ColorResolution::_1440p),
            4 => Some(ColorResolution::_1536p),
            5 => Some(ColorResolution::_2160p),
            6 => Some(ColorResolution::_3072p),
            _ => None,
        }
    }

    /// The image dimensions the color camera produces at this resolution.
    pub open spec fn spec_dimension(self) -> Dimension {
        match self {
            ColorResolution::_720p => Dimension { width: 1280, height: 720 },
            ColorResolution::_1080p => Dimension { width: 1920, height: 1080 },
            ColorResolution::_1440p => Dimension { width: 2560, height: 1440 },
            ColorResolution::_1536p => Dimension { width: 2048, height: 1536 },
            ColorResolution::_2160p => Dimension { width: 3840, height: 2160 },
            ColorResolution::_3072p => Dimension { width: 4096, height: 3072 },
            ColorResolution::Off => Dimension { width: 0, height: 0 },
        }
    }

    /// Gets the dimensions of the color images that the color camera will
    /// produce for a given color resolution.
    pub fn get_dimension(&self) -> (r: Dimension)
        ensures
            r == self.spec_dimension(),
    {
        match self {
            ColorResolution::_720p => Dimension { width: 1280, height: 720 },
            ColorResolution::_1080p => Dimension { width: 1920, height: 1080 },
            ColorResolution::_1440p => Dimension { width: 2560, height: 1440 },
            ColorResolution::_1536p => Dimension { width: 2048, height: 1536 },
            ColorResolution::_2160p => Dimension { width: 3840, height: 2160 },
            ColorResolution::_3072p => Dimension { width: 4096, height: 3072 },
            ColorResolution::Off => Dimension { width: 0, height: 0 },
        }
    }
}

/// Image format type.
#[derive(Clone, Copy, Debug, PartialEq, Eq, Structural)]
pub enum ImageFormat {
    MJPG,
    NV12,
    YUY2,
    BGRA32,
    Depth16,
    IR16,
    Custom8,
    Custom16,
    Custom,
}

impl ImageFormat {
    pub open spec fn spec_as_primitive(self) -> u32 {
        match self {
            ImageFormat::MJPG => 0,
            ImageFormat::NV12 => 1,
            ImageFormat::YUY2 => 2,
            ImageFormat::BGRA32 => 3,
            ImageFormat::Depth16 => 4,
            ImageFormat::IR16 => 5,
            ImageFormat::Custom8 => 6,
            ImageFormat::Custom16 => 7,
            ImageFormat::Custom => 8,
        }
    }

    pub fn as_primitive(self) -> (r: u32)
        ensures
            r == self.spec_as_primitive(),
    {
        match self {
            ImageFormat::MJPG => 0,
            ImageFormat::NV12 => 1,
            ImageFormat::YUY2 => 2,
            ImageFormat::BGRA32 => 3,
            ImageFormat::Depth16 => 4,
            ImageFormat::IR16 => 5,
            ImageFormat::Custom8 => 6,
            ImageFormat::Custom16 => 7,
            ImageFormat::Custom => 8,
        }
    }

    pub fn from_primitive(s: u32) -> (r: Option<ImageFormat>)
        ensures
            match r {
                Some(v) => v.spec_as_primitive() == s,
                None => s > 8,
            },
    {
        match s {
            0 => Some(ImageFormat::MJPG),
            1 => Some(ImageFormat::NV12),
            2 => Some(ImageFormat::YUY2),
            3 => Some(ImageFormat::BGRA32),
            4 => Some(ImageFormat::Depth16),
            5 => Some(ImageFormat::IR16),
            6 => Some(ImageFormat::Custom8),
            7 => Some(ImageFormat::Custom16),
            8 => Some(ImageFormat::Custom),
            _ => None,
        }
    }
}

/// Transformation interpolation type.
#[derive(Clone, Copy, Debug, PartialEq, Eq, Structural)]
pub enum TransformationInterpolationType {
    Nearest,
    Linear,
}

impl TransformationInterpolationType {
    pub open spec fn spec_as_primitive(self) -> u32 {
        match self {
            TransformationInterpolationType::Nearest => 0,
            TransformationInterpolationType::Linear => 1,
        }
    }

    pub fn as_primitive(self) -> (r: u32)
        ensures
            r == self.spec_as_primitive(),
    {
        match self {
            TransformationInterpolationType::Nearest => 0,
            TransformationInterpolationType::Linear => 1,
        }
    }
}

/// Frame rate of the color and depth cameras.
#[derive(Clone, Copy, Debug, PartialEq, Eq, Structural)]
pub enum Fps {
    _5fps,
    _15fps,
    _30fps,
}

impl Fps {
    pub open spec fn spec_as_primitive(self) -> u32 {
        match self {
            Fps::_5fps => 0,
            Fps::_15fps => 1,
            Fps::_30fps => 2,
        }
    }

    pub fn as_primitive(self) -> (r: u32)
        ensures
            r == self.spec_as_primitive(),
    {
        match self {
            Fps::_5fps => 0,
            Fps::_15fps => 1,
            Fps::_30fps => 2,
        }
    }

    pub fn from_primitive(s: u32) -> (r: Option<Fps>)
        ensures
            match r {
                Some(v) => v.spec_as_primitive() == s,
                None => s > 2,
            },
    {
        match s {
            0 => Some(Fps::_5fps),
            1 => Some(Fps::_15fps),
            2 => Some(Fps::_30fps),
            _ => None,
        }
    }

    /// The frame rate in frames per second; always positive.
    pub open spec fn spec_get_u32(self) -> u32 {
        match self {
            Fps::_5fps => 5,
            Fps::_15fps => 15,
            Fps::_30fps => 30,
        }
    }

    pub fn get_u32(&self) -> (r: u32)
        ensures
            r == self.spec_get_u32(),
            r > 0,
    {
        match self {
            Fps::_5fps => 5,
            Fps::_15fps => 15,
            Fps::_30fps => 30,
        }
    }
}

/// Color sensor control commands.
#[derive(Clone, Copy, Debug, PartialEq, Eq, Structural)]
pub enum ColorControlCommand {
    ExposureTimeAbsolute,
    AutoExposurePriority,
    Brightness,
    Contrast,
    Saturation,
    Sharpness,
    WhiteBalance,
    BacklightCompensation,
    Gain,
    PowerlineFrequency,
}

impl ColorControlCommand {
    pub open spec fn spec_as_primitive(self) -> u32 {
        match self {
            ColorControlCommand::ExposureTimeAbsolute => 0,
            ColorControlCommand::AutoExposurePriority => 1,
            ColorControlCommand::Brightness => 2,
            ColorControlCommand::Contrast => 3,
            ColorControlCommand::Saturation => 4,
            ColorControlCommand::Sharpness => 5,
            ColorControlCommand::WhiteBalance => 6,
            ColorControlCommand::BacklightCompensation => 7,
            ColorControlCommand::Gain => 8,
            ColorControlCommand::PowerlineFrequency => 9,
        }
    }

    pub fn as_primitive(self) -> (r: u32)
        ensures
            r == self.spec_as_primitive(),
    {
        match self {
            ColorControlCommand::ExposureTimeAbsolute => 0,
            ColorControlCommand::AutoExposurePriority => 1,
            ColorControlCommand::Brightness => 2,
            ColorControlCommand::Contrast => 3,
            ColorControlCommand::Saturation => 4,
            ColorControlCommand::Sharpness => 5,
            ColorControlCommand::WhiteBalance => 6,
            ColorControlCommand::BacklightCompensation => 7,
            ColorControlCommand::Gain => 8,
            ColorControlCommand::PowerlineFrequency => 9,
        }
    }
}

/// Whether a color sensor control is driven automatically or manually.
#[derive(Clone, Copy, Debug, PartialEq, Eq, Structural)]
pub enum ColorControlMode {
    Auto,
    Manual,
}

impl ColorControlMode {
    pub open spec fn spec_as_primitive(self) -> u32 {
        match self {
            ColorControlMode::Auto => 0,
            ColorControlMode::Manual => 1,
        }
    }

    pub fn as_primitive(self) -> (r: u32)
        ensures
            r == self.spec_as_primitive(),
    {
        match self {
            ColorControlMode::Auto => 0,
            ColorControlMode::Manual => 1,
        }
    }
}

/// Synchronization role when connecting two or more devices together.
#[derive(Clone, Copy, Debug, PartialEq, Eq, Structural)]
pub enum WiredSyncMode {
    Standalone,
    Master,
    Subordinate,
}

impl WiredSyncMode {
    pub open spec fn spec_as_primitive(self) -> u32 {
        match self {
            WiredSyncMode::Standalone => 0,
            WiredSyncMode::Master => 1,
            WiredSyncMode::Subordinate => 2,
        }
    }

    pub fn as_primitive(self) -> (r: u32)
        ensures
            r == self.spec_as_primitive(),
    {
        match self {
            WiredSyncMode::Standalone => 0,
            WiredSyncMode::Master => 1,
            WiredSyncMode::Subordinate => 2,
        }
    }

    pub fn from_primitive(s: u32) -> (r: Option<WiredSyncMode>)
        ensures
            match r {
                Some(v) => v.spec_as_primitive() == s,
                None => s > 2,
            },
    {
        match s {
            0 => Some(WiredSyncMode::Standalone),
            1 => Some(WiredSyncMode::Master),
            2 => Some(WiredSyncMode::Subordinate),
            _ => None,
        }
    }
}

/// Calibration types.
#[derive(Clone, Copy, Debug, PartialEq, Eq, Structural)]
pub enum CalibrationType {
    Unknown,
    Depth,
    Color,
    Gyro,
    Accel,
}

impl CalibrationType {
    pub open spec fn spec_as_primitive(self) -> i32 {
        match self {
            CalibrationType::Unknown => -1i32,
            CalibrationType::Depth => 0,
            CalibrationType::Color => 1,
            CalibrationType::Gyro => 2,
            CalibrationType::Accel => 3,
        }
    }

    pub fn as_primitive(self) -> (r: i32)
        ensures
            r == self.spec_as_primitive(),
    {
        match self {
            CalibrationType::Unknown => -1i32,
            CalibrationType::Depth => 0,
            CalibrationType::Color => 1,
            CalibrationType::Gyro => 2,
            CalibrationType::Accel => 3,
        }
    }
}

/// Calibration model type.
#[derive(Clone, Copy, Debug, PartialEq, Eq, Structural)]
pub enum CalibrationModelType {
    Unknown,
    Theta,
    Polynomial3K,
    Rational6KT,
    BrownConrady,
}

impl CalibrationModelType {
    pub open spec fn spec_as_primitive(self) -> u32 {
        match self {
            CalibrationModelType::Unknown => 0,
            CalibrationModelType::Theta => 1,
            CalibrationModelType::Polynomial3K => 2,
            CalibrationModelType::Rational6KT => 3,
            CalibrationModelType::BrownConrady => 4,
        }
    }

    pub fn as_primitive(self) -> (r: u32)
        ensures
            r == self.spec_as_primitive(),
    {
        match self {
            CalibrationModelType::Unknown => 0,
            CalibrationModelType::Theta => 1,
            CalibrationModelType::Polynomial3K => 2,
            CalibrationModelType::Rational6KT => 3,
            CalibrationModelType::BrownConrady => 4,
        }
    }
}

/// Firmware build type.
#[derive(Clone, Copy, Debug, PartialEq, Eq, Structural)]
pub enum FirmwareBuildType {
    Release,
    Debug,
}

impl FirmwareBuildType {
    pub open spec fn spec_as_primitive(self) -> u32 {
        match self {
            FirmwareBuildType::Release => 0,
            FirmwareBuildType::Debug => 1,
        }
    }

    pub fn as_primitive(self) -> (r: u32)
        ensures
            r == self.spec_as_primitive(),
    {
        match self {
            FirmwareBuildType::Release => 0,
            FirmwareBuildType::Debug => 1,
        }
    }
}

/// Firmware signature type.
#[derive(Clone, Copy, Debug, PartialEq, Eq, Structural)]
pub enum FirmwareSignatureType {
    Microsoft,
    Test,
    Unsigned,
}

impl FirmwareSignatureType {
    pub open spec fn spec_as_primitive(self) -> u32 {
        match self {
            FirmwareSignatureType::Microsoft => 0,
            FirmwareSignatureType::Test => 1,
            FirmwareSignatureType::Unsigned => 2,
        }
    }

    pub fn as_primitive(self) -> (r: u32)
        ensures
            r == self.spec_as_primitive(),
    {
        match self {
            FirmwareSignatureType::Microsoft => 0,
            FirmwareSignatureType::Test => 1,
            FirmwareSignatureType::Unsigned => 2,
        }
    }
}

} // verus!
