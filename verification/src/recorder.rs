//! The recording controller: deadline selection, loop cadence, cooperative
//! termination, and the capture-and-record control loop itself.

use vstd::prelude::*;
use crate::enums::{ColorControlCommand, ColorControlMode, ColorResolution, DepthMode, Fps,
    WiredSyncMode};
use crate::factory::FactoryRecord;
use crate::param::Parameter;
use crate::record::{Record, RecordPhase};
use crate::runtime::{spec_frames_in, ColorControlWrite, NativeRuntime, PollOutcome};

verus! {

/// A fatal recorder error, carrying a human-readable message that names the
/// operation that failed.
#[derive(Debug)]
pub enum Error<'a> {
    ErrorStr(&'a str),
    Error(String),
}

impl<'a> Error<'a> {
    /// The message text, for reporting to the user.
    pub fn message(&self) -> (r: &str)
        ensures
            r@ == self.spec_message(),
    {
        match self {
            Error::ErrorStr(s) => s,
            Error::Error(s) => s.as_str(),
        }
    }

    pub open spec fn spec_message(&self) -> Seq<char> {
        match self {
            Error::ErrorStr(s) => s@,
            Error::Error(s) => s@,
        }
    }
}

/// How long the controller waits for the first capture, in milliseconds.
/// A subordinate-synchronized device waits on an external master signal, so
/// it is given the long deadline; a standalone or master device gets the
/// short one.
pub const SUBORDINATE_FIRST_CAPTURE_TIMEOUT_MS: u64 = 360000;

pub const STANDALONE_FIRST_CAPTURE_TIMEOUT_MS: u64 = 60000;

/// Poll window for each first-capture attempt, in milliseconds.
pub const FIRST_CAPTURE_POLL_MS: u32 = 100;

pub open spec fn spec_first_capture_timeout_ms(mode: WiredSyncMode) -> u64 {
    if mode == WiredSyncMode::Subordinate {
        SUBORDINATE_FIRST_CAPTURE_TIMEOUT_MS as u64
    } else {
        STANDALONE_FIRST_CAPTURE_TIMEOUT_MS as u64
    }
}

/// Selects the first-capture deadline from the device's synchronization
/// role.
pub fn first_capture_timeout_ms(mode: WiredSyncMode) -> (r: u64)
    ensures
        r == spec_first_capture_timeout_ms(mode),
{
    if mode == WiredSyncMode::Subordinate {
        SUBORDINATE_FIRST_CAPTURE_TIMEOUT_MS
    } else {
        STANDALONE_FIRST_CAPTURE_TIMEOUT_MS
    }
}

/// First-capture deadline selection, over every synchronization role: the
/// subordinate role gets the long deadline, the master and standalone roles
/// the short one.
pub proof fn lemma_first_capture_deadline_selection()
    ensures
        spec_first_capture_timeout_ms(WiredSyncMode::Subordinate)
            == SUBORDINATE_FIRST_CAPTURE_TIMEOUT_MS,
        spec_first_capture_timeout_ms(WiredSyncMode::Master)
            == STANDALONE_FIRST_CAPTURE_TIMEOUT_MS,
        spec_first_capture_timeout_ms(WiredSyncMode::Standalone)
            == STANDALONE_FIRST_CAPTURE_TIMEOUT_MS,
{
}

pub open spec fn spec_camera_poll_timeout_ms(fps: Fps) -> u32 {
    (1000int / fps.spec_get_u32() as int) as u32
}

/// The main loop's poll window: one frame period, `1000 / fps` milliseconds.
pub fn camera_poll_timeout_ms(fps: Fps) -> (r: u32)
    ensures
        r == spec_camera_poll_timeout_ms(fps),
        r == 1000int / fps.spec_get_u32() as int,
{
    1000 / fps.get_u32()
}

/// Loop cadence, over every configurable frame rate: the poll window is
/// exactly `1000 / fps` milliseconds.
pub proof fn lemma_loop_cadence()
    ensures
        spec_camera_poll_timeout_ms(Fps::_5fps) == 1000int / 5,
        spec_camera_poll_timeout_ms(Fps::_15fps) == 1000int / 15,
        spec_camera_poll_timeout_ms(Fps::_30fps) == 1000int / 30,
        spec_camera_poll_timeout_ms(Fps::_5fps) == 200,
        spec_camera_poll_timeout_ms(Fps::_15fps) == 66,
        spec_camera_poll_timeout_ms(Fps::_30fps) == 33,
{
    assert(1000int / 5int == 200int) by (nonlinear_arith);
    assert(1000int / 15int == 66int) by (nonlinear_arith);
    assert(1000int / 30int == 33int) by (nonlinear_arith);
}

/// Cooperative termination state of one polling loop: an abort request and
/// an optional fixed duration, measured against an externally supplied
/// clock.
pub struct Processing {
    pub start_ms: u64,
    pub requested_abort: bool,
    pub duration_ms: Option<u64>,
}

impl Processing {
    pub fn new(start_ms: u64, recording_length_ms: Option<u64>) -> (r: Processing)
        ensures
            r.start_ms == start_ms,
            !r.requested_abort,
            r.duration_ms == recording_length_ms,
    {
        Processing { start_ms, requested_abort: false, duration_ms: recording_length_ms }
    }

    pub fn request_abort(&mut self)
        ensures
            final(self).requested_abort,
            final(self).start_ms == old(self).start_ms,
            final(self).duration_ms == old(self).duration_ms,
    {
        self.requested_abort = true;
    }

    /// Whether the configured duration has elapsed at time `now_ms`.
    pub open spec fn spec_is_timeout(&self, now_ms: u64) -> bool {
        match self.duration_ms {
            Some(d) => now_ms >= self.start_ms && now_ms - self.start_ms >= d,
            None => false,
        }
    }

    pub fn is_timeout(&self, now_ms: u64) -> (r: bool)
        ensures
            r == self.spec_is_timeout(now_ms),
    {
        match self.duration_ms {
            Some(d) => now_ms >= self.start_ms && now_ms - self.start_ms >= d,
            None => false,
        }
    }

    /// Whether the loop should keep running at time `now_ms`.
    pub open spec fn spec_is_processing(&self, now_ms: u64) -> bool {
        !(self.requested_abort || self.spec_is_timeout(now_ms))
    }

    pub fn is_processing(&self, now_ms: u64) -> (r: bool)
        ensures
            r == self.spec_is_processing(now_ms),
    {
        !(self.requested_abort || self.is_timeout(now_ms))
    }
}

/// The external abort signal: an interrupt handler sets a flag once, and the
/// controller reads it cooperatively, once per loop iteration. The flag is
/// monotone — once set it stays set — which this model renders as the check
/// index from which every read reports it set.
pub struct AbortSignal {
    /// The check index from which the flag reads as set; `None` means the
    /// flag is never set.
    pub set_after_checks: Option<u64>,
    /// How many checks have been made.
    pub checks_made: u64,
}

impl AbortSignal {
    pub fn new(set_after_checks: Option<u64>) -> (r: AbortSignal)
        ensures
            r.set_after_checks == set_after_checks,
            r.checks_made == 0,
    {
        AbortSignal { set_after_checks, checks_made: 0 }
    }

    /// Whether a check made now would report the flag set.
    pub open spec fn spec_set_now(&self) -> bool {
        match self.set_after_checks {
            Some(k) => self.checks_made >= k,
            None => false,
        }
    }

    /// Reads the flag, cooperatively.
    pub fn check(&mut self) -> (r: bool)
        ensures
            r == old(self).spec_set_now(),
            final(self).set_after_checks == old(self).set_after_checks,
            final(self).checks_made == if old(self).checks_made < u64::MAX {
                (old(self).checks_made + 1) as u64
            } else {
                u64::MAX
            },
            final(self).checks_made >= old(self).checks_made,
    {
        let r = match self.set_after_checks {
            Some(k) => self.checks_made >= k,
            None => false,
        };
        if self.checks_made < u64::MAX {
            self.checks_made = self.checks_made + 1;
        }
        r
    }
}

/// What one recording run left behind: the final state of the sink, if one
/// was created, and how the run ended.
pub struct RecordingRun {
    pub sink: Option<Record>,
    pub outcome: Result<(), Error<'static>>,
}

/// A configuration can record only if at least one of the color and depth
/// streams is enabled.
pub open spec fn spec_config_valid(config: crate::device::DeviceConfiguration) -> bool {
    !(config.color_resolution == ColorResolution::Off && config.depth_mode == DepthMode::Off)
}

/// Whether every step of a run up to the creation of the recording sink
/// succeeds: the device exists and opens, it reports a serial number, the
/// configuration enables a stream, the streams start, and the sink can be
/// created.
pub open spec fn spec_setup_succeeds(
    factory: FactoryRecord,
    param: Parameter,
    rt: NativeRuntime,
) -> bool {
    &&& param.device_index < factory.core.installed_count
    &&& factory.core.open_succeeds
    &&& factory.core.serial_number@.len() > 0
    &&& spec_config_valid(param.device_config)
    &&& rt.behavior.start_cameras_succeeds
    &&& !rt.cameras_running
    &&& (param.record_imu ==> rt.behavior.start_imu_succeeds && !rt.imu_running)
    &&& factory.record_create_succeeds
}

/// The exposure write the controller applies: manual with the requested
/// value, or explicitly auto when none was requested.
pub open spec fn spec_exposure_control_write(requested: Option<i32>) -> ColorControlWrite {
    match requested {
        Some(value) => ColorControlWrite {
            command: ColorControlCommand::ExposureTimeAbsolute,
            mode: ColorControlMode::Manual,
            value,
        },
        None => ColorControlWrite {
            command: ColorControlCommand::ExposureTimeAbsolute,
            mode: ColorControlMode::Auto,
            value: 0,
        },
    }
}

/// The gain write the controller applies: manual with the requested value,
/// or explicitly auto when none was requested.
pub open spec fn spec_gain_control_write(requested: Option<i32>) -> ColorControlWrite {
    match requested {
        Some(value) => ColorControlWrite {
            command: ColorControlCommand::Gain,
            mode: ColorControlMode::Manual,
            value,
        },
        None => ColorControlWrite {
            command: ColorControlCommand::Gain,
            mode: ColorControlMode::Auto,
            value: 0,
        },
    }
}

/// A clamped distance to a limit, for loop progress measures.
pub open spec fn spec_remaining(limit: int, now: int) -> int {
    if now >= limit {
        0
    } else {
        limit - now
    }
}

/// How many more cooperative checks until an abort signal set at check `k`
/// is observed, when `made` checks have already happened.
pub open spec fn spec_checks_to_fire(k: u64, made: u64) -> int {
    if k > made {
        k - made
    } else {
        0
    }
}

/// How the wait for the first capture ended.
enum FirstWait {
    GotData,
    Aborted,
    PollFailed,
    DeadlineExpired,
}

/// How the main capture loop ended.
enum LoopEnd {
    Stopped,
    CaptureFailed,
    WriteCaptureFailed,
    ImuFailed,
    WriteImuFailed,
}

/// Runs one recording: opens the device, reads its identity, validates the
/// configuration, applies the exposure and gain controls (advisory — a
/// rejected control is not fatal), starts the streams, creates the sink,
/// declares tracks and writes the header, waits for the first capture under
/// the role-dependent deadline, runs the capture loop under the cooperative
/// abort signal and the optional duration, and shuts down in order: streams
/// stopped first, then the sink flushed, then closed, then the device
/// closed.
///
/// An abort observed while still waiting for the first capture ends the run
/// as a success with nothing recorded; the file is still flushed and closed,
/// leaving a durable, headers-only recording rather than an abandoned open
/// file.
///
/// The model clock is finite, so a run must be bounded: either by a
/// recording length, or by an abort point.
#[verifier::rlimit(100)]
pub fn do_recording(
    factory: &FactoryRecord,
    param: &Parameter,
    rt: &mut NativeRuntime,
    abort: &mut AbortSignal,
) -> (run: RecordingRun)
    requires
        old(rt).clock_ms < 0x4000000000000000,
        old(abort).checks_made < 0x8000000000000000,
        factory.core.serial_number@.len() < usize::MAX,
        match param.recording_length {
            Some(seconds) => seconds < 0x100000000,
            None => old(abort).set_after_checks is Some,
        },
    ensures
        final(rt).behavior == old(rt).behavior,
        final(rt).cameras_running == old(rt).cameras_running,
        final(rt).imu_running == old(rt).imu_running,
        final(abort).set_after_checks == old(abort).set_after_checks,
        // No capture handle leaks: what the run acquired, it released.
        final(rt).ledger.spec_len() >= old(rt).ledger.spec_len(),
        forall|i: int|
            0 <= i < old(rt).ledger.spec_len() ==> final(rt).ledger.spec_count(i) == old(rt).ledger.spec_count(i),
        forall|i: int|
            old(rt).ledger.spec_len() <= i < final(rt).ledger.spec_len() ==> final(rt).ledger.spec_count(i) == 0,
        // A sink exists exactly when every step up to its creation succeeds.
        run.sink is Some <==> spec_setup_succeeds(*factory, *param, *old(rt)),
        // Durability: a created sink is always closed, flushed whenever its
        // header reached the disk, and holds no partial state otherwise.
        match run.sink {
            Some(s) => s.phase == RecordPhase::Closed && s.media_ok == old(rt).behavior.sink_writes_succeed && (s.header_written ==> s.flushed) && (s.media_ok
                <==> s.header_written) && (!s.header_written ==> s.captures_written == 0
                && s.imu_samples_written == 0) && (s.imu_track_declared <==> param.record_imu
                && s.media_ok) && (!param.record_imu ==> s.imu_samples_written == 0),
            None => true,
        },
        // The validation failures, in the order they are checked.
        param.device_index >= factory.core.installed_count ==> (run.outcome matches Err(e)
            && e.spec_message() == "Device not found."@),
        param.device_index < factory.core.installed_count && !factory.core.open_succeeds ==> (
        run.outcome matches Err(e) && e.spec_message()
            == "Runtime error: k4a_device_open() failed "@),
        param.device_index < factory.core.installed_count && factory.core.open_succeeds
            && factory.core.serial_number@.len() == 0 ==> (run.outcome matches Err(e)
            && e.spec_message() == "Runtime error: k4a_device_get_serialnum() failed"@),
        param.device_index < factory.core.installed_count && factory.core.open_succeeds
            && factory.core.serial_number@.len() > 0 && !spec_config_valid(param.device_config)
            ==> (run.outcome matches Err(e) && e.spec_message()
            == "Either the color or depth modes must be enabled to record."@),
        param.device_index < factory.core.installed_count && factory.core.open_succeeds
            && factory.core.serial_number@.len() > 0 && spec_config_valid(param.device_config) && (
        !old(rt).behavior.start_cameras_succeeds || old(rt).cameras_running) ==> (run.outcome
            matches Err(e) && e.spec_message()
            == "Runtime error: k4a_device_start_cameras() failed"@),
        param.device_index < factory.core.installed_count && factory.core.open_succeeds
            && factory.core.serial_number@.len() > 0 && spec_config_valid(param.device_config)
            && old(rt).behavior.start_cameras_succeeds && !old(rt).cameras_running
            && param.record_imu && (!old(rt).behavior.start_imu_succeeds || old(rt).imu_running)
            ==> (run.outcome matches Err(e) && e.spec_message()
            == "Runtime error: k4a_device_start_imu() failed"@),
        param.device_index < factory.core.installed_count && factory.core.open_succeeds
            && factory.core.serial_number@.len() > 0 && spec_config_valid(param.device_config)
            && old(rt).behavior.start_cameras_succeeds && !old(rt).cameras_running && (
        param.record_imu ==> old(rt).behavior.start_imu_succeeds && !old(rt).imu_running)
            && !factory.record_create_succeeds ==> (run.outcome matches Err(e) && e.spec_message()
            == "Unable to create recording file: "@ + param.recording_filename@),
        spec_setup_succeeds(*factory, *param, *old(rt)) && !old(rt).behavior.sink_writes_succeed
            ==> (run.outcome matches Err(e) && (param.record_imu ==> e.spec_message()
            == "Runtime error: k4a_record_add_imu_track() failed"@) && (!param.record_imu
            ==> e.spec_message() == "Runtime error: k4a_record_write_header() failed"@)),
        // The exposure and gain controls are applied exactly once each, in
        // order, right after validation: manual with the requested value
        // when one was given, else explicitly auto; a rejected write leaves
        // no record and never aborts the run.
        param.device_index < factory.core.installed_count && factory.core.open_succeeds
            && factory.core.serial_number@.len() > 0 && spec_config_valid(param.device_config)
            ==> (if old(rt).behavior.color_control_succeeds {
            final(rt).color_controls@ == old(rt).color_controls@.push(
                spec_exposure_control_write(param.absolute_exposure_value),
            ).push(spec_gain_control_write(param.gain))
        } else {
            final(rt).color_controls == old(rt).color_controls
        }),
        !(param.device_index < factory.core.installed_count && factory.core.open_succeeds
            && factory.core.serial_number@.len() > 0 && spec_config_valid(param.device_config))
            ==> final(rt).color_controls == old(rt).color_controls,
        // Abort before data: an abort pending at entry ends the run cleanly,
        // with a durable recording holding a header and no captures.
        spec_setup_succeeds(*factory, *param, *old(rt)) && old(rt).behavior.sink_writes_succeed
            && old(abort).spec_set_now() ==> run.outcome is Ok && (run.sink matches Some(s)
            && s.captures_written == 0 && s.imu_samples_written == 0 && s.is_durable()),
        // More generally, an abort that fires at any point of the
        // first-capture wait — within the deadline, while the camera only
        // times out — also ends the run cleanly and empty.
        spec_setup_succeeds(*factory, *param, *old(rt)) && old(rt).behavior.sink_writes_succeed
            && (match old(abort).set_after_checks {
            Some(k) => 100 * spec_checks_to_fire(k, old(abort).checks_made)
                < spec_first_capture_timeout_ms(param.device_config.wired_sync_mode) as int && (
            forall|i: int|
                old(rt).captures.pos <= i < old(rt).captures.pos as int + spec_checks_to_fire(
                    k,
                    old(abort).checks_made,
                ) && i < old(rt).captures.events@.len() ==> old(rt).captures.events@[i]
                    == PollOutcome::Timeout),
            None => false,
        }) ==> run.outcome is Ok && (run.sink matches Some(s) && s.captures_written == 0
            && s.imu_samples_written == 0 && s.is_durable()),
        // Cooperative shutdown does bounded work: a capture is written only
        // after a cooperative check that still read the flag unset, so no
        // more captures are written than checks remain before the signal
        // fires — in particular, none once it has fired.
        match (old(abort).set_after_checks, run.sink) {
            (Some(k), Some(s)) => s.captures_written as int <= spec_checks_to_fire(
                k,
                old(abort).checks_made,
            ),
            _ => true,
        },
        // The wait deadline is enforced: with no abort signal and a camera
        // that only times out throughout the deadline window, the run fails
        // with the first-capture timeout error and nothing is recorded.
        spec_setup_succeeds(*factory, *param, *old(rt)) && old(rt).behavior.sink_writes_succeed
            && old(abort).set_after_checks is None && (forall|i: int|
            old(rt).captures.pos <= i < old(rt).captures.pos as int + spec_first_capture_timeout_ms(
                param.device_config.wired_sync_mode,
            ) as int / 100 && i < old(rt).captures.events@.len() ==> old(rt).captures.events@[i]
                == PollOutcome::Timeout) ==> (run.outcome matches Err(e) && e.spec_message()
            == "Timed out waiting for first capture."@) && (run.sink matches Some(s)
            && s.captures_written == 0 && s.imu_samples_written == 0),
        // A fatal poll after recording has started is named: with the first
        // frame delivered and the very next poll failing, the run ends with
        // the capture error, and the shutdown still leaves a durable,
        // headers-only file.
        spec_setup_succeeds(*factory, *param, *old(rt)) && old(rt).behavior.sink_writes_succeed
            && old(abort).set_after_checks is None && (match param.recording_length {
            Some(seconds) => seconds >= 1,
            None => false,
        }) && old(rt).captures.spec_next() == PollOutcome::Frame && old(rt).captures.pos as int + 1
            < old(rt).captures.events@.len() && old(rt).captures.events@[old(
            rt,
        ).captures.pos as int + 1] == PollOutcome::Failed ==> (run.outcome matches Err(e)
            && e.spec_message() == "Runtime error: k4a_device_get_capture() returned error"@) && (
        run.sink matches Some(s) && s.captures_written == 0 && s.imu_samples_written == 0
            && s.is_durable()),
        // Success is owed: with a working setup and sink, no abort signal, a
        // frame immediately available, and no fatal poll outcome in either
        // script, the run records until its length elapses and the sink
        // holds exactly the frames and samples the scripts delivered (the
        // first frame only ends the wait; it is not recorded).
        spec_setup_succeeds(*factory, *param, *old(rt)) && old(rt).behavior.sink_writes_succeed
            && old(abort).set_after_checks is None && old(rt).captures.spec_next()
            == PollOutcome::Frame && (forall|i: int|
            old(rt).captures.pos as int + 1 <= i < old(rt).captures.events@.len() ==> old(rt).captures.events@[i] != PollOutcome::Failed) && (forall|i: int|
            old(rt).imu.pos <= i < old(rt).imu.events@.len() ==> old(rt).imu.events@[i]
                != PollOutcome::Failed) ==> run.outcome is Ok && (run.sink matches Some(s)
            && s.captures_written as int == spec_frames_in(
            old(rt).captures.events@,
            old(rt).captures.pos as int + 1,
            final(rt).captures.pos as int,
        ) && s.imu_samples_written as int == spec_frames_in(
            old(rt).imu.events@,
            old(rt).imu.pos as int,
            final(rt).imu.pos as int,
        )) && (param.recording_length matches Some(seconds) ==> final(rt).clock_ms as int >= old(rt).clock_ms as int + 100 + seconds * 1000),
        // Success needs a complete setup and a writable sink.
        run.outcome is Ok ==> spec_setup_succeeds(*factory, *param, *old(rt)) && old(rt).behavior.sink_writes_succeed,
{
    let ghost rt0 = *rt;
    let ghost abort0 = *abort;
    let installed_devices = factory.device_get_installed_count();
    if param.device_index >= installed_devices {
        return RecordingRun { sink: None, outcome: Err(Error::ErrorStr("Device not found.")) };
    }

    let mut device = match factory.device_open(param.device_index) {
        Ok(device) => device,
        Err(_) => {
            return RecordingRun {
                sink: None,
                outcome: Err(Error::ErrorStr("Runtime error: k4a_device_open() failed ")),
            };
        },
    };

    let _serial_number = match device.get_serialnum() {
        Ok(serial) => serial,
        Err(_) => {
            device.close();
            return RecordingRun {
                sink: None,
                outcome: Err(Error::ErrorStr("Runtime error: k4a_device_get_serialnum() failed")),
            };
        },
    };
    let _version_info = match device.get_version() {
        Ok(version) => version,
        Err(_) => {
            device.close();
            return RecordingRun {
                sink: None,
                outcome: Err(Error::ErrorStr("Runtime error: k4a_device_get_version() failed")),
            };
        },
    };

    let camera_fps = param.device_config.camera_fps().get_u32();
    if camera_fps == 0 || (param.device_config.color_resolution() == ColorResolution::Off
        && param.device_config.depth_mode() == DepthMode::Off) {
        device.close();
        return RecordingRun {
            sink: None,
            outcome: Err(
                Error::ErrorStr("Either the color or depth modes must be enabled to record."),
            ),
        };
    }

    // Exposure and gain are advisory: a rejected control is logged by the
    // caller and recording proceeds with the device's current setting.
    match param.absolute_exposure_value {
        Some(value) => {
            let _ = device.set_color_control(
                rt,
                ColorControlCommand::ExposureTimeAbsolute,
                ColorControlMode::Manual,
                value,
            );
        },
        None => {
            let _ = device.set_color_control(
                rt,
                ColorControlCommand::ExposureTimeAbsolute,
                ColorControlMode::Auto,
                0,
            );
        },
    }
    match param.gain {
        Some(value) => {
            let _ = device.set_color_control(
                rt,
                ColorControlCommand::Gain,
                ColorControlMode::Manual,
                value,
            );
        },
        None => {
            let _ = device.set_color_control(
                rt,
                ColorControlCommand::Gain,
                ColorControlMode::Auto,
                0,
            );
        },
    }

    let ghost controls_applied = rt.color_controls;
    let camera = match device.start_cameras(rt, &param.device_config) {
        Ok(camera) => camera,
        Err(_) => {
            device.close();
            return RecordingRun {
                sink: None,
                outcome: Err(Error::ErrorStr("Runtime error: k4a_device_start_cameras() failed")),
            };
        },
    };
    let imu_opt = if param.record_imu {
        match camera.start_imu(rt) {
            Ok(imu) => Some(imu),
            Err(_) => {
                camera.stop(rt);
                device.close();
                return RecordingRun {
                    sink: None,
                    outcome: Err(Error::ErrorStr("Runtime error: k4a_device_start_imu() failed")),
                };
            },
        }
    } else {
        None
    };

    let mut recording = match factory.record_create(
        param.recording_filename.as_str(),
        &device,
        rt,
        &param.device_config,
    ) {
        Ok(recording) => recording,
        Err(_) => {
            match imu_opt {
                Some(imu) => imu.stop(rt),
                None => (),
            }
            camera.stop(rt);
            device.close();
            return RecordingRun {
                sink: None,
                outcome: Err(
                    Error::Error(
                        String::from_str("Unable to create recording file: ").concat(
                            param.recording_filename.as_str(),
                        ),
                    ),
                ),
            };
        },
    };

    let mut outcome: Result<(), Error<'static>> = Ok(());
    let mut header_ok = true;

    if imu_opt.is_some() {
        match recording.add_imu_track() {
            Ok(_) => (),
            Err(_) => {
                outcome = Err(Error::ErrorStr("Runtime error: k4a_record_add_imu_track() failed"));
                header_ok = false;
            },
        }
    }
    if header_ok {
        match recording.write_header() {
            Ok(_) => (),
            Err(_) => {
                outcome = Err(Error::ErrorStr("Runtime error: k4a_record_write_header() failed"));
                header_ok = false;
            },
        }
    }

    if header_ok {
        // Wait for the first capture before starting to record. A
        // subordinate device waits on its master's signal, so it is given
        // the long deadline.
        let deadline_ms = first_capture_timeout_ms(param.device_config.wired_sync_mode());
        let start1 = rt.clock_ms;
        let first_capture = Processing::new(start1, Some(deadline_ms));
        let ghost limit1: int = start1 as int + deadline_ms as int + FIRST_CAPTURE_POLL_MS as int;
        let ghost entry_abort_set = abort.spec_set_now();
        let ghost entry_checks = abort.checks_made;
        let ghost pos0: int = rt.captures.pos as int;
        let ghost fire: int = match abort.set_after_checks {
            Some(k) => spec_checks_to_fire(k, entry_checks),
            None => -1,
        };
        let ghost wait_hyp = abort.set_after_checks is Some && 100 * fire < deadline_ms as int && (
        forall|i: int|
            pos0 <= i < pos0 + fire && i < rt.captures.events@.len() ==> rt.captures.events@[i]
                == PollOutcome::Timeout);
        let ghost run_hyp = abort.set_after_checks is None && pos0 < rt.captures.events@.len()
            && rt.captures.events@[pos0] == PollOutcome::Frame;
        let ghost deadline_iters: int = deadline_ms as int / 100;
        proof {
            assert(360000int / 100 == 3600 && 100 * (360000int / 100) == 360000int)
                by (nonlinear_arith);
            assert(60000int / 100 == 600 && 100 * (60000int / 100) == 60000int)
                by (nonlinear_arith);
        }
        let ghost to_hyp = abort.set_after_checks is None && (forall|i: int|
            pos0 <= i < pos0 + deadline_iters && i < rt.captures.events@.len()
                ==> rt.captures.events@[i] == PollOutcome::Timeout);
        let mut first = FirstWait::DeadlineExpired;
        loop
            invariant_except_break
                first == FirstWait::DeadlineExpired,
                run_hyp ==> rt.clock_ms == start1 && rt.captures.pos as int == pos0
                    && abort.checks_made == entry_checks,
                to_hyp ==> abort.checks_made as int - entry_checks as int <= deadline_iters,
                to_hyp ==> rt.clock_ms as int == start1 as int + 100 * (
                abort.checks_made as int - entry_checks as int),
                to_hyp ==> (forall|i: int|
                    rt.captures.pos <= i < rt.captures.pos as int + (deadline_iters - (
                    abort.checks_made as int - entry_checks as int)) && i
                        < rt.captures.events@.len() ==> rt.captures.events@[i]
                        == PollOutcome::Timeout),
                wait_hyp ==> abort.checks_made as int - entry_checks as int <= fire,
                wait_hyp ==> rt.clock_ms as int == start1 as int + 100 * (
                abort.checks_made as int - entry_checks as int),
                wait_hyp ==> (forall|i: int|
                    rt.captures.pos <= i < rt.captures.pos as int + (fire - (
                    abort.checks_made as int - entry_checks as int)) && i
                        < rt.captures.events@.len() ==> rt.captures.events@[i]
                        == PollOutcome::Timeout),
            invariant
                rt.behavior == rt0.behavior,
                rt.cameras_running,
                rt.imu_running == (param.record_imu || rt0.imu_running),
                rt.imu == rt0.imu,
                rt.ledger@.len() >= rt0.ledger@.len(),
                forall|i: int| 0 <= i < rt0.ledger@.len() ==> rt.ledger@[i] == rt0.ledger@[i],
                forall|i: int| rt0.ledger@.len() <= i < rt.ledger@.len() ==> rt.ledger@[i] == 0,
                first_capture.start_ms == start1,
                first_capture.duration_ms == Some(deadline_ms),
                !first_capture.requested_abort,
                deadline_ms == spec_first_capture_timeout_ms(param.device_config.wired_sync_mode),
                start1 <= rt.clock_ms,
                rt.clock_ms as int <= limit1,
                limit1 == start1 as int + deadline_ms as int + FIRST_CAPTURE_POLL_MS as int,
                limit1 < 0x7000000000000000,
                abort.set_after_checks == abort0.set_after_checks,
                abort.checks_made >= entry_checks,
                entry_abort_set == abort0.spec_set_now(),
                entry_checks == abort0.checks_made,
                entry_checks < 0x8000000000000000,
                deadline_iters <= 3600,
                entry_abort_set ==> rt.clock_ms == start1,
                rt.captures.events == rt0.captures.events,
                rt.color_controls == controls_applied,
                pos0 == rt0.captures.pos as int,
                fire == (match abort0.set_after_checks {
                    Some(k) => spec_checks_to_fire(k, entry_checks),
                    None => -1int,
                }),
                wait_hyp == (abort0.set_after_checks is Some && 100 * fire < deadline_ms as int
                    && (forall|i: int|
                    pos0 <= i < pos0 + fire && i < rt0.captures.events@.len()
                        ==> rt0.captures.events@[i] == PollOutcome::Timeout)),
                wait_hyp ==> fire >= 0,
                run_hyp == (abort0.set_after_checks is None && pos0 < rt0.captures.events@.len()
                    && rt0.captures.events@[pos0] == PollOutcome::Frame),
                deadline_iters == deadline_ms as int / 100,
                100 * deadline_iters == deadline_ms as int,
                to_hyp == (abort0.set_after_checks is None && (forall|i: int|
                    pos0 <= i < pos0 + deadline_iters && i < rt0.captures.events@.len()
                        ==> rt0.captures.events@[i] == PollOutcome::Timeout)),
            ensures
                entry_abort_set ==> first == FirstWait::Aborted,
                wait_hyp ==> first == FirstWait::Aborted,
                to_hyp ==> first == FirstWait::DeadlineExpired,
                run_hyp ==> first == FirstWait::GotData && rt.captures.pos as int == pos0 + 1
                    && rt.clock_ms as int == start1 as int + 100,
            decreases spec_remaining(limit1, rt.clock_ms as int),
        {
            if !first_capture.is_processing(rt.clock_ms) {
                break;
            }
            if abort.check() {
                first = FirstWait::Aborted;
                break;
            }
            match camera.get_capture(rt, 100) {
                Ok(capture) => {
                    let _ = rt.release_capture(capture);
                    first = FirstWait::GotData;
                    break;
                },
                Err(e) => {
                    if e != crate::error::Error::Timeout {
                        first = FirstWait::PollFailed;
                        break;
                    }
                },
            }
        }

        match first {
            FirstWait::Aborted => {
                // A clean no-op shutdown: success, with nothing written.
            },
            FirstWait::PollFailed => {
                outcome = Err(
                    Error::ErrorStr("Runtime error: k4a_device_get_capture() returned error"),
                );
            },
            FirstWait::DeadlineExpired => {
                if abort.check() {
                    // The signal arrived while the deadline ran out: still a
                    // clean shutdown.
                } else {
                    outcome = Err(Error::ErrorStr("Timed out waiting for first capture."));
                }
            },
            FirstWait::GotData => {
                // The main loop: one capture per poll period, then a drain
                // of whatever IMU samples are already available.
                let camera_timeout_ms = camera_poll_timeout_ms(param.device_config.camera_fps());
                let duration_ms: Option<u64> = match param.recording_length {
                    Some(seconds) => Some(seconds * 1000),
                    None => None,
                };
                let start2 = rt.clock_ms;
                let recording_process = Processing::new(start2, duration_ms);
                let ghost limit2: int = start2 as int + (match duration_ms {
                    Some(d) => d as int,
                    None => 0int,
                }) + camera_timeout_ms as int;
                let ghost main_hyp = run_hyp && rt0.behavior.sink_writes_succeed && (forall|i: int|
                    pos0 + 1 <= i < rt0.captures.events@.len() ==> rt0.captures.events@[i]
                        != PollOutcome::Failed) && (forall|i: int|
                    rt0.imu.pos <= i < rt0.imu.events@.len() ==> rt0.imu.events@[i]
                        != PollOutcome::Failed);
                let ghost main_checks = abort.checks_made;
                let ghost fail_hyp = run_hyp && rt0.behavior.sink_writes_succeed && (match
                    param.recording_length {
                    Some(seconds) => seconds >= 1u64,
                    None => false,
                }) && pos0 + 1 < rt0.captures.events@.len() && rt0.captures.events@[pos0 + 1]
                    == PollOutcome::Failed;
                let mut loop_end = LoopEnd::Stopped;
                loop
                    invariant_except_break
                        fail_hyp ==> rt.captures.pos as int == pos0 + 1 && rt.clock_ms == start2
                            && loop_end == LoopEnd::Stopped,
                    invariant
                        rt.behavior == rt0.behavior,
                        rt.cameras_running,
                        rt.imu_running == (param.record_imu || rt0.imu_running),
                        rt.ledger@.len() >= rt0.ledger@.len(),
                        forall|i: int| 0 <= i < rt0.ledger@.len() ==> rt.ledger@[i] == rt0.ledger@[i],
                        forall|i: int| rt0.ledger@.len() <= i < rt.ledger@.len() ==> rt.ledger@[i] == 0,
                        recording.media_ok == rt0.behavior.sink_writes_succeed,
                        recording.accepts_writes(),
                        recording.header_written,
                        recording.flushed == false,
                        recording.imu_track_declared <==> param.record_imu,
                        imu_opt is Some <==> param.record_imu,
                        recording.captures_written <= rt.captures.pos,
                        recording.imu_samples_written <= rt.imu.pos,
                        !param.record_imu ==> recording.imu_samples_written == 0,
                        camera_timeout_ms as int == 1000int / param.device_config.camera_fps.spec_get_u32() as int,
                        1 <= camera_timeout_ms <= 200,
                        recording_process.start_ms == start2,
                        recording_process.duration_ms == duration_ms,
                        !recording_process.requested_abort,
                        duration_ms == (match param.recording_length {
                            Some(seconds) => Some((seconds * 1000) as u64),
                            None => None::<u64>,
                        }),
                        match param.recording_length {
                            Some(seconds) => seconds < 0x100000000,
                            None => true,
                        },
                        start2 <= rt.clock_ms,
                        duration_ms is Some ==> rt.clock_ms as int <= limit2,
                        limit2 == start2 as int + (match duration_ms {
                            Some(d) => d as int,
                            None => 0int,
                        }) + camera_timeout_ms as int,
                        limit2 < 0x7800000000000000,
                        abort.set_after_checks == abort0.set_after_checks,
                        duration_ms is None ==> abort.set_after_checks is Some,
                        rt.captures.events == rt0.captures.events,
                        rt.color_controls == controls_applied,
                        rt.imu.events == rt0.imu.events,
                        rt.imu.pos >= rt0.imu.pos,
                        pos0 == rt0.captures.pos as int,
                        run_hyp == (abort0.set_after_checks is None && pos0
                            < rt0.captures.events@.len() && rt0.captures.events@[pos0]
                            == PollOutcome::Frame),
                        main_hyp == (run_hyp && rt0.behavior.sink_writes_succeed && (forall|i: int|
                            pos0 + 1 <= i < rt0.captures.events@.len() ==> rt0.captures.events@[i]
                                != PollOutcome::Failed) && (forall|i: int|
                            rt0.imu.pos <= i < rt0.imu.events@.len() ==> rt0.imu.events@[i]
                                != PollOutcome::Failed)),
                        main_hyp ==> rt.captures.pos as int >= pos0 + 1,
                        main_hyp ==> recording.captures_written as int == spec_frames_in(
                            rt0.captures.events@,
                            pos0 + 1,
                            rt.captures.pos as int,
                        ),
                        main_hyp ==> recording.imu_samples_written as int == spec_frames_in(
                            rt0.imu.events@,
                            rt0.imu.pos as int,
                            rt.imu.pos as int,
                        ),
                        main_checks >= abort0.checks_made,
                        abort0.set_after_checks matches Some(k)
                            ==> abort.checks_made as int >= main_checks as int
                            + recording.captures_written as int,
                        abort0.set_after_checks matches Some(k)
                            ==> recording.captures_written as int <= spec_checks_to_fire(
                            k,
                            main_checks,
                        ),
                        main_hyp ==> loop_end == LoopEnd::Stopped,
                        fail_hyp == (run_hyp && rt0.behavior.sink_writes_succeed && (match
                            param.recording_length {
                            Some(seconds) => seconds >= 1u64,
                            None => false,
                        }) && pos0 + 1 < rt0.captures.events@.len() && rt0.captures.events@[pos0
                            + 1] == PollOutcome::Failed),
                        fail_hyp ==> recording.captures_written == 0
                            && recording.imu_samples_written == 0 && (loop_end == LoopEnd::Stopped
                            || loop_end == LoopEnd::CaptureFailed),
                    ensures
                        main_hyp ==> recording_process.spec_is_timeout(rt.clock_ms),
                        fail_hyp ==> loop_end == LoopEnd::CaptureFailed,
                    decreases (match duration_ms {
                        Some(_) => spec_remaining(limit2, rt.clock_ms as int),
                        None => spec_remaining(
                            abort.set_after_checks.unwrap() as int,
                            abort.checks_made as int,
                        ),
                    }),
                {
                    if !recording_process.is_processing(rt.clock_ms) {
                        break;
                    }
                    if abort.check() {
                        break;
                    }
                    let capture = match camera.get_capture(rt, camera_timeout_ms as i32) {
                        Ok(capture) => capture,
                        Err(e) => {
                            if e == crate::error::Error::Timeout {
                                continue;
                            }
                            loop_end = LoopEnd::CaptureFailed;
                            break;
                        },
                    };
                    let fatal_write = match recording.write_capture(&capture) {
                        Ok(_) => false,
                        Err(_) => true,
                    };
                    let _ = rt.release_capture(capture);
                    if fatal_write {
                        loop_end = LoopEnd::WriteCaptureFailed;
                        break;
                    }

                    match &imu_opt {
                        Some(imu) => {
                            let mut drain_end = LoopEnd::Stopped;
                            let ghost drain_clock = rt.clock_ms;
                            let ghost drain_checks = abort.checks_made;
                            let ghost drain_captures = rt.captures;
                            loop
                                invariant
                                    rt.clock_ms == drain_clock,
                                    abort.checks_made >= drain_checks,
                                    rt.behavior == rt0.behavior,
                                    rt.cameras_running,
                                    rt.imu_running == (param.record_imu || rt0.imu_running),
                                    rt.ledger@.len() >= rt0.ledger@.len(),
                                    forall|i: int|
                                        0 <= i < rt0.ledger@.len() ==> rt.ledger@[i]
                                            == rt0.ledger@[i],
                                    forall|i: int|
                                        rt0.ledger@.len() <= i < rt.ledger@.len()
                                            ==> rt.ledger@[i] == 0,
                                    recording.media_ok == rt0.behavior.sink_writes_succeed,
                                    recording.accepts_writes(),
                                    recording.header_written,
                                    recording.flushed == false,
                                    recording.imu_track_declared,
                                    param.record_imu,
                                    recording.captures_written <= rt.captures.pos,
                                    recording.imu_samples_written <= rt.imu.pos,
                                    recording_process.start_ms == start2,
                                    recording_process.duration_ms == duration_ms,
                                    !recording_process.requested_abort,
                                    start2 <= rt.clock_ms,
                                    duration_ms is Some ==> rt.clock_ms as int <= limit2,
                                    abort.set_after_checks == abort0.set_after_checks,
                                    rt.captures == drain_captures,
                                    rt.color_controls == controls_applied,
                                    rt.imu.events == rt0.imu.events,
                                    rt.imu.pos >= rt0.imu.pos,
                                    pos0 == rt0.captures.pos as int,
                                    run_hyp == (abort0.set_after_checks is None && pos0
                                        < rt0.captures.events@.len() && rt0.captures.events@[pos0]
                                        == PollOutcome::Frame),
                                    main_hyp == (run_hyp && rt0.behavior.sink_writes_succeed && (
                                    forall|i: int|
                                        pos0 + 1 <= i < rt0.captures.events@.len()
                                            ==> rt0.captures.events@[i] != PollOutcome::Failed) && (
                                    forall|i: int|
                                        rt0.imu.pos <= i < rt0.imu.events@.len()
                                            ==> rt0.imu.events@[i] != PollOutcome::Failed)),
                                    main_hyp ==> recording.captures_written as int
                                        == spec_frames_in(
                                        rt0.captures.events@,
                                        pos0 + 1,
                                        rt.captures.pos as int,
                                    ),
                                    main_hyp ==> recording.imu_samples_written as int
                                        == spec_frames_in(
                                        rt0.imu.events@,
                                        rt0.imu.pos as int,
                                        rt.imu.pos as int,
                                    ),
                                    abort0.set_after_checks matches Some(k)
                                        ==> abort.checks_made as int >= main_checks as int
                                        + recording.captures_written as int,
                                    abort0.set_after_checks matches Some(k)
                                        ==> recording.captures_written as int
                                        <= spec_checks_to_fire(k, main_checks),
                                    main_hyp ==> drain_end == LoopEnd::Stopped,
                                decreases spec_remaining(
                                    rt.imu.events@.len() as int,
                                    rt.imu.pos as int,
                                ),
                            {
                                if !recording_process.is_processing(rt.clock_ms) {
                                    break;
                                }
                                if abort.check() {
                                    break;
                                }
                                let sample = match imu.get_imu_sample(rt, 0) {
                                    Ok(sample) => sample,
                                    Err(e) => {
                                        if e != crate::error::Error::Timeout {
                                            drain_end = LoopEnd::ImuFailed;
                                        }
                                        break;
                                    },
                                };
                                match recording.write_imu_sample(sample) {
                                    Ok(_) => (),
                                    Err(_) => {
                                        drain_end = LoopEnd::WriteImuFailed;
                                        break;
                                    },
                                }
                            }
                            match drain_end {
                                LoopEnd::Stopped => (),
                                _ => {
                                    loop_end = drain_end;
                                    break;
                                },
                            }
                        },
                        None => (),
                    }
                }

                match loop_end {
                    LoopEnd::Stopped => (),
                    LoopEnd::CaptureFailed => {
                        outcome = Err(
                            Error::ErrorStr("Runtime error: k4a_device_get_capture() returned error"),
                        );
                    },
                    LoopEnd::WriteCaptureFailed => {
                        outcome = Err(
                            Error::ErrorStr("Runtime error: k4a_record_write_capture() failed"),
                        );
                    },
                    LoopEnd::ImuFailed => {
                        outcome = Err(
                            Error::ErrorStr("Runtime error: k4a_imu_get_sample() returned error"),
                        );
                    },
                    LoopEnd::WriteImuFailed => {
                        outcome = Err(
                            Error::ErrorStr("Runtime error: k4a_record_write_imu_sample() failed"),
                        );
                    },
                }
            },
        }
    }

    // Ordered shutdown, on every path once the sink exists: stop the streams
    // first, then flush the sink, then close it, then close the device.
    match imu_opt {
        Some(imu) => imu.stop(rt),
        None => (),
    }
    camera.stop(rt);
    let _ = recording.flush();
    let closed = recording.close();
    device.close();
    RecordingRun { sink: Some(closed), outcome }
}

} // verus!
