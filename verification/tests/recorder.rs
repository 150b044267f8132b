use azure_kinect::device::Device;
use azure_kinect::enums::{FirmwareBuildType, FirmwareSignatureType, Fps, WiredSyncMode};
use azure_kinect::error::Error;
use azure_kinect::factory::{Factory, FactoryRecord};
use azure_kinect::param::{Parameter, RawArgs};
use azure_kinect::record::RecordPhase;
use azure_kinect::recorder::{
    camera_poll_timeout_ms, do_recording, first_capture_timeout_ms, AbortSignal, Processing,
    STANDALONE_FIRST_CAPTURE_TIMEOUT_MS, SUBORDINATE_FIRST_CAPTURE_TIMEOUT_MS,
};
use azure_kinect::enums::{ColorControlCommand, ColorControlMode};
use azure_kinect::runtime::{ColorControlWrite, NativeRuntime, PollOutcome, RuntimeBehavior};
use azure_kinect::structs::{HardwareVersion, Version};

fn version() -> HardwareVersion {
    HardwareVersion {
        rgb: Version { major: 1, minor: 6, iteration: 110 },
        depth: Version { major: 1, minor: 6, iteration: 79 },
        audio: Version { major: 1, minor: 6, iteration: 14 },
        depth_sensor: Version { major: 6109, minor: 7, iteration: 0 },
        firmware_build: FirmwareBuildType::Release,
        firmware_signature: FirmwareSignatureType::Microsoft,
    }
}

fn factory() -> FactoryRecord {
    FactoryRecord {
        core: Factory {
            installed_count: 1,
            open_succeeds: true,
            serial_number: "000123456789".to_string(),
            version: version(),
        },
        record_create_succeeds: true,
    }
}

fn behavior() -> RuntimeBehavior {
    RuntimeBehavior {
        start_cameras_succeeds: true,
        start_imu_succeeds: true,
        color_control_succeeds: true,
        sink_writes_succeed: true,
    }
}

fn args(color: &str, depth: &str, rate: &str, imu: &str) -> RawArgs {
    RawArgs {
        list: false,
        device: Some("0".to_string()),
        record_length: None,
        color_mode: color.to_string(),
        depth_mode: depth.to_string(),
        depth_delay: None,
        rate: rate.to_string(),
        imu: Some(imu.to_string()),
        external_sync: "Standalone".to_string(),
        sync_delay: None,
        exposure_control: None,
        gain: None,
        output: Some("output.mkv".to_string()),
    }
}

#[test]
fn first_capture_deadline_selection() {
    assert_eq!(
        first_capture_timeout_ms(WiredSyncMode::Subordinate),
        SUBORDINATE_FIRST_CAPTURE_TIMEOUT_MS
    );
    assert_eq!(
        first_capture_timeout_ms(WiredSyncMode::Master),
        STANDALONE_FIRST_CAPTURE_TIMEOUT_MS
    );
    assert_eq!(
        first_capture_timeout_ms(WiredSyncMode::Standalone),
        STANDALONE_FIRST_CAPTURE_TIMEOUT_MS
    );
    assert_eq!(SUBORDINATE_FIRST_CAPTURE_TIMEOUT_MS, 360000);
    assert_eq!(STANDALONE_FIRST_CAPTURE_TIMEOUT_MS, 60000);
}

#[test]
fn loop_cadence() {
    assert_eq!(camera_poll_timeout_ms(Fps::_5fps), 1000 / 5);
    assert_eq!(camera_poll_timeout_ms(Fps::_15fps), 1000 / 15);
    assert_eq!(camera_poll_timeout_ms(Fps::_30fps), 1000 / 30);
    assert_eq!(camera_poll_timeout_ms(Fps::_30fps), 33);
}

#[test]
fn processing_cooperative_termination() {
    let p = Processing::new(1000, Some(500));
    assert!(p.is_processing(1000));
    assert!(p.is_processing(1499));
    assert!(!p.is_processing(1500));
    assert!(p.is_timeout(1700));

    let mut unbounded = Processing::new(0, None);
    assert!(unbounded.is_processing(u64::MAX));
    unbounded.request_abort();
    assert!(!unbounded.is_processing(0));
}

#[test]
fn abort_signal_is_monotone() {
    let mut signal = AbortSignal::new(Some(2));
    assert!(!signal.check());
    assert!(!signal.check());
    assert!(signal.check());
    assert!(signal.check());

    let mut never = AbortSignal::new(None);
    assert!(!never.check());
    assert!(!never.check());
}

/// The end-to-end scenario: depth enabled, color off, thirty frames per
/// second, device index zero available, abort signalled immediately. The run
/// succeeds and the file holds a written header and zero capture records.
#[test]
fn abort_before_data_leaves_a_durable_empty_recording() {
    let param = Parameter::from(&args("OFF", "NFOV_UNBINNED", "30", "ON")).unwrap();
    let mut rt = NativeRuntime::new(Vec::new(), Vec::new(), behavior());
    let mut abort = AbortSignal::new(Some(0));
    let run = do_recording(&factory(), &param, &mut rt, &mut abort);
    assert!(run.outcome.is_ok());
    let sink = run.sink.unwrap();
    assert!(sink.header_written);
    assert!(sink.flushed);
    assert_eq!(sink.phase, RecordPhase::Closed);
    assert_eq!(sink.captures_written, 0);
    assert_eq!(sink.imu_samples_written, 0);
    assert!(sink.imu_track_declared);
}

#[test]
fn abort_during_first_capture_wait_is_a_clean_success() {
    // The flag is raised only at the fourth cooperative check, while the
    // camera keeps timing out.
    let script = vec![PollOutcome::Timeout; 16];
    let param = Parameter::from(&args("1080p", "NFOV_UNBINNED", "30", "OFF")).unwrap();
    let mut rt = NativeRuntime::new(script, Vec::new(), behavior());
    let mut abort = AbortSignal::new(Some(3));
    let run = do_recording(&factory(), &param, &mut rt, &mut abort);
    assert!(run.outcome.is_ok());
    let sink = run.sink.unwrap();
    assert_eq!(sink.captures_written, 0);
    assert!(sink.flushed);
    assert_eq!(sink.phase, RecordPhase::Closed);
    assert!(!sink.imu_track_declared);
}

#[test]
fn abort_after_recording_started_still_flushes_what_was_written() {
    // First capture arrives at once; two more frames are written before the
    // signal is observed.
    let script = vec![
        PollOutcome::Frame,
        PollOutcome::Frame,
        PollOutcome::Frame,
        PollOutcome::Timeout,
        PollOutcome::Timeout,
        PollOutcome::Timeout,
        PollOutcome::Timeout,
    ];
    let param = Parameter::from(&args("1080p", "NFOV_UNBINNED", "30", "OFF")).unwrap();
    let mut rt = NativeRuntime::new(script, Vec::new(), behavior());
    let mut abort = AbortSignal::new(Some(4));
    let run = do_recording(&factory(), &param, &mut rt, &mut abort);
    assert!(run.outcome.is_ok());
    let sink = run.sink.unwrap();
    assert_eq!(sink.captures_written, 2);
    assert!(sink.flushed);
    assert!(sink.header_written);
    assert_eq!(sink.phase, RecordPhase::Closed);
}

#[test]
fn bounded_recording_drains_imu_samples() {
    let capture_script = vec![
        PollOutcome::Frame,
        PollOutcome::Frame,
        PollOutcome::Frame,
        PollOutcome::Frame,
    ];
    let imu_script = vec![
        PollOutcome::Frame,
        PollOutcome::Frame,
        PollOutcome::Timeout,
        PollOutcome::Frame,
    ];
    let mut raw = args("1080p", "NFOV_UNBINNED", "30", "ON");
    raw.record_length = Some("1".to_string());
    let param = Parameter::from(&raw).unwrap();
    let mut rt = NativeRuntime::new(capture_script, imu_script, behavior());
    let mut abort = AbortSignal::new(None);
    let run = do_recording(&factory(), &param, &mut rt, &mut abort);
    assert!(run.outcome.is_ok());
    let sink = run.sink.unwrap();
    assert_eq!(sink.captures_written, 3);
    assert_eq!(sink.imu_samples_written, 3);
    assert!(sink.imu_track_declared);
    assert!(sink.flushed);
    assert_eq!(sink.phase, RecordPhase::Closed);
}

#[test]
fn validation_failures_are_reported_before_any_stream_starts() {
    let good = Parameter::from(&args("1080p", "NFOV_UNBINNED", "30", "OFF")).unwrap();

    let mut param = Parameter::from(&args("1080p", "NFOV_UNBINNED", "30", "OFF")).unwrap();
    param.device_index = 5;
    let mut rt = NativeRuntime::new(Vec::new(), Vec::new(), behavior());
    let mut abort = AbortSignal::new(Some(0));
    let run = do_recording(&factory(), &param, &mut rt, &mut abort);
    assert!(run.sink.is_none());
    assert_eq!(run.outcome.unwrap_err().message(), "Device not found.");

    let mut closed_factory = factory();
    closed_factory.core.open_succeeds = false;
    let mut rt = NativeRuntime::new(Vec::new(), Vec::new(), behavior());
    let mut abort = AbortSignal::new(Some(0));
    let run = do_recording(&closed_factory, &good, &mut rt, &mut abort);
    assert_eq!(
        run.outcome.unwrap_err().message(),
        "Runtime error: k4a_device_open() failed "
    );

    let disabled = Parameter::from(&args("OFF", "OFF", "30", "OFF")).unwrap();
    let mut rt = NativeRuntime::new(Vec::new(), Vec::new(), behavior());
    let mut abort = AbortSignal::new(Some(0));
    let run = do_recording(&factory(), &disabled, &mut rt, &mut abort);
    assert!(run.sink.is_none());
    assert_eq!(
        run.outcome.unwrap_err().message(),
        "Either the color or depth modes must be enabled to record."
    );
}

#[test]
fn fatal_poll_errors_still_shut_down_in_order() {
    // The first capture arrives, then the stream fails fatally.
    let script = vec![PollOutcome::Frame, PollOutcome::Failed];
    let mut raw = args("1080p", "NFOV_UNBINNED", "30", "OFF");
    raw.record_length = Some("2".to_string());
    let param = Parameter::from(&raw).unwrap();
    let mut rt = NativeRuntime::new(script, Vec::new(), behavior());
    let mut abort = AbortSignal::new(None);
    let run = do_recording(&factory(), &param, &mut rt, &mut abort);
    assert_eq!(
        run.outcome.unwrap_err().message(),
        "Runtime error: k4a_device_get_capture() returned error"
    );
    let sink = run.sink.unwrap();
    assert_eq!(sink.captures_written, 0);
    assert!(sink.flushed);
    assert_eq!(sink.phase, RecordPhase::Closed);
    assert!(!rt.cameras_running);
    assert!(!rt.imu_running);
}

#[test]
fn timed_out_first_capture_is_fatal() {
    let mut raw = args("1080p", "NFOV_UNBINNED", "5", "OFF");
    raw.record_length = Some("1".to_string());
    let param = Parameter::from(&raw).unwrap();
    let mut rt = NativeRuntime::new(Vec::new(), Vec::new(), behavior());
    let mut abort = AbortSignal::new(None);
    let run = do_recording(&factory(), &param, &mut rt, &mut abort);
    assert_eq!(
        run.outcome.unwrap_err().message(),
        "Timed out waiting for first capture."
    );
    let sink = run.sink.unwrap();
    assert_eq!(sink.captures_written, 0);
    assert!(sink.header_written);
    assert_eq!(sink.phase, RecordPhase::Closed);
}

#[test]
fn exposure_and_gain_are_each_set_once_before_the_streams_start() {
    let mut param = Parameter::from(&args("1080p", "NFOV_UNBINNED", "30", "OFF")).unwrap();
    param.absolute_exposure_value = Some(2);
    let mut rt = NativeRuntime::new(Vec::new(), Vec::new(), behavior());
    let mut abort = AbortSignal::new(Some(0));
    let run = do_recording(&factory(), &param, &mut rt, &mut abort);
    assert!(run.outcome.is_ok());
    assert_eq!(
        rt.color_controls,
        vec![
            ColorControlWrite {
                command: ColorControlCommand::ExposureTimeAbsolute,
                mode: ColorControlMode::Manual,
                value: 2,
            },
            ColorControlWrite {
                command: ColorControlCommand::Gain,
                mode: ColorControlMode::Auto,
                value: 0,
            },
        ]
    );

    // A hardware that rejects the writes leaves no record, and the run is
    // unaffected.
    let mut deaf = behavior();
    deaf.color_control_succeeds = false;
    let mut rt = NativeRuntime::new(Vec::new(), Vec::new(), deaf);
    let mut abort = AbortSignal::new(Some(0));
    let run = do_recording(&factory(), &param, &mut rt, &mut abort);
    assert!(run.outcome.is_ok());
    assert!(rt.color_controls.is_empty());
}

#[test]
fn captures_are_released_once_written() {
    let script = vec![
        PollOutcome::Frame,
        PollOutcome::Frame,
        PollOutcome::Frame,
    ];
    let mut raw = args("1080p", "NFOV_UNBINNED", "30", "OFF");
    raw.record_length = Some("1".to_string());
    let param = Parameter::from(&raw).unwrap();
    let mut rt = NativeRuntime::new(script, Vec::new(), behavior());
    let mut abort = AbortSignal::new(None);
    let run = do_recording(&factory(), &param, &mut rt, &mut abort);
    assert!(run.outcome.is_ok());
    // Every capture handle the run acquired has been released again.
    assert_eq!(rt.ledger.live_count(), 0);
}

#[test]
fn capture_sharing_mirrors_native_reference_counting() {
    let device = Device { serial_number: "0001".to_string(), version: version() };
    let mut rt = NativeRuntime::new(vec![PollOutcome::Frame], Vec::new(), behavior());
    let camera = device.start_cameras(&mut rt, &Parameter::from(
        &args("1080p", "NFOV_UNBINNED", "30", "OFF"),
    ).unwrap().device_config).unwrap();
    let capture = camera.get_capture(&mut rt, 100).unwrap();
    let shared = rt.reference_capture(&capture);
    assert_eq!(rt.ledger.live_count(), 1);
    assert!(!rt.release_capture(capture));
    assert!(rt.release_capture(shared));
    assert_eq!(rt.ledger.live_count(), 0);
    camera.stop(&mut rt);
    device.close();
}

#[test]
fn timeout_polls_are_not_errors_for_any_window() {
    let device = Device { serial_number: "0001".to_string(), version: version() };
    let mut rt = NativeRuntime::new(
        vec![PollOutcome::Timeout, PollOutcome::Timeout, PollOutcome::Failed],
        vec![PollOutcome::Timeout],
        behavior(),
    );
    let config = Parameter::from(&args("1080p", "NFOV_UNBINNED", "30", "ON"))
        .unwrap()
        .device_config;
    let camera = device.start_cameras(&mut rt, &config).unwrap();
    assert_eq!(camera.get_capture(&mut rt, 0).unwrap_err(), Error::Timeout);
    assert_eq!(camera.get_capture(&mut rt, 100).unwrap_err(), Error::Timeout);
    assert_eq!(camera.get_capture(&mut rt, 0).unwrap_err(), Error::Failed);

    let imu = camera.start_imu(&mut rt).unwrap();
    assert_eq!(imu.get_imu_sample(&mut rt, 0).unwrap_err(), Error::Timeout);
    imu.stop(&mut rt);
    camera.stop(&mut rt);
    device.close();
}

#[test]
fn serial_number_travels_through_the_probe_protocol() {
    let f = factory();
    let device = f.device_open(0).unwrap();
    assert_eq!(device.get_serialnum().unwrap(), "000123456789");
    assert_eq!(device.get_version().unwrap(), version());

    let mut empty_serial = factory();
    empty_serial.core.serial_number = String::new();
    let device = empty_serial.device_open(0).unwrap();
    assert_eq!(device.get_serialnum(), Err(Error::TooSmall));
}

#[test]
fn unbounded_polls_block_until_data_or_failure() {
    let device = Device { serial_number: "0001".to_string(), version: version() };
    let mut rt = NativeRuntime::new(
        vec![PollOutcome::Frame],
        vec![PollOutcome::Frame],
        behavior(),
    );
    let config = Parameter::from(&args("1080p", "NFOV_UNBINNED", "30", "ON"))
        .unwrap()
        .device_config;
    let camera = device.start_cameras(&mut rt, &config).unwrap();
    let capture = camera.get_capture_wait_infinite(&mut rt).unwrap();
    assert!(rt.release_capture(capture));

    let imu = camera.start_imu(&mut rt).unwrap();
    assert!(imu.get_imu_sample_wait_infinite(&mut rt).is_ok());
    imu.stop(&mut rt);
    camera.stop(&mut rt);
    device.close();
}

#[test]
fn failures_to_start_or_create_name_the_operation() {
    let param = Parameter::from(&args("1080p", "NFOV_UNBINNED", "30", "ON")).unwrap();

    let mut rejected = behavior();
    rejected.start_cameras_succeeds = false;
    let mut rt = NativeRuntime::new(Vec::new(), Vec::new(), rejected);
    let mut abort = AbortSignal::new(Some(0));
    let run = do_recording(&factory(), &param, &mut rt, &mut abort);
    assert!(run.sink.is_none());
    assert_eq!(
        run.outcome.unwrap_err().message(),
        "Runtime error: k4a_device_start_cameras() failed"
    );

    let mut no_imu = behavior();
    no_imu.start_imu_succeeds = false;
    let mut rt = NativeRuntime::new(Vec::new(), Vec::new(), no_imu);
    let mut abort = AbortSignal::new(Some(0));
    let run = do_recording(&factory(), &param, &mut rt, &mut abort);
    assert_eq!(
        run.outcome.unwrap_err().message(),
        "Runtime error: k4a_device_start_imu() failed"
    );
    assert!(!rt.cameras_running);

    let mut no_sink = factory();
    no_sink.record_create_succeeds = false;
    let mut rt = NativeRuntime::new(Vec::new(), Vec::new(), behavior());
    let mut abort = AbortSignal::new(Some(0));
    let run = do_recording(&no_sink, &param, &mut rt, &mut abort);
    assert!(run.sink.is_none());
    assert_eq!(
        run.outcome.unwrap_err().message(),
        "Unable to create recording file: output.mkv"
    );
    assert!(!rt.cameras_running);
    assert!(!rt.imu_running);
}

#[test]
fn unwritable_media_fails_before_any_data_and_still_closes() {
    let param = Parameter::from(&args("1080p", "NFOV_UNBINNED", "30", "OFF")).unwrap();
    let mut dead_disk = behavior();
    dead_disk.sink_writes_succeed = false;
    let mut rt = NativeRuntime::new(Vec::new(), Vec::new(), dead_disk);
    let mut abort = AbortSignal::new(Some(0));
    let run = do_recording(&factory(), &param, &mut rt, &mut abort);
    assert_eq!(
        run.outcome.unwrap_err().message(),
        "Runtime error: k4a_record_write_header() failed"
    );
    let sink = run.sink.unwrap();
    assert!(!sink.header_written);
    assert_eq!(sink.captures_written, 0);
    assert_eq!(sink.phase, RecordPhase::Closed);
}
