use azure_kinect::enums::{ColorResolution, DepthMode, Fps, ImageFormat, WiredSyncMode};
use azure_kinect::param::{
    correct_param, correct_param_range, matches_lowered, parse_i64, parse_u64, to_depth_mode,
    to_external_sync, to_format_and_resolution, to_frame_rate, to_imu_mode, Parameter, RawArgs,
};

#[test]
fn conv_param_test() {
    assert_eq!(
        to_format_and_resolution("3072p").unwrap(),
        (ImageFormat::MJPG, ColorResolution::_3072p)
    );
    assert_eq!(
        to_format_and_resolution("2160p").unwrap(),
        (ImageFormat::MJPG, ColorResolution::_2160p)
    );
    assert_eq!(
        to_format_and_resolution("1536p").unwrap(),
        (ImageFormat::MJPG, ColorResolution::_1536p)
    );
    assert_eq!(
        to_format_and_resolution("1440p").unwrap(),
        (ImageFormat::MJPG, ColorResolution::_1440p)
    );
    assert_eq!(
        to_format_and_resolution("1080p").unwrap(),
        (ImageFormat::MJPG, ColorResolution::_1080p)
    );
    assert_eq!(
        to_format_and_resolution("720p").unwrap(),
        (ImageFormat::MJPG, ColorResolution::_720p)
    );
    assert!(to_format_and_resolution("720p_nv12").is_ok());
    assert!(to_format_and_resolution("720p_yuy2").is_ok());
    assert_eq!(
        to_format_and_resolution("720p_NV12").unwrap(),
        (ImageFormat::NV12, ColorResolution::_720p)
    );
    assert_eq!(
        to_format_and_resolution("720p_YUY2").unwrap(),
        (ImageFormat::YUY2, ColorResolution::_720p)
    );
    assert_eq!(
        to_format_and_resolution("OFF").unwrap(),
        (ImageFormat::MJPG, ColorResolution::Off)
    );
    assert!(to_format_and_resolution("asdqv").is_err());

    assert_eq!(to_depth_mode("NFOV_2X2BINNED").unwrap(), DepthMode::NFov2x2Binned);
    assert_eq!(to_depth_mode("NFOV_UNBINNED").unwrap(), DepthMode::NFovUnbinned);
    assert_eq!(to_depth_mode("WFOV_2X2BINNED").unwrap(), DepthMode::WFov2x2Binned);
    assert_eq!(to_depth_mode("WFOV_UNBINNED").unwrap(), DepthMode::WFovUnbinned);
    assert_eq!(to_depth_mode("PASSIVE_IR").unwrap(), DepthMode::PassiveIr);
    assert_eq!(to_depth_mode("OFF").unwrap(), DepthMode::Off);
    assert!(to_depth_mode("off").is_ok());
    assert!(to_depth_mode("asdwergsdgsdfds").is_err());

    assert_eq!(to_frame_rate("30").unwrap(), Fps::_30fps);
    assert_eq!(to_frame_rate("15").unwrap(), Fps::_15fps);
    assert_eq!(to_frame_rate("5").unwrap(), Fps::_5fps);
    assert!(to_frame_rate("1").is_err());

    assert!(to_imu_mode("ON").unwrap());
    assert!(!to_imu_mode("OFF").unwrap());
    assert!(to_imu_mode("On").unwrap());
    assert!(to_imu_mode("poasdas").is_err());

    assert_eq!(to_external_sync("master").unwrap(), WiredSyncMode::Master);
    assert_eq!(to_external_sync("Subordinate").unwrap(), WiredSyncMode::Subordinate);
    assert_eq!(to_external_sync("SUB").unwrap(), WiredSyncMode::Subordinate);
    assert_eq!(to_external_sync("STANDALONE").unwrap(), WiredSyncMode::Standalone);
    assert!(to_external_sync("as098kasd").is_err());
}

#[test]
fn keyword_error_messages() {
    let e = to_format_and_resolution("wide").unwrap_err();
    assert_eq!(e.message(), "Unknown color mode specified: wide");
    let e = to_depth_mode("deep").unwrap_err();
    assert_eq!(e.message(), "Unknown depth mode specified: deep");
    let e = to_frame_rate("60").unwrap_err();
    assert_eq!(e.message(), "Unknown frame rate specified: 60");
    let e = to_imu_mode("maybe").unwrap_err();
    assert_eq!(e.message(), "Unknown imu mode specified: maybe");
    let e = to_external_sync("peer").unwrap_err();
    assert_eq!(e.message(), "Unknown external sync mode specified: peer");
}

#[test]
fn matching_is_case_insensitive_only() {
    assert!(matches_lowered("NfOv_UnBiNnEd", "nfov_unbinned"));
    assert!(matches_lowered("720p", "720p"));
    assert!(!matches_lowered("720p ", "720p"));
    assert!(!matches_lowered("720", "720p"));
}

#[test]
fn decimal_parsing() {
    assert_eq!(parse_u64("0"), Some(0));
    assert_eq!(parse_u64("1234"), Some(1234));
    assert_eq!(parse_u64(""), None);
    assert_eq!(parse_u64("12a"), None);
    assert_eq!(parse_u64("-3"), None);
    assert_eq!(parse_u64("18446744073709551615"), Some(u64::MAX));
    assert_eq!(parse_u64("18446744073709551616"), None);

    assert_eq!(parse_u64("+5"), Some(5));
    assert_eq!(parse_u64("+"), None);
    assert_eq!(parse_u64("++1"), None);

    assert_eq!(parse_i64("42"), Some(42));
    assert_eq!(parse_i64("+42"), Some(42));
    assert_eq!(parse_i64("-+5"), None);
    assert_eq!(parse_i64("-42"), Some(-42));
    assert_eq!(parse_i64("-"), None);
    assert_eq!(parse_i64("9223372036854775807"), Some(i64::MAX));
    assert_eq!(parse_i64("-9223372036854775808"), Some(i64::MIN));
    assert_eq!(parse_i64("9223372036854775808"), None);
}

#[test]
fn range_clamping() {
    assert_eq!(correct_param_range(Some("300"), 0, 255), Some(255));
    assert_eq!(correct_param_range(Some("+300"), 0, 255), Some(255));
    assert_eq!(correct_param_range(Some("-11"), 2, 200000), Some(2));
    assert_eq!(correct_param_range(Some("100"), 2, 200000), Some(100));
    assert_eq!(correct_param_range(Some("abc"), 0, 255), None);
    assert_eq!(correct_param_range(None, 0, 255), None);
    assert_eq!(correct_param_range(Some("99999999999999999999"), 0, 255), None);

    let double = |v: i32| -> i32 { v.saturating_mul(2) };
    assert_eq!(correct_param(Some("21"), &double), Some(42));
    assert_eq!(correct_param(None, &double), None);
}

fn default_args() -> RawArgs {
    RawArgs {
        list: false,
        device: None,
        record_length: Some("infinite".to_string()),
        color_mode: "1080p".to_string(),
        depth_mode: "NFOV_UNBINNED".to_string(),
        depth_delay: Some("0".to_string()),
        rate: "30".to_string(),
        imu: Some("ON".to_string()),
        external_sync: "Standalone".to_string(),
        sync_delay: Some("0".to_string()),
        exposure_control: None,
        gain: None,
        output: Some("output.mkv".to_string()),
    }
}

#[test]
fn parameter_from_defaults() {
    let p = Parameter::from(&default_args()).unwrap();
    assert!(!p.list_device);
    assert_eq!(p.device_index, 0);
    assert_eq!(p.recording_filename, "output.mkv");
    assert_eq!(p.recording_length, None);
    assert_eq!(p.device_config.color_format(), ImageFormat::MJPG);
    assert_eq!(p.device_config.color_resolution(), ColorResolution::_1080p);
    assert_eq!(p.device_config.depth_mode(), DepthMode::NFovUnbinned);
    assert_eq!(p.device_config.camera_fps(), Fps::_30fps);
    assert!(!p.device_config.synchronized_images_only());
    assert_eq!(p.device_config.depth_delay_off_color_usec(), 0);
    assert_eq!(p.device_config.wired_sync_mode(), WiredSyncMode::Standalone);
    assert_eq!(p.device_config.subordinate_delay_off_master_usec(), 0);
    assert!(!p.device_config.disable_streaming_indicator());
    assert!(p.record_imu);
    assert_eq!(p.absolute_exposure_value, None);
    assert_eq!(p.gain, None);
}

#[test]
fn parameter_from_overrides() {
    let mut args = default_args();
    args.device = Some("2".to_string());
    args.record_length = Some("90".to_string());
    args.color_mode = "720p_yuy2".to_string();
    args.depth_mode = "off".to_string();
    args.rate = "15".to_string();
    args.imu = Some("off".to_string());
    args.external_sync = "sub".to_string();
    args.sync_delay = Some("250".to_string());
    args.exposure_control = Some("1".to_string());
    args.gain = Some("128".to_string());
    let p = Parameter::from(&args).unwrap();
    assert_eq!(p.device_index, 2);
    assert_eq!(p.recording_length, Some(90));
    assert_eq!(p.device_config.color_format(), ImageFormat::YUY2);
    assert_eq!(p.device_config.color_resolution(), ColorResolution::_720p);
    assert_eq!(p.device_config.depth_mode(), DepthMode::Off);
    assert_eq!(p.device_config.camera_fps(), Fps::_15fps);
    assert_eq!(p.device_config.wired_sync_mode(), WiredSyncMode::Subordinate);
    assert_eq!(p.device_config.subordinate_delay_off_master_usec(), 250);
    assert!(!p.record_imu);
    assert_eq!(p.absolute_exposure_value, Some(2));
    assert_eq!(p.gain, Some(128));
}

#[test]
fn plus_signed_arguments_read_as_their_values() {
    let mut args = default_args();
    args.device = Some("+2".to_string());
    args.record_length = Some("+90".to_string());
    args.gain = Some("+128".to_string());
    args.exposure_control = Some("+1".to_string());
    let p = Parameter::from(&args).unwrap();
    assert_eq!(p.device_index, 2);
    assert_eq!(p.recording_length, Some(90));
    assert_eq!(p.gain, Some(128));
    assert_eq!(p.absolute_exposure_value, Some(2));

    let mut args = default_args();
    args.sync_delay = Some("+250".to_string());
    assert_eq!(
        Parameter::from(&args).unwrap_err().message(),
        "--sync-delay is only valid if --external-sync is set to Subordinate."
    );
}

#[test]
fn parameter_rejects_unsupported_rate_combination() {
    let mut args = default_args();
    args.depth_mode = "WFOV_UNBINNED".to_string();
    let e = Parameter::from(&args).unwrap_err();
    assert_eq!(
        e.message(),
        "Error: 30 Frames per second is not supported by this camera mode."
    );

    let mut args = default_args();
    args.color_mode = "3072p".to_string();
    assert!(Parameter::from(&args).is_err());

    let mut args = default_args();
    args.color_mode = "3072p".to_string();
    args.rate = "15".to_string();
    assert!(Parameter::from(&args).is_ok());
}

#[test]
fn parameter_rejects_sync_delay_outside_subordinate_mode() {
    let mut args = default_args();
    args.sync_delay = Some("100".to_string());
    let e = Parameter::from(&args).unwrap_err();
    assert_eq!(
        e.message(),
        "--sync-delay is only valid if --external-sync is set to Subordinate."
    );

    let mut args = default_args();
    args.sync_delay = Some("100".to_string());
    args.external_sync = "Subordinate".to_string();
    assert!(Parameter::from(&args).is_ok());
}

#[test]
fn parameter_reports_unknown_keywords() {
    let mut args = default_args();
    args.color_mode = "4k".to_string();
    assert_eq!(
        Parameter::from(&args).unwrap_err().message(),
        "Unknown color mode specified: 4k"
    );

    let mut args = default_args();
    args.imu = None;
    assert!(Parameter::from(&args).unwrap().record_imu);
}
