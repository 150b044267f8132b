use azure_kinect::capability::{
    required_device_entry_points, required_recording_entry_points, resolve_table,
};
use azure_kinect::device::DeviceConfiguration;
use azure_kinect::enums::{
    ColorControlMode, ColorResolution, DepthMode, Fps, ImageFormat, WiredSyncMode,
};
use azure_kinect::error::{
    Error, K4A_BUFFER_RESULT_TOO_SMALL, K4A_RESULT_SUCCEEDED, K4A_STREAM_RESULT_EOF,
    K4A_WAIT_RESULT_FAILED, K4A_WAIT_RESULT_SUCCEEDED, K4A_WAIT_RESULT_TIMEOUT,
};
use azure_kinect::handle::ResourceLedger;
use azure_kinect::structs::{ColorControlCapabilities, Dimension, Range};

#[test]
fn k4a_import_test() {
    let _n = ResourceLedger::new();
    let _x = K4A_RESULT_SUCCEEDED;
}

#[test]
fn status_classification() {
    assert_eq!(Error::from_k4a_result_t(0), Error::Succeeded);
    assert_eq!(Error::from_k4a_result_t(1), Error::Failed);
    assert_eq!(Error::from_k4a_result_t(7), Error::Failed);

    assert_eq!(Error::from_k4a_buffer_result_t(0), Error::Succeeded);
    assert_eq!(Error::from_k4a_buffer_result_t(1), Error::Failed);
    assert_eq!(Error::from_k4a_buffer_result_t(K4A_BUFFER_RESULT_TOO_SMALL), Error::TooSmall);

    assert_eq!(Error::from_k4a_wait_result_t(K4A_WAIT_RESULT_SUCCEEDED), Error::Succeeded);
    assert_eq!(Error::from_k4a_wait_result_t(K4A_WAIT_RESULT_FAILED), Error::Failed);
    assert_eq!(Error::from_k4a_wait_result_t(K4A_WAIT_RESULT_TIMEOUT), Error::Timeout);
    assert_ne!(Error::from_k4a_wait_result_t(K4A_WAIT_RESULT_TIMEOUT), Error::Failed);

    assert_eq!(Error::from_k4a_stream_result_t(K4A_STREAM_RESULT_EOF), Error::Eof);
    assert_eq!(Error::from_k4a_stream_result_t(1), Error::Failed);
}

#[test]
fn status_to_result() {
    assert_eq!(Error::Succeeded.to_result(5), Ok(5));
    assert_eq!(Error::Failed.to_result(5), Err(Error::Failed));
    assert_eq!(Error::Timeout.to_result(()), Err(Error::Timeout));
    assert_eq!(Error::Succeeded.to_result_fn(|| 7), Ok(7));
    assert_eq!(Error::Win32Error(126).to_result_fn(|| 7), Err(Error::Win32Error(126)));
}

#[test]
fn depth_mode_tables() {
    assert_eq!(DepthMode::NFov2x2Binned.get_dimension(), Dimension { width: 320, height: 288 });
    assert_eq!(DepthMode::NFovUnbinned.get_dimension(), Dimension { width: 640, height: 576 });
    assert_eq!(DepthMode::WFov2x2Binned.get_dimension(), Dimension { width: 512, height: 512 });
    assert_eq!(DepthMode::WFovUnbinned.get_dimension(), Dimension { width: 1024, height: 1024 });
    assert_eq!(DepthMode::PassiveIr.get_dimension(), Dimension { width: 1024, height: 1024 });
    assert_eq!(DepthMode::Off.get_dimension(), Dimension { width: 0, height: 0 });

    assert_eq!(DepthMode::NFov2x2Binned.get_range(), Range { min: 500u16, max: 5800u16 });
    assert_eq!(DepthMode::WFovUnbinned.get_range(), Range { min: 250u16, max: 2500u16 });
    assert_eq!(DepthMode::Off.get_range(), Range { min: 0u16, max: 0u16 });

    assert_eq!(DepthMode::PassiveIr.get_ir_level(), Range { min: 250u16, max: 3000u16 });
    assert_eq!(DepthMode::Off.get_ir_level(), Range { min: 0u16, max: 0u16 });
    assert_eq!(DepthMode::NFovUnbinned.get_ir_level(), Range { min: 0u16, max: 1000u16 });
}

#[test]
fn color_resolution_tables() {
    assert_eq!(ColorResolution::_720p.get_dimension(), Dimension { width: 1280, height: 720 });
    assert_eq!(ColorResolution::_1080p.get_dimension(), Dimension { width: 1920, height: 1080 });
    assert_eq!(ColorResolution::_1440p.get_dimension(), Dimension { width: 2560, height: 1440 });
    assert_eq!(ColorResolution::_1536p.get_dimension(), Dimension { width: 2048, height: 1536 });
    assert_eq!(ColorResolution::_2160p.get_dimension(), Dimension { width: 3840, height: 2160 });
    assert_eq!(ColorResolution::_3072p.get_dimension(), Dimension { width: 4096, height: 3072 });
    assert_eq!(ColorResolution::Off.get_dimension(), Dimension { width: 0, height: 0 });
}

#[test]
fn frame_rates() {
    assert_eq!(Fps::_5fps.get_u32(), 5);
    assert_eq!(Fps::_15fps.get_u32(), 15);
    assert_eq!(Fps::_30fps.get_u32(), 30);
}

#[test]
fn enum_wire_encodings() {
    assert_eq!(DepthMode::NFovUnbinned.as_primitive(), 2);
    assert_eq!(DepthMode::from_primitive(2), Some(DepthMode::NFovUnbinned));
    assert_eq!(DepthMode::from_primitive(6), None);
    assert_eq!(ColorResolution::_3072p.as_primitive(), 6);
    assert_eq!(ColorResolution::from_primitive(6), Some(ColorResolution::_3072p));
    assert_eq!(ImageFormat::BGRA32.as_primitive(), 3);
    assert_eq!(ImageFormat::from_primitive(8), Some(ImageFormat::Custom));
    assert_eq!(Fps::from_primitive(0), Some(Fps::_5fps));
    assert_eq!(WiredSyncMode::Subordinate.as_primitive(), 2);
    assert_eq!(WiredSyncMode::from_primitive(1), Some(WiredSyncMode::Master));
    assert_eq!(ColorControlMode::Manual.as_primitive(), 1);
}

#[test]
fn configuration_builder() {
    let config = DeviceConfiguration::builder()
        .color_format(ImageFormat::NV12)
        .color_resolution(ColorResolution::_720p)
        .depth_mode(DepthMode::PassiveIr)
        .camera_fps(Fps::_15fps)
        .synchronized_images_only(true)
        .depth_delay_off_color_usec(-100)
        .wired_sync_mode(WiredSyncMode::Master)
        .subordinate_delay_off_master_usec(40)
        .disable_streaming_indicator(true)
        .build();
    assert_eq!(config.color_format(), ImageFormat::NV12);
    assert_eq!(config.color_resolution(), ColorResolution::_720p);
    assert_eq!(config.depth_mode(), DepthMode::PassiveIr);
    assert_eq!(config.camera_fps(), Fps::_15fps);
    assert!(config.synchronized_images_only());
    assert_eq!(config.depth_delay_off_color_usec(), -100);
    assert_eq!(config.wired_sync_mode(), WiredSyncMode::Master);
    assert_eq!(config.subordinate_delay_off_master_usec(), 40);
    assert!(config.disable_streaming_indicator());
}

#[test]
fn configuration_default_disables_all_streams() {
    let config = DeviceConfiguration::default();
    assert_eq!(config.color_format(), ImageFormat::MJPG);
    assert_eq!(config.color_resolution(), ColorResolution::Off);
    assert_eq!(config.depth_mode(), DepthMode::Off);
    assert_eq!(config.camera_fps(), Fps::_5fps);
    assert!(!config.synchronized_images_only());
    assert_eq!(config.wired_sync_mode(), WiredSyncMode::Standalone);
    assert_eq!(config, DeviceConfiguration::builder().build());
}

#[test]
fn capability_table_resolves_every_name_or_fails_with_the_os_code() {
    let device_names = required_device_entry_points();
    assert_eq!(device_names.len(), 65);
    let recording_names = required_recording_entry_points();
    assert_eq!(recording_names.len(), 40);
    assert_eq!(device_names[0], "k4a_device_get_installed_count");
    assert_eq!(recording_names[0], "k4a_record_create");

    let lookup = |name: &'static str| -> Result<u64, u32> {
        Ok(name.len() as u64)
    };
    let table = resolve_table(&device_names, &lookup, true).unwrap();
    assert_eq!(table.len(), 65);
    assert_eq!(table.entry(0), "k4a_device_get_installed_count".len() as u64);
    assert!(table.is_owned());
    assert!(table.unload());

    let failing = |name: &'static str| -> Result<u64, u32> {
        if name == "k4a_record_flush" {
            Err(127)
        } else {
            Ok(1)
        }
    };
    let table = resolve_table(&recording_names, &failing, false);
    match table {
        Err(Error::Win32Error(code)) => assert_eq!(code, 127),
        _ => panic!("a missing entry point must fail the whole load"),
    }

    let borrowed = resolve_table(&recording_names, &lookup, false).unwrap();
    assert!(!borrowed.is_owned());
    assert!(!borrowed.unload());
}

#[test]
fn color_control_capabilities_value() {
    let caps = ColorControlCapabilities {
        supports_auto: true,
        min_value: 2,
        max_value: 200000,
        step_value: 1,
        default_value: 33330,
        default_mode: ColorControlMode::Auto,
    };
    assert!(caps.supports_auto);
    assert_eq!(caps.default_mode, ColorControlMode::Auto);
}
