//! The capability table: a process-wide table of named native entry points,
//! resolved once from a loaded module.
//!
//! Every other component calls through this table rather than the OS loader
//! directly. Resolution walks a fixed list of required names in one pass; if
//! any name is missing the whole load fails with the OS diagnostic code, and
//! the partially mapped table is discarded before returning. A table either
//! owns its module (and is responsible for unloading it, exactly once, when
//! the table is destroyed) or borrows a module some sibling table loaded.

use vstd::prelude::*;
use crate::error::Error;

verus! {

/// An immutable mapping from required entry point to resolved address,
/// plus whether this table is responsible for unloading its module.
pub struct CapabilityTable {
    addresses: Vec<u64>,
    owned: bool,
}

impl CapabilityTable {
    /// How many entry points the table resolved.
    pub closed spec fn spec_len(&self) -> int {
        self.addresses@.len() as int
    }

    /// The resolved address of entry point `i`.
    pub closed spec fn spec_entry(&self, i: int) -> u64 {
        self.addresses@[i]
    }

    /// Whether this table must unload its module when destroyed.
    pub closed spec fn spec_owned(&self) -> bool {
        self.owned
    }

    pub fn len(&self) -> (r: usize)
        ensures
            r == self.spec_len(),
    {
        self.addresses.len()
    }

    pub fn entry(&self, i: usize) -> (r: u64)
        requires
            i < self.spec_len(),
        ensures
            r == self.spec_entry(i as int),
    {
        self.addresses[i]
    }

    pub fn is_owned(&self) -> (r: bool)
        ensures
            r == self.spec_owned(),
    {
        self.owned
    }

    /// Destroys the table. The module is unloaded now — exactly once, since
    /// the table is consumed — and only if this table owns it; the returned
    /// flag says whether the unload was performed.
    pub fn unload(self) -> (performed: bool)
        ensures
            performed == self.spec_owned(),
    {
        self.owned
    }
}

/// Resolves every name of `names` through `lookup` in one pass. On success
/// the table maps each name, in order, to the address the lookup returned
/// for it; if any name is missing, the partially mapped table is discarded
/// and the OS diagnostic code of the first missing name is returned.
pub fn resolve_table<F: Fn(&'static str) -> Result<u64, u32>>(
    names: &Vec<&'static str>,
    lookup: &F,
    owned: bool,
) -> (r: Result<CapabilityTable, Error>)
    requires
        forall|i: int| 0 <= i < names@.len() ==> call_requires(*lookup, (names@[i],)),
    ensures
        match r {
            Ok(t) => t.spec_owned() == owned && t.spec_len() == names@.len() && forall|i: int|
                0 <= i < names@.len() ==> call_ensures(
                    *lookup,
                    (names@[i],),
                    Ok(#[trigger] t.spec_entry(i)),
                ),
            Err(e) => exists|i: int, c: u32|
                0 <= i < names@.len() && #[trigger] call_ensures(*lookup, (names@[i],), Err(c))
                    && e == Error::Win32Error(c),
        },
{
    let mut addresses: Vec<u64> = Vec::new();
    let mut i: usize = 0;
    while i < names.len()
        invariant
            i <= names@.len(),
            addresses@.len() == i,
            forall|k: int| 0 <= k < names@.len() ==> call_requires(*lookup, (names@[k],)),
            forall|j: int|
                0 <= j < i ==> call_ensures(*lookup, (names@[j],), Ok(#[trigger] addresses@[j])),
        decreases names@.len() - i,
    {
        let name = names[i];
        match lookup(name) {
            Ok(address) => {
                addresses.push(address);
            },
            Err(code) => {
                return Err(Error::Win32Error(code));
            },
        }
        i += 1;
    }
    Ok(CapabilityTable { addresses, owned })
}

/// The fixed list of entry points the core device module must provide:
/// device lifecycle and polling, capture and image accessors and mutators,
/// calibration and transformation math.
pub fn required_device_entry_points() -> (r: Vec<&'static str>)
    ensures
        r@.len() == 65,
{
    let mut names: Vec<&'static str> = Vec::new();
    names.push("k4a_device_get_installed_count");
    names.push("k4a_set_debug_message_handler");
    names.push("k4a_set_allocator");
    names.push("k4a_device_open");
    names.push("k4a_device_close");
    names.push("k4a_device_get_capture");
    names.push("k4a_device_get_imu_sample");
    names.push("k4a_capture_create");
    names.push("k4a_capture_release");
    names.push("k4a_capture_reference");
    names.push("k4a_capture_get_color_image");
    names.push("k4a_capture_get_depth_image");
    names.push("k4a_capture_get_ir_image");
    names.push("k4a_capture_set_color_image");
    names.push("k4a_capture_set_depth_image");
    names.push("k4a_capture_set_ir_image");
    names.push("k4a_capture_set_temperature_c");
    names.push("k4a_capture_get_temperature_c");
    names.push("k4a_image_create");
    names.push("k4a_image_create_from_buffer");
    names.push("k4a_image_get_buffer");
    names.push("k4a_image_get_size");
    names.push("k4a_image_get_format");
    names.push("k4a_image_get_width_pixels");
    names.push("k4a_image_get_height_pixels");
    names.push("k4a_image_get_stride_bytes");
    names.push("k4a_image_get_timestamp_usec");
    names.push("k4a_image_get_device_timestamp_usec");
    names.push("k4a_image_get_system_timestamp_nsec");
    names.push("k4a_image_get_exposure_usec");
    names.push("k4a_image_get_white_balance");
    names.push("k4a_image_get_iso_speed");
    names.push("k4a_image_set_device_timestamp_usec");
    names.push("k4a_image_set_timestamp_usec");
    names.push("k4a_image_set_system_timestamp_nsec");
    names.push("k4a_image_set_exposure_usec");
    names.push("k4a_image_set_exposure_time_usec");
    names.push("k4a_image_set_white_balance");
    names.push("k4a_image_set_iso_speed");
    names.push("k4a_image_reference");
    names.push("k4a_image_release");
    names.push("k4a_device_start_cameras");
    names.push("k4a_device_stop_cameras");
    names.push("k4a_device_start_imu");
    names.push("k4a_device_stop_imu");
    names.push("k4a_device_get_serialnum");
    names.push("k4a_device_get_version");
    names.push("k4a_device_get_color_control_capabilities");
    names.push("k4a_device_get_color_control");
    names.push("k4a_device_set_color_control");
    names.push("k4a_device_get_raw_calibration");
    names.push("k4a_device_get_calibration");
    names.push("k4a_device_get_sync_jack");
    names.push("k4a_calibration_get_from_raw");
    names.push("k4a_calibration_3d_to_3d");
    names.push("k4a_calibration_2d_to_3d");
    names.push("k4a_calibration_3d_to_2d");
    names.push("k4a_calibration_2d_to_2d");
    names.push("k4a_calibration_color_2d_to_depth_2d");
    names.push("k4a_transformation_create");
    names.push("k4a_transformation_destroy");
    names.push("k4a_transformation_depth_image_to_color_camera");
    names.push("k4a_transformation_depth_image_to_color_camera_custom");
    names.push("k4a_transformation_color_image_to_depth_camera");
    names.push("k4a_transformation_depth_image_to_point_cloud");
    names
}

/// The fixed list of entry points the recording module must provide:
/// recording create/write/flush/close and playback open/seek/read.
pub fn required_recording_entry_points() -> (r: Vec<&'static str>)
    ensures
        r@.len() == 40,
{
    let mut names: Vec<&'static str> = Vec::new();
    names.push("k4a_record_create");
    names.push("k4a_record_add_tag");
    names.push("k4a_record_add_imu_track");
    names.push("k4a_record_add_attachment");
    names.push("k4a_record_add_custom_video_track");
    names.push("k4a_record_add_custom_subtitle_track");
    names.push("k4a_record_write_header");
    names.push("k4a_record_write_capture");
    names.push("k4a_record_write_imu_sample");
    names.push("k4a_record_write_custom_track_data");
    names.push("k4a_record_flush");
    names.push("k4a_record_close");
    names.push("k4a_playback_open");
    names.push("k4a_playback_get_raw_calibration");
    names.push("k4a_playback_get_calibration");
    names.push("k4a_playback_get_record_configuration");
    names.push("k4a_playback_check_track_exists");
    names.push("k4a_playback_get_track_count");
    names.push("k4a_playback_get_track_name");
    names.push("k4a_playback_track_is_builtin");
    names.push("k4a_playback_track_get_video_settings");
    names.push("k4a_playback_track_get_codec_id");
    names.push("k4a_playback_track_get_codec_context");
    names.push("k4a_playback_get_tag");
    names.push("k4a_playback_set_color_conversion");
    names.push("k4a_playback_get_attachment");
    names.push("k4a_playback_get_next_capture");
    names.push("k4a_playback_get_previous_capture");
    names.push("k4a_playback_get_next_imu_sample");
    names.push("k4a_playback_get_previous_imu_sample");
    names.push("k4a_playback_get_next_data_block");
    names.push("k4a_playback_get_previous_data_block");
    names.push("k4a_playback_data_block_get_device_timestamp_usec");
    names.push("k4a_playback_data_block_get_buffer_size");
    names.push("k4a_playback_data_block_get_buffer");
    names.push("k4a_playback_data_block_release");
    names.push("k4a_playback_seek_timestamp");
    names.push("k4a_playback_get_recording_length_usec");
    names.push("k4a_playback_get_last_timestamp_usec");
    names.push("k4a_playback_close");
    names
}

} // verus!
