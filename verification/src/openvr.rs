//! The configuration of the headset driver.

use crate::float32::F32;
use crate::packets::UVec2;
use crate::session::{CodecType, SessionSettings, Settings};
use vstd::prelude::*;

verus! {

/// What the driver reads when it starts. The driver restarts to take up a new configuration.
#[derive(Clone, Debug, PartialEq)]
pub struct OpenvrConfig {
    pub universe_id: u64,
    pub headset_serial_number: String,
    pub headset_tracking_system_name: String,
    pub headset_model_number: String,
    pub headset_driver_version: String,
    pub headset_manufacturer_name: String,
    pub headset_render_model_name: String,
    pub headset_registered_device_type: String,
    pub eye_resolution_width: u32,
    pub eye_resolution_height: u32,
    pub target_eye_resolution_width: u32,
    pub target_eye_resolution_height: u32,
    pub seconds_from_vsync_to_photons: F32,
    pub force_3dof: bool,
    pub tracking_ref_only: bool,
    pub enable_vive_tracker_proxy: bool,
    pub aggressive_keyframe_resend: bool,
    pub adapter_index: u32,
    pub codec: u32,
    pub refresh_rate: u32,
    pub use_10bit_encoder: bool,
    pub force_sw_encoding: bool,
    pub sw_thread_count: u32,
    pub encode_bitrate_mbs: u64,
    pub enable_adaptive_bitrate: bool,
    pub bitrate_maximum: u64,
    pub latency_target: u64,
    pub latency_use_frametime: bool,
    pub latency_target_maximum: u64,
    pub latency_target_offset: i32,
    pub latency_threshold: u64,
    pub bitrate_up_rate: u64,
    pub bitrate_down_rate: u64,
    pub bitrate_light_load_threshold: F32,
    pub controllers_tracking_system_name: String,
    pub controllers_manufacturer_name: String,
    pub controllers_model_number: String,
    pub render_model_name_left_controller: String,
    pub render_model_name_right_controller: String,
    pub controllers_serial_number: String,
    pub controllers_type_left: String,
    pub controllers_type_right: String,
    pub controllers_registered_device_type: String,
    pub controllers_input_profile_path: String,
    pub controllers_mode_idx: i32,
    pub controllers_enabled: bool,
    pub position_offset: [F32; 3],
    pub linear_velocity_cutoff: F32,
    pub angular_velocity_cutoff: F32,
    pub position_offset_left: [F32; 3],
    pub rotation_offset_left: [F32; 3],
    pub haptics_intensity: F32,
    pub haptics_amplitude_curve: F32,
    pub haptics_min_duration: F32,
    pub haptics_low_duration_amplitude_multiplier: F32,
    pub haptics_low_duration_range: F32,
    pub use_headset_tracking_system: bool,
    pub enable_foveated_rendering: bool,
    pub foveation_center_size_x: F32,
    pub foveation_center_size_y: F32,
    pub foveation_center_shift_x: F32,
    pub foveation_center_shift_y: F32,
    pub foveation_edge_ratio_x: F32,
    pub foveation_edge_ratio_y: F32,
    pub enable_color_correction: bool,
    pub brightness: F32,
    pub contrast: F32,
    pub saturation: F32,
    pub gamma: F32,
    pub sharpening: F32,
    pub enable_fec: bool,
    pub linux_async_reprojection: bool,
}

/// The same three numbers in the same places.
pub open spec fn same_triple(a: [F32; 3], b: [F32; 3]) -> bool {
    a[0].same_spec(b[0]) && a[1].same_spec(b[1]) && a[2].same_spec(b[2])
}

/// A number for the codec: 1 for HEVC, 0 for H.264.
pub open spec fn codec_number(codec: CodecType) -> int {
    if codec == CodecType::HEVC {
        1
    } else {
        0
    }
}

/// The configuration that follows from the settings, the resolutions for video and for the
/// applications, and the refresh rate.
pub open spec fn config_for(
    settings: Settings,
    session: SessionSettings,
    video_eye: UVec2,
    target_eye: UVec2,
    refresh_rate: u32,
) -> OpenvrConfig {
    OpenvrConfig {
        universe_id: settings.headset.universe_id,
        headset_serial_number: settings.headset.serial_number,
        headset_tracking_system_name: settings.headset.tracking_system_name,
        headset_model_number: settings.headset.model_number,
        headset_driver_version: settings.headset.driver_version,
        headset_manufacturer_name: settings.headset.manufacturer_name,
        headset_render_model_name: settings.headset.render_model_name,
        headset_registered_device_type: settings.headset.registered_device_type,
        eye_resolution_width: video_eye.x,
        eye_resolution_height: video_eye.y,
        target_eye_resolution_width: target_eye.x,
        target_eye_resolution_height: target_eye.y,
        seconds_from_vsync_to_photons: settings.video.seconds_from_vsync_to_photons,
        force_3dof: settings.headset.force_3dof,
        tracking_ref_only: settings.headset.tracking_ref_only,
        enable_vive_tracker_proxy: settings.headset.enable_vive_tracker_proxy,
        aggressive_keyframe_resend: settings.connection.aggressive_keyframe_resend,
        adapter_index: settings.video.adapter_index,
        codec: codec_number(settings.video.codec) as u32,
        refresh_rate,
        use_10bit_encoder: settings.video.use_10bit_encoder,
        force_sw_encoding: settings.video.force_sw_encoding,
        sw_thread_count: settings.video.sw_thread_count,
        encode_bitrate_mbs: settings.video.encode_bitrate_mbs,
        enable_adaptive_bitrate: session.video.adaptive_bitrate.enabled,
        bitrate_maximum: session.video.adaptive_bitrate.content.bitrate_maximum,
        latency_target: session.video.adaptive_bitrate.content.latency_target,
        latency_use_frametime: session.video.adaptive_bitrate.content.latency_use_frametime.enabled,
        latency_target_maximum: session.video.adaptive_bitrate.content.latency_use_frametime.content.latency_target_maximum,
        latency_target_offset: session.video.adaptive_bitrate.content.latency_use_frametime.content.latency_target_offset,
        latency_threshold: session.video.adaptive_bitrate.content.latency_threshold,
        bitrate_up_rate: session.video.adaptive_bitrate.content.bitrate_up_rate,
        bitrate_down_rate: session.video.adaptive_bitrate.content.bitrate_down_rate,
        bitrate_light_load_threshold: session.video.adaptive_bitrate.content.bitrate_light_load_threshold,
        controllers_tracking_system_name: session.headset.controllers.content.tracking_system_name,
        controllers_manufacturer_name: session.headset.controllers.content.manufacturer_name,
        controllers_model_number: session.headset.controllers.content.model_number,
        render_model_name_left_controller: session.headset.controllers.content.render_model_name_left,
        render_model_name_right_controller: session.headset.controllers.content.render_model_name_right,
        controllers_serial_number: session.headset.controllers.content.serial_number,
        controllers_type_left: session.headset.controllers.content.ctrl_type_left,
        controllers_type_right: session.headset.controllers.content.ctrl_type_right,
        controllers_registered_device_type: session.headset.controllers.content.registered_device_type,
        controllers_input_profile_path: session.headset.controllers.content.input_profile_path,
        controllers_mode_idx: session.headset.controllers.content.mode_idx,
        controllers_enabled: session.headset.controllers.enabled,
        position_offset: settings.headset.position_offset,
        linear_velocity_cutoff: session.headset.controllers.content.linear_velocity_cutoff,
        angular_velocity_cutoff: session.headset.controllers.content.angular_velocity_cutoff,
        position_offset_left: session.headset.controllers.content.position_offset_left,
        rotation_offset_left: session.headset.controllers.content.rotation_offset_left,
        haptics_intensity: session.headset.controllers.content.haptics_intensity,
        haptics_amplitude_curve: session.headset.controllers.content.haptics_amplitude_curve,
        haptics_min_duration: session.headset.controllers.content.haptics_min_duration,
        haptics_low_duration_amplitude_multiplier: session.headset.controllers.content.haptics_low_duration_amplitude_multiplier,
        haptics_low_duration_range: session.headset.controllers.content.haptics_low_duration_range,
        use_headset_tracking_system: session.headset.controllers.content.use_headset_tracking_system,
        enable_foveated_rendering: session.video.foveated_rendering.enabled,
        foveation_center_size_x: session.video.foveated_rendering.content.center_size_x,
        foveation_center_size_y: session.video.foveated_rendering.content.center_size_y,
        foveation_center_shift_x: session.video.foveated_rendering.content.center_shift_x,
        foveation_center_shift_y: session.video.foveated_rendering.content.center_shift_y,
        foveation_edge_ratio_x: session.video.foveated_rendering.content.edge_ratio_x,
        foveation_edge_ratio_y: session.video.foveated_rendering.content.edge_ratio_y,
        enable_color_correction: session.video.color_correction.enabled,
        brightness: session.video.color_correction.content.brightness,
        contrast: session.video.color_correction.content.contrast,
        saturation: session.video.color_correction.content.saturation,
        gamma: session.video.color_correction.content.gamma,
        sharpening: session.video.color_correction.content.sharpening,
        enable_fec: session.connection.enable_fec,
        linux_async_reprojection: session.extra.patches.linux_async_reprojection,
    }
}

impl OpenvrConfig {
    /// The identity of the headset and the resolutions of its views.
    pub open spec fn same_headset(self, other: OpenvrConfig) -> bool {
        &&& self.universe_id == other.universe_id
        &&& self.headset_serial_number@ == other.headset_serial_number@
        &&& self.headset_tracking_system_name@ == other.headset_tracking_system_name@
        &&& self.headset_model_number@ == other.headset_model_number@
        &&& self.headset_driver_version@ == other.headset_driver_version@
        &&& self.headset_manufacturer_name@ == other.headset_manufacturer_name@
        &&& self.headset_render_model_name@ == other.headset_render_model_name@
        &&& self.headset_registered_device_type@ == other.headset_registered_device_type@
        &&& self.eye_resolution_width == other.eye_resolution_width
        &&& self.eye_resolution_height == other.eye_resolution_height
        &&& self.target_eye_resolution_width == other.target_eye_resolution_width
        &&& self.target_eye_resolution_height == other.target_eye_resolution_height
        &&& self.seconds_from_vsync_to_photons.same_spec(other.seconds_from_vsync_to_photons)
    }

    /// Tracking options and the video encoder.
    pub open spec fn same_encoder(self, other: OpenvrConfig) -> bool {
        &&& self.force_3dof == other.force_3dof
        &&& self.tracking_ref_only == other.tracking_ref_only
        &&& self.enable_vive_tracker_proxy == other.enable_vive_tracker_proxy
        &&& self.aggressive_keyframe_resend == other.aggressive_keyframe_resend
        &&& self.adapter_index == other.adapter_index
        &&& self.codec == other.codec
        &&& self.refresh_rate == other.refresh_rate
        &&& self.use_10bit_encoder == other.use_10bit_encoder
        &&& self.force_sw_encoding == other.force_sw_encoding
        &&& self.sw_thread_count == other.sw_thread_count
        &&& self.encode_bitrate_mbs == other.encode_bitrate_mbs
    }

    /// The adaptation of the bitrate.
    pub open spec fn same_bitrate(self, other: OpenvrConfig) -> bool {
        &&& self.enable_adaptive_bitrate == other.enable_adaptive_bitrate
        &&& self.bitrate_maximum == other.bitrate_maximum
        &&& self.latency_target == other.latency_target
        &&& self.latency_use_frametime == other.latency_use_frametime
        &&& self.latency_target_maximum == other.latency_target_maximum
        &&& self.latency_target_offset == other.latency_target_offset
        &&& self.latency_threshold == other.latency_threshold
        &&& self.bitrate_up_rate == other.bitrate_up_rate
        &&& self.bitrate_down_rate == other.bitrate_down_rate
        &&& self.bitrate_light_load_threshold.same_spec(other.bitrate_light_load_threshold)
    }

    /// The identity of the controllers.
    pub open spec fn same_controllers(self, other: OpenvrConfig) -> bool {
        &&& self.controllers_tracking_system_name@ == other.controllers_tracking_system_name@
        &&& self.controllers_manufacturer_name@ == other.controllers_manufacturer_name@
        &&& self.controllers_model_number@ == other.controllers_model_number@
        &&& self.render_model_name_left_controller@ == other.render_model_name_left_controller@
        &&& self.render_model_name_right_controller@ == other.render_model_name_right_controller@
        &&& self.controllers_serial_number@ == other.controllers_serial_number@
        &&& self.controllers_type_left@ == other.controllers_type_left@
        &&& self.controllers_type_right@ == other.controllers_type_right@
        &&& self.controllers_registered_device_type@ == other.controllers_registered_device_type@
        &&& self.controllers_input_profile_path@ == other.controllers_input_profile_path@
        &&& self.controllers_mode_idx == other.controllers_mode_idx
        &&& self.controllers_enabled == other.controllers_enabled
    }

    /// The offsets, the cutoffs and the haptics of the controllers.
    pub open spec fn same_handling(self, other: OpenvrConfig) -> bool {
        &&& same_triple(self.position_offset, other.position_offset)
        &&& self.linear_velocity_cutoff.same_spec(other.linear_velocity_cutoff)
        &&& self.angular_velocity_cutoff.same_spec(other.angular_velocity_cutoff)
        &&& same_triple(self.position_offset_left, other.position_offset_left)
        &&& same_triple(self.rotation_offset_left, other.rotation_offset_left)
        &&& self.haptics_intensity.same_spec(other.haptics_intensity)
        &&& self.haptics_amplitude_curve.same_spec(other.haptics_amplitude_curve)
        &&& self.haptics_min_duration.same_spec(other.haptics_min_duration)
        &&& self.haptics_low_duration_amplitude_multiplier.same_spec(other.haptics_low_duration_amplitude_multiplier)
        &&& self.haptics_low_duration_range.same_spec(other.haptics_low_duration_range)
        &&& self.use_headset_tracking_system == other.use_headset_tracking_system
    }

    /// Foveation, colors and transport.
    pub open spec fn same_picture(self, other: OpenvrConfig) -> bool {
        &&& self.enable_foveated_rendering == other.enable_foveated_rendering
        &&& self.foveation_center_size_x.same_spec(other.foveation_center_size_x)
        &&& self.foveation_center_size_y.same_spec(other.foveation_center_size_y)
        &&& self.foveation_center_shift_x.same_spec(other.foveation_center_shift_x)
        &&& self.foveation_center_shift_y.same_spec(other.foveation_center_shift_y)
        &&& self.foveation_edge_ratio_x.same_spec(other.foveation_edge_ratio_x)
        &&& self.foveation_edge_ratio_y.same_spec(other.foveation_edge_ratio_y)
        &&& self.enable_color_correction == other.enable_color_correction
        &&& self.brightness.same_spec(other.brightness)
        &&& self.contrast.same_spec(other.contrast)
        &&& self.saturation.same_spec(other.saturation)
        &&& self.gamma.same_spec(other.gamma)
        &&& self.sharpening.same_spec(other.sharpening)
        &&& self.enable_fec == other.enable_fec
        &&& self.linux_async_reprojection == other.linux_async_reprojection
    }

    /// Every field holds the same value, numbers compared as numbers and texts by their
    /// characters.
    pub open spec fn same_spec(self, other: OpenvrConfig) -> bool {
        &&& self.same_headset(other)
        &&& self.same_encoder(other)
        &&& self.same_bitrate(other)
        &&& self.same_controllers(other)
        &&& self.same_handling(other)
        &&& self.same_picture(other)
    }

    /// No field holds a NaN.
    pub open spec fn has_no_nan(self) -> bool {
        &&& !self.seconds_from_vsync_to_photons.is_nan_spec()
        &&& !self.bitrate_light_load_threshold.is_nan_spec()
        &&& !self.position_offset[0].is_nan_spec()
        &&& !self.position_offset[1].is_nan_spec()
        &&& !self.position_offset[2].is_nan_spec()
        &&& !self.linear_velocity_cutoff.is_nan_spec()
        &&& !self.angular_velocity_cutoff.is_nan_spec()
        &&& !self.position_offset_left[0].is_nan_spec()
        &&& !self.position_offset_left[1].is_nan_spec()
        &&& !self.position_offset_left[2].is_nan_spec()
        &&& !self.rotation_offset_left[0].is_nan_spec()
        &&& !self.rotation_offset_left[1].is_nan_spec()
        &&& !self.rotation_offset_left[2].is_nan_spec()
        &&& !self.haptics_intensity.is_nan_spec()
        &&& !self.haptics_amplitude_curve.is_nan_spec()
        &&& !self.haptics_min_duration.is_nan_spec()
        &&& !self.haptics_low_duration_amplitude_multiplier.is_nan_spec()
        &&& !self.haptics_low_duration_range.is_nan_spec()
        &&& !self.foveation_center_size_x.is_nan_spec()
        &&& !self.foveation_center_size_y.is_nan_spec()
        &&& !self.foveation_center_shift_x.is_nan_spec()
        &&& !self.foveation_center_shift_y.is_nan_spec()
        &&& !self.foveation_edge_ratio_x.is_nan_spec()
        &&& !self.foveation_edge_ratio_y.is_nan_spec()
        &&& !self.brightness.is_nan_spec()
        &&& !self.contrast.is_nan_spec()
        &&& !self.saturation.is_nan_spec()
        &&& !self.gamma.is_nan_spec()
        &&& !self.sharpening.is_nan_spec()
    }

    fn headset_same(&self, other: &OpenvrConfig) -> (res: bool)
        ensures
            res == self.same_headset(*other),
    {
        self.universe_id == other.universe_id
            && self.headset_serial_number == other.headset_serial_number
            && self.headset_tracking_system_name == other.headset_tracking_system_name
            && self.headset_model_number == other.headset_model_number
            && self.headset_driver_version == other.headset_driver_version
            && self.headset_manufacturer_name == other.headset_manufacturer_name
            && self.headset_render_model_name == other.headset_render_model_name
            && self.headset_registered_device_type == other.headset_registered_device_type
            && self.eye_resolution_width == other.eye_resolution_width
            && self.eye_resolution_height == other.eye_resolution_height
            && self.target_eye_resolution_width == other.target_eye_resolution_width
            && self.target_eye_resolution_height == other.target_eye_resolution_height
            && self.seconds_from_vsync_to_photons.same(other.seconds_from_vsync_to_photons)
    }

    fn encoder_same(&self, other: &OpenvrConfig) -> (res: bool)
        ensures
            res == self.same_encoder(*other),
    {
        self.force_3dof == other.force_3dof
            && self.tracking_ref_only == other.tracking_ref_only
            && self.enable_vive_tracker_proxy == other.enable_vive_tracker_proxy
            && self.aggressive_keyframe_resend == other.aggressive_keyframe_resend
            && self.adapter_index == other.adapter_index
            && self.codec == other.codec
            && self.refresh_rate == other.refresh_rate
            && self.use_10bit_encoder == other.use_10bit_encoder
            && self.force_sw_encoding == other.force_sw_encoding
            && self.sw_thread_count == other.sw_thread_count
            && self.encode_bitrate_mbs == other.encode_bitrate_mbs
    }

    fn bitrate_same(&self, other: &OpenvrConfig) -> (res: bool)
        ensures
            res == self.same_bitrate(*other),
    {
        self.enable_adaptive_bitrate == other.enable_adaptive_bitrate
            && self.bitrate_maximum == other.bitrate_maximum
            && self.latency_target == other.latency_target
            && self.latency_use_frametime == other.latency_use_frametime
            && self.latency_target_maximum == other.latency_target_maximum
            && self.latency_target_offset == other.latency_target_offset
            && self.latency_threshold == other.latency_threshold
            && self.bitrate_up_rate == other.bitrate_up_rate
            && self.bitrate_down_rate == other.bitrate_down_rate
            && self.bitrate_light_load_threshold.same(other.bitrate_light_load_threshold)
    }

    fn controllers_same(&self, other: &OpenvrConfig) -> (res: bool)
        ensures
            res == self.same_controllers(*other),
    {
        self.controllers_tracking_system_name == other.controllers_tracking_system_name
            && self.controllers_manufacturer_name == other.controllers_manufacturer_name
            && self.controllers_model_number == other.controllers_model_number
            && self.render_model_name_left_controller == other.render_model_name_left_controller
            && self.render_model_name_right_controller == other.render_model_name_right_controller
            && self.controllers_serial_number == other.controllers_serial_number
            && self.controllers_type_left == other.controllers_type_left
            && self.controllers_type_right == other.controllers_type_right
            && self.controllers_registered_device_type == other.controllers_registered_device_type
            && self.controllers_input_profile_path == other.controllers_input_profile_path
            && self.controllers_mode_idx == other.controllers_mode_idx
            && self.controllers_enabled == other.controllers_enabled
    }

    fn handling_same(&self, other: &OpenvrConfig) -> (res: bool)
        ensures
            res == self.same_handling(*other),
    {
        triples_same(&self.position_offset, &other.position_offset)
            && self.linear_velocity_cutoff.same(other.linear_velocity_cutoff)
            && self.angular_velocity_cutoff.same(other.angular_velocity_cutoff)
            && triples_same(&self.position_offset_left, &other.position_offset_left)
            && triples_same(&self.rotation_offset_left, &other.rotation_offset_left)
            && self.haptics_intensity.same(other.haptics_intensity)
            && self.haptics_amplitude_curve.same(other.haptics_amplitude_curve)
            && self.haptics_min_duration.same(other.haptics_min_duration)
            && self.haptics_low_duration_amplitude_multiplier.same(other.haptics_low_duration_amplitude_multiplier)
            && self.haptics_low_duration_range.same(other.haptics_low_duration_range)
            && self.use_headset_tracking_system == other.use_headset_tracking_system
    }

    fn picture_same(&self, other: &OpenvrConfig) -> (res: bool)
        ensures
            res == self.same_picture(*other),
    {
        self.enable_foveated_rendering == other.enable_foveated_rendering
            && self.foveation_center_size_x.same(other.foveation_center_size_x)
            && self.foveation_center_size_y.same(other.foveation_center_size_y)
            && self.foveation_center_shift_x.same(other.foveation_center_shift_x)
            && self.foveation_center_shift_y.same(other.foveation_center_shift_y)
            && self.foveation_edge_ratio_x.same(other.foveation_edge_ratio_x)
            && self.foveation_edge_ratio_y.same(other.foveation_edge_ratio_y)
            && self.enable_color_correction == other.enable_color_correction
            && self.brightness.same(other.brightness)
            && self.contrast.same(other.contrast)
            && self.saturation.same(other.saturation)
            && self.gamma.same(other.gamma)
            && self.sharpening.same(other.sharpening)
            && self.enable_fec == other.enable_fec
            && self.linux_async_reprojection == other.linux_async_reprojection
    }

    /// Whether every field holds the same value.
    pub fn same(&self, other: &OpenvrConfig) -> (res: bool)
        ensures
            res == self.same_spec(*other),
    {
        self.headset_same(other)
            && self.encoder_same(other)
            && self.bitrate_same(other)
            && self.controllers_same(other)
            && self.handling_same(other)
            && self.picture_same(other)
    }
}

fn triples_same(a: &[F32; 3], b: &[F32; 3]) -> (res: bool)
    ensures
        res == same_triple(*a, *b),
{
    a[0].same(b[0]) && a[1].same(b[1]) && a[2].same(b[2])
}

/// The configuration that follows from the settings, the resolutions for video and for the
/// applications, and the refresh rate.
pub fn openvr_config(
    settings: &Settings,
    session: &SessionSettings,
    video_eye: UVec2,
    target_eye: UVec2,
    refresh_rate: u32,
) -> (res: OpenvrConfig)
    ensures
        res == config_for(*settings, *session, video_eye, target_eye, refresh_rate),
{
    let codec: u32 = match settings.video.codec {
        CodecType::HEVC => 1,
        CodecType::H264 => 0,
    };
    OpenvrConfig {
        universe_id: settings.headset.universe_id,
        headset_serial_number: settings.headset.serial_number.clone(),
        headset_tracking_system_name: settings.headset.tracking_system_name.clone(),
        headset_model_number: settings.headset.model_number.clone(),
        headset_driver_version: settings.headset.driver_version.clone(),
        headset_manufacturer_name: settings.headset.manufacturer_name.clone(),
        headset_render_model_name: settings.headset.render_model_name.clone(),
        headset_registered_device_type: settings.headset.registered_device_type.clone(),
        eye_resolution_width: video_eye.x,
        eye_resolution_height: video_eye.y,
        target_eye_resolution_width: target_eye.x,
        target_eye_resolution_height: target_eye.y,
        seconds_from_vsync_to_photons: settings.video.seconds_from_vsync_to_photons,
        force_3dof: settings.headset.force_3dof,
        tracking_ref_only: settings.headset.tracking_ref_only,
        enable_vive_tracker_proxy: settings.headset.enable_vive_tracker_proxy,
        aggressive_keyframe_resend: settings.connection.aggressive_keyframe_resend,
        adapter_index: settings.video.adapter_index,
        codec,
        refresh_rate,
        use_10bit_encoder: settings.video.use_10bit_encoder,
        force_sw_encoding: settings.video.force_sw_encoding,
        sw_thread_count: settings.video.sw_thread_count,
        encode_bitrate_mbs: settings.video.encode_bitrate_mbs,
        enable_adaptive_bitrate: session.video.adaptive_bitrate.enabled,
        bitrate_maximum: session.video.adaptive_bitrate.content.bitrate_maximum,
        latency_target: session.video.adaptive_bitrate.content.latency_target,
        latency_use_frametime: session.video.adaptive_bitrate.content.latency_use_frametime.enabled,
        latency_target_maximum: session.video.adaptive_bitrate.content.latency_use_frametime.content.latency_target_maximum,
        latency_target_offset: session.video.adaptive_bitrate.content.latency_use_frametime.content.latency_target_offset,
        latency_threshold: session.video.adaptive_bitrate.content.latency_threshold,
        bitrate_up_rate: session.video.adaptive_bitrate.content.bitrate_up_rate,
        bitrate_down_rate: session.video.adaptive_bitrate.content.bitrate_down_rate,
        bitrate_light_load_threshold: session.video.adaptive_bitrate.content.bitrate_light_load_threshold,
        controllers_tracking_system_name: session.headset.controllers.content.tracking_system_name.clone(),
        controllers_manufacturer_name: session.headset.controllers.content.manufacturer_name.clone(),
        controllers_model_number: session.headset.controllers.content.model_number.clone(),
        render_model_name_left_controller: session.headset.controllers.content.render_model_name_left.clone(),
        render_model_name_right_controller: session.headset.controllers.content.render_model_name_right.clone(),
        controllers_serial_number: session.headset.controllers.content.serial_number.clone(),
        controllers_type_left: session.headset.controllers.content.ctrl_type_left.clone(),
        controllers_type_right: session.headset.controllers.content.ctrl_type_right.clone(),
        controllers_registered_device_type: session.headset.controllers.content.registered_device_type.clone(),
        controllers_input_profile_path: session.headset.controllers.content.input_profile_path.clone(),
        controllers_mode_idx: session.headset.controllers.content.mode_idx,
        controllers_enabled: session.headset.controllers.enabled,
        position_offset: settings.headset.position_offset,
        linear_velocity_cutoff: session.headset.controllers.content.linear_velocity_cutoff,
        angular_velocity_cutoff: session.headset.controllers.content.angular_velocity_cutoff,
        position_offset_left: session.headset.controllers.content.position_offset_left,
        rotation_offset_left: session.headset.controllers.content.rotation_offset_left,
        haptics_intensity: session.headset.controllers.content.haptics_intensity,
        haptics_amplitude_curve: session.headset.controllers.content.haptics_amplitude_curve,
        haptics_min_duration: session.headset.controllers.content.haptics_min_duration,
        haptics_low_duration_amplitude_multiplier: session.headset.controllers.content.haptics_low_duration_amplitude_multiplier,
        haptics_low_duration_range: session.headset.controllers.content.haptics_low_duration_range,
        use_headset_tracking_system: session.headset.controllers.content.use_headset_tracking_system,
        enable_foveated_rendering: session.video.foveated_rendering.enabled,
        foveation_center_size_x: session.video.foveated_rendering.content.center_size_x,
        foveation_center_size_y: session.video.foveated_rendering.content.center_size_y,
        foveation_center_shift_x: session.video.foveated_rendering.content.center_shift_x,
        foveation_center_shift_y: session.video.foveated_rendering.content.center_shift_y,
        foveation_edge_ratio_x: session.video.foveated_rendering.content.edge_ratio_x,
        foveation_edge_ratio_y: session.video.foveated_rendering.content.edge_ratio_y,
        enable_color_correction: session.video.color_correction.enabled,
        brightness: session.video.color_correction.content.brightness,
        contrast: session.video.color_correction.content.contrast,
        saturation: session.video.color_correction.content.saturation,
        gamma: session.video.color_correction.content.gamma,
        sharpening: session.video.color_correction.content.sharpening,
        enable_fec: session.connection.enable_fec,
        linux_async_reprojection: session.extra.patches.linux_async_reprojection,
    }
}

/// A configuration without NaNs is the same as itself, so that storing it and comparing it with
/// what is stored finds no change.
pub proof fn law_configuration_is_same_as_itself(config: OpenvrConfig)
    requires
        config.has_no_nan(),
    ensures
        config.same_spec(config),
{
}

/// Two configurations count as the same exactly where every field of the one agrees with that field
/// of the other: numbers as numbers, texts by their characters, and everything else by its value.
pub proof fn law_same_configurations_agree_in_every_field(a: OpenvrConfig, b: OpenvrConfig)
    ensures
        a.same_spec(b) <==> {
            &&& a.universe_id == b.universe_id
            &&& a.headset_serial_number@ == b.headset_serial_number@
            &&& a.headset_tracking_system_name@ == b.headset_tracking_system_name@
            &&& a.headset_model_number@ == b.headset_model_number@
            &&& a.headset_driver_version@ == b.headset_driver_version@
            &&& a.headset_manufacturer_name@ == b.headset_manufacturer_name@
            &&& a.headset_render_model_name@ == b.headset_render_model_name@
            &&& a.headset_registered_device_type@ == b.headset_registered_device_type@
            &&& a.eye_resolution_width == b.eye_resolution_width
            &&& a.eye_resolution_height == b.eye_resolution_height
            &&& a.target_eye_resolution_width == b.target_eye_resolution_width
            &&& a.target_eye_resolution_height == b.target_eye_resolution_height
            &&& a.seconds_from_vsync_to_photons.same_spec(b.seconds_from_vsync_to_photons)
            &&& a.force_3dof == b.force_3dof
            &&& a.tracking_ref_only == b.tracking_ref_only
            &&& a.enable_vive_tracker_proxy == b.enable_vive_tracker_proxy
            &&& a.aggressive_keyframe_resend == b.aggressive_keyframe_resend
            &&& a.adapter_index == b.adapter_index
            &&& a.codec == b.codec
            &&& a.refresh_rate == b.refresh_rate
            &&& a.use_10bit_encoder == b.use_10bit_encoder
            &&& a.force_sw_encoding == b.force_sw_encoding
            &&& a.sw_thread_count == b.sw_thread_count
            &&& a.encode_bitrate_mbs == b.encode_bitrate_mbs
            &&& a.enable_adaptive_bitrate == b.enable_adaptive_bitrate
            &&& a.bitrate_maximum == b.bitrate_maximum
            &&& a.latency_target == b.latency_target
            &&& a.latency_use_frametime == b.latency_use_frametime
            &&& a.latency_target_maximum == b.latency_target_maximum
            &&& a.latency_target_offset == b.latency_target_offset
            &&& a.latency_threshold == b.latency_threshold
            &&& a.bitrate_up_rate == b.bitrate_up_rate
            &&& a.bitrate_down_rate == b.bitrate_down_rate
            &&& a.bitrate_light_load_threshold.same_spec(b.bitrate_light_load_threshold)
            &&& a.controllers_tracking_system_name@ == b.controllers_tracking_system_name@
            &&& a.controllers_manufacturer_name@ == b.controllers_manufacturer_name@
            &&& a.controllers_model_number@ == b.controllers_model_number@
            &&& a.render_model_name_left_controller@ == b.render_model_name_left_controller@
            &&& a.render_model_name_right_controller@ == b.render_model_name_right_controller@
            &&& a.controllers_serial_number@ == b.controllers_serial_number@
            &&& a.controllers_type_left@ == b.controllers_type_left@
            &&& a.controllers_type_right@ == b.controllers_type_right@
            &&& a.controllers_registered_device_type@ == b.controllers_registered_device_type@
            &&& a.controllers_input_profile_path@ == b.controllers_input_profile_path@
            &&& a.controllers_mode_idx == b.controllers_mode_idx
            &&& a.controllers_enabled == b.controllers_enabled
            &&& a.position_offset[0].same_spec(b.position_offset[0])
            &&& a.position_offset[1].same_spec(b.position_offset[1])
            &&& a.position_offset[2].same_spec(b.position_offset[2])
            &&& a.linear_velocity_cutoff.same_spec(b.linear_velocity_cutoff)
            &&& a.angular_velocity_cutoff.same_spec(b.angular_velocity_cutoff)
            &&& a.position_offset_left[0].same_spec(b.position_offset_left[0])
            &&& a.position_offset_left[1].same_spec(b.position_offset_left[1])
            &&& a.position_offset_left[2].same_spec(b.position_offset_left[2])
            &&& a.rotation_offset_left[0].same_spec(b.rotation_offset_left[0])
            &&& a.rotation_offset_left[1].same_spec(b.rotation_offset_left[1])
            &&& a.rotation_offset_left[2].same_spec(b.rotation_offset_left[2])
            &&& a.haptics_intensity.same_spec(b.haptics_intensity)
            &&& a.haptics_amplitude_curve.same_spec(b.haptics_amplitude_curve)
            &&& a.haptics_min_duration.same_spec(b.haptics_min_duration)
            &&& a.haptics_low_duration_amplitude_multiplier.same_spec(b.haptics_low_duration_amplitude_multiplier)
            &&& a.haptics_low_duration_range.same_spec(b.haptics_low_duration_range)
            &&& a.use_headset_tracking_system == b.use_headset_tracking_system
            &&& a.enable_foveated_rendering == b.enable_foveated_rendering
            &&& a.foveation_center_size_x.same_spec(b.foveation_center_size_x)
            &&& a.foveation_center_size_y.same_spec(b.foveation_center_size_y)
            &&& a.foveation_center_shift_x.same_spec(b.foveation_center_shift_x)
            &&& a.foveation_center_shift_y.same_spec(b.foveation_center_shift_y)
            &&& a.foveation_edge_ratio_x.same_spec(b.foveation_edge_ratio_x)
            &&& a.foveation_edge_ratio_y.same_spec(b.foveation_edge_ratio_y)
            &&& a.enable_color_correction == b.enable_color_correction
            &&& a.brightness.same_spec(b.brightness)
            &&& a.contrast.same_spec(b.contrast)
            &&& a.saturation.same_spec(b.saturation)
            &&& a.gamma.same_spec(b.gamma)
            &&& a.sharpening.same_spec(b.sharpening)
            &&& a.enable_fec == b.enable_fec
            &&& a.linux_async_reprojection == b.linux_async_reprojection
        },
{
}

/// The comparison of two configurations notices a change of any of the sizes, of the codec, of the
/// refresh rate and of the bit rate.
pub proof fn law_comparison_notices_changes(a: OpenvrConfig, b: OpenvrConfig, res: bool)
    requires
        call_ensures(OpenvrConfig::same, (&a, &b), res),
        res,
    ensures
        a.eye_resolution_width == b.eye_resolution_width,
        a.eye_resolution_height == b.eye_resolution_height,
        a.target_eye_resolution_width == b.target_eye_resolution_width,
        a.target_eye_resolution_height == b.target_eye_resolution_height,
        a.codec == b.codec,
        a.refresh_rate == b.refresh_rate,
        a.encode_bitrate_mbs == b.encode_bitrate_mbs,
{
}

/// The configuration of the driver holds the sizes and the refresh rate that it is made for, each in
/// its own place, and the codec of the settings.
pub proof fn law_configuration_is_made_for_its_sizes(
    settings: Settings,
    session: SessionSettings,
    video_eye: UVec2,
    target_eye: UVec2,
    refresh_rate: u32,
    res: OpenvrConfig,
)
    requires
        call_ensures(openvr_config, (&settings, &session, video_eye, target_eye, refresh_rate), res),
    ensures
        res.eye_resolution_width == video_eye.x,
        res.eye_resolution_height == video_eye.y,
        res.target_eye_resolution_width == target_eye.x,
        res.target_eye_resolution_height == target_eye.y,
        res.refresh_rate == refresh_rate,
        settings.video.codec == CodecType::HEVC ==> res.codec == 1,
        settings.video.codec == CodecType::H264 ==> res.codec == 0,
{
}

} // verus!
