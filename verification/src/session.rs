//! The settings that the streaming session works with.
//!
//! [`Settings`] holds the choices in force: a disabled option carries no description.
//! [`SessionSettings`] holds what is stored: a disabled option keeps its description.

use crate::float32::F32;
use vstd::prelude::*;

verus! {

/// An option that carries its description while it is enabled.
#[derive(Clone, Copy, Debug, PartialEq)]
pub enum Switch<T> {
    Enabled(T),
    Disabled,
}

/// An option that keeps its description while it is disabled.
#[derive(Clone, Copy, Debug, PartialEq)]
pub struct SwitchDefault<T> {
    pub enabled: bool,
    pub content: T,
}

/// The size of a frame: relative to the resolution that a headset asks for, or in pixels for
/// both eyes side by side.
#[derive(Clone, Copy, Debug, PartialEq, Eq, Structural)]
pub enum FrameSize {
    Scale(F32),
    Absolute { width: u32, height: u32 },
}

#[derive(Clone, Copy, Debug, PartialEq, Eq, Structural)]
pub enum CodecType {
    H264,
    HEVC,
}

#[derive(Clone, Copy, Debug, PartialEq, Eq, Structural)]
pub enum OculusFovetionLevel {
    Off,
    Low,
    Medium,
    High,
    HighTop,
}

#[derive(Clone, Copy, Debug, PartialEq, Eq, Structural)]
pub enum SocketProtocol {
    Udp,
    Tcp,
}

#[derive(Clone, Copy, Debug, PartialEq, Eq, Structural)]
pub enum LinuxAudioBackend {
    Alsa,
    Jack,
}

#[derive(Clone, Debug, PartialEq)]
pub enum AudioDeviceId {
    Default,
    Name(String),
    Index(u64),
}

#[derive(Clone, Copy, Debug, PartialEq, Eq, Structural)]
pub struct AudioBufferingConfig {
    pub average_buffering_ms: u64,
    pub batch_ms: u64,
}

#[derive(Clone, Debug, PartialEq)]
pub struct GameAudioDesc {
    pub device_id: AudioDeviceId,
    pub mute_when_streaming: bool,
    pub buffering_config: AudioBufferingConfig,
}

#[derive(Clone, Debug, PartialEq)]
pub struct MicrophoneDesc {
    pub input_device_id: AudioDeviceId,
    pub output_device_id: AudioDeviceId,
    pub buffering_config: AudioBufferingConfig,
}

#[derive(Clone, Copy, Debug, PartialEq, Eq, Structural)]
pub struct FoveatedRenderingDesc {
    pub center_size_x: F32,
    pub center_size_y: F32,
    pub center_shift_x: F32,
    pub center_shift_y: F32,
    pub edge_ratio_x: F32,
    pub edge_ratio_y: F32,
    pub oculus_foveation_level: OculusFovetionLevel,
    pub dynamic_oculus_foveation: bool,
}

#[derive(Clone, Copy, Debug, PartialEq, Eq, Structural)]
pub struct ColorCorrectionDesc {
    pub brightness: F32,
    pub contrast: F32,
    pub saturation: F32,
    pub gamma: F32,
    pub sharpening: F32,
}

#[derive(Clone, Copy, Debug, PartialEq, Eq, Structural)]
pub struct LatencyUseFrametimeDesc {
    pub latency_target_maximum: u64,
    pub latency_target_offset: i32,
}

#[derive(Clone, Copy, Debug, PartialEq)]
pub struct AdaptiveBitrateDesc {
    pub bitrate_maximum: u64,
    pub latency_target: u64,
    pub latency_use_frametime: SwitchDefault<LatencyUseFrametimeDesc>,
    pub latency_threshold: u64,
    pub bitrate_up_rate: u64,
    pub bitrate_down_rate: u64,
    pub bitrate_light_load_threshold: F32,
}

#[derive(Clone, Debug, PartialEq)]
pub struct ControllersDesc {
    pub tracking_system_name: String,
    pub manufacturer_name: String,
    pub model_number: String,
    pub render_model_name_left: String,
    pub render_model_name_right: String,
    pub serial_number: String,
    pub ctrl_type_left: String,
    pub ctrl_type_right: String,
    pub registered_device_type: String,
    pub input_profile_path: String,
    pub mode_idx: i32,
    pub prediction_multiplier: F32,
    pub linear_velocity_cutoff: F32,
    pub angular_velocity_cutoff: F32,
    pub position_offset_left: [F32; 3],
    pub rotation_offset_left: [F32; 3],
    pub haptics_intensity: F32,
    pub haptics_amplitude_curve: F32,
    pub haptics_min_duration: F32,
    pub haptics_low_duration_amplitude_multiplier: F32,
    pub haptics_low_duration_range: F32,
    pub use_headset_tracking_system: bool,
}

#[derive(Clone, Debug, PartialEq)]
pub struct VideoSettings {
    pub adapter_index: u32,
    pub render_resolution: FrameSize,
    pub recommended_target_resolution: FrameSize,
    pub preferred_fps: F32,
    pub seconds_from_vsync_to_photons: F32,
    pub codec: CodecType,
    pub client_request_realtime_decoder: bool,
    pub use_10bit_encoder: bool,
    pub force_sw_encoding: bool,
    pub sw_thread_count: u32,
    pub encode_bitrate_mbs: u64,
    pub foveated_rendering: Switch<FoveatedRenderingDesc>,
}

#[derive(Clone, Debug, PartialEq)]
pub struct AudioSettings {
    pub linux_backend: LinuxAudioBackend,
    pub game_audio: Switch<GameAudioDesc>,
    pub microphone: Switch<MicrophoneDesc>,
}

#[derive(Clone, Debug, PartialEq)]
pub struct HeadsetSettings {
    pub universe_id: u64,
    pub serial_number: String,
    pub tracking_system_name: String,
    pub model_number: String,
    pub driver_version: String,
    pub manufacturer_name: String,
    pub render_model_name: String,
    pub registered_device_type: String,
    pub tracking_ref_only: bool,
    pub enable_vive_tracker_proxy: bool,
    pub force_3dof: bool,
    pub position_offset: [F32; 3],
    pub controllers: Switch<ControllersDesc>,
    pub extra_latency_mode: bool,
}

#[derive(Clone, Copy, Debug, PartialEq, Eq, Structural)]
pub struct DiscoveryConfig {
    pub auto_trust_clients: bool,
}

#[derive(Clone, Debug, PartialEq)]
pub struct ConnectionSettings {
    pub client_discovery: Switch<DiscoveryConfig>,
    pub stream_port: u16,
    pub stream_protocol: SocketProtocol,
    pub aggressive_keyframe_resend: bool,
    pub statistics_history_size: u64,
    pub on_connect_script: String,
    pub on_disconnect_script: String,
    pub enable_fec: bool,
}

#[derive(Clone, Debug, PartialEq)]
pub struct ExtraSettings {
    pub client_dark_mode: bool,
}

/// The choices in force.
#[derive(Clone, Debug, PartialEq)]
pub struct Settings {
    pub video: VideoSettings,
    pub audio: AudioSettings,
    pub headset: HeadsetSettings,
    pub connection: ConnectionSettings,
    pub extra: ExtraSettings,
}

#[derive(Clone, Debug, PartialEq)]
pub struct SessionVideoSettings {
    pub adaptive_bitrate: SwitchDefault<AdaptiveBitrateDesc>,
    pub foveated_rendering: SwitchDefault<FoveatedRenderingDesc>,
    pub color_correction: SwitchDefault<ColorCorrectionDesc>,
}

#[derive(Clone, Debug, PartialEq)]
pub struct SessionHeadsetSettings {
    pub controllers: SwitchDefault<ControllersDesc>,
}

#[derive(Clone, Debug, PartialEq)]
pub struct SessionConnectionSettings {
    pub enable_fec: bool,
}

#[derive(Clone, Debug, PartialEq)]
pub struct SessionPatches {
    pub linux_async_reprojection: bool,
}

#[derive(Clone, Debug, PartialEq)]
pub struct SessionExtraSettings {
    pub log_button_presses: bool,
    pub patches: SessionPatches,
}

/// What is stored of the choices.
#[derive(Clone, Debug, PartialEq)]
pub struct SessionSettings {
    pub video: SessionVideoSettings,
    pub headset: SessionHeadsetSettings,
    pub connection: SessionConnectionSettings,
    pub extra: SessionExtraSettings,
}

/// How far ahead controller poses are predicted, relative to the latency: 0 without controllers.
pub open spec fn prediction_multiplier_spec(controllers: Switch<ControllersDesc>) -> F32 {
    match controllers {
        Switch::Enabled(desc) => desc.prediction_multiplier,
        Switch::Disabled => F32 { bits: 0 },
    }
}

/// How far ahead controller poses are predicted, relative to the latency: 0 without controllers.
pub fn prediction_multiplier(controllers: &Switch<ControllersDesc>) -> (res: F32)
    ensures
        res == prediction_multiplier_spec(*controllers),
{
    match controllers {
        Switch::Enabled(desc) => desc.prediction_multiplier,
        Switch::Disabled => F32 { bits: 0 },
    }
}

/// Poses are predicted by the factor of the controllers where there are controllers, and not at all
/// where there are none.
pub proof fn law_prediction_is_that_of_the_controllers(
    controllers: Switch<ControllersDesc>,
    res: F32,
)
    requires
        call_ensures(prediction_multiplier, (&controllers,), res),
    ensures
        controllers matches Switch::Enabled(desc) ==> res.bits
            == desc.prediction_multiplier.bits,
        controllers is Disabled ==> res.bits == 0,
{
}

} // verus!
