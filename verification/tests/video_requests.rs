use alvr_connection::clients::{ClientConnectionData, ClientTable};
use alvr_connection::error::InterruptibleError;
use alvr_connection::float32::F32;
use alvr_connection::openvr::{openvr_config, OpenvrConfig};
use alvr_connection::packets::{SsePacket, StreamConfigPacket, UVec2, VideoStreamingCapabilities};
use alvr_connection::session::{
    AdaptiveBitrateDesc, AudioBufferingConfig, AudioDeviceId, AudioSettings, CodecType,
    ColorCorrectionDesc, ConnectionSettings, ControllersDesc, DiscoveryConfig, ExtraSettings,
    FoveatedRenderingDesc, FrameSize, GameAudioDesc, HeadsetSettings, LatencyUseFrametimeDesc,
    LinuxAudioBackend, MicrophoneDesc, OculusFovetionLevel, SessionConnectionSettings,
    SessionExtraSettings, SessionHeadsetSettings, SessionPatches, SessionSettings,
    SessionVideoSettings, Settings, SocketProtocol, Switch, SwitchDefault, VideoSettings,
};
use alvr_connection::video_request::{
    eye_size, next_audio_step, refresh_rate_supported, request_video_streaming,
    select_refresh_rate, view_sides, AudioProgress, AudioStep, EyeSides, SideLength,
    VideoMeasurements, VideoRequestAction, VideoRequestError,
};

fn f(value: f32) -> F32 {
    F32 { bits: value.to_bits() }
}

fn controllers() -> ControllersDesc {
    ControllersDesc {
        tracking_system_name: "oculus".to_string(),
        manufacturer_name: "Oculus".to_string(),
        model_number: "Oculus Rift S".to_string(),
        render_model_name_left: "left_model".to_string(),
        render_model_name_right: "right_model".to_string(),
        serial_number: "1WMGH000XX0000_Controller".to_string(),
        ctrl_type_left: "oculus_touch_left".to_string(),
        ctrl_type_right: "oculus_touch_right".to_string(),
        registered_device_type: "oculus/1WMGH000XX0000_Controller".to_string(),
        input_profile_path: "{oculus}/input/touch_profile.json".to_string(),
        mode_idx: 1,
        prediction_multiplier: f(0.75),
        linear_velocity_cutoff: f(0.05),
        angular_velocity_cutoff: f(10.0),
        position_offset_left: [f(-0.0065), f(0.002), f(-0.051)],
        rotation_offset_left: [f(40.0), f(0.0), f(0.0)],
        haptics_intensity: f(1.0),
        haptics_amplitude_curve: f(0.4),
        haptics_min_duration: f(0.01),
        haptics_low_duration_amplitude_multiplier: f(2.5),
        haptics_low_duration_range: f(0.5),
        use_headset_tracking_system: false,
    }
}

fn foveation() -> FoveatedRenderingDesc {
    FoveatedRenderingDesc {
        center_size_x: f(0.4),
        center_size_y: f(0.35),
        center_shift_x: f(0.41),
        center_shift_y: f(0.11),
        edge_ratio_x: f(4.0),
        edge_ratio_y: f(5.0),
        oculus_foveation_level: OculusFovetionLevel::HighTop,
        dynamic_oculus_foveation: true,
    }
}

fn buffering() -> AudioBufferingConfig {
    AudioBufferingConfig { average_buffering_ms: 50, batch_ms: 10 }
}

fn settings() -> Settings {
    Settings {
        video: VideoSettings {
            adapter_index: 3,
            render_resolution: FrameSize::Scale(f(0.75)),
            recommended_target_resolution: FrameSize::Absolute { width: 4000, height: 2000 },
            preferred_fps: f(72.0),
            seconds_from_vsync_to_photons: f(0.005),
            codec: CodecType::HEVC,
            client_request_realtime_decoder: true,
            use_10bit_encoder: false,
            force_sw_encoding: false,
            sw_thread_count: 4,
            encode_bitrate_mbs: 30,
            foveated_rendering: Switch::Enabled(foveation()),
        },
        audio: AudioSettings {
            linux_backend: LinuxAudioBackend::Alsa,
            game_audio: Switch::Enabled(GameAudioDesc {
                device_id: AudioDeviceId::Name("speakers".to_string()),
                mute_when_streaming: true,
                buffering_config: buffering(),
            }),
            microphone: Switch::Enabled(MicrophoneDesc {
                input_device_id: AudioDeviceId::Index(7),
                output_device_id: AudioDeviceId::Default,
                buffering_config: buffering(),
            }),
        },
        headset: HeadsetSettings {
            universe_id: 2,
            serial_number: "1WMGH000XX0000".to_string(),
            tracking_system_name: "oculus".to_string(),
            model_number: "Oculus Rift S".to_string(),
            driver_version: "1.55.0".to_string(),
            manufacturer_name: "Oculus".to_string(),
            render_model_name: "generic_hmd".to_string(),
            registered_device_type: "oculus/1WMGH000XX0000".to_string(),
            tracking_ref_only: false,
            enable_vive_tracker_proxy: false,
            force_3dof: false,
            position_offset: [f(0.0), f(-0.0), f(0.25)],
            controllers: Switch::Enabled(controllers()),
            extra_latency_mode: true,
        },
        connection: ConnectionSettings {
            client_discovery: Switch::Enabled(DiscoveryConfig { auto_trust_clients: false }),
            stream_port: 9944,
            stream_protocol: SocketProtocol::Udp,
            aggressive_keyframe_resend: true,
            statistics_history_size: 256,
            on_connect_script: String::new(),
            on_disconnect_script: String::new(),
            enable_fec: true,
        },
        extra: ExtraSettings { client_dark_mode: true },
    }
}

fn session() -> SessionSettings {
    SessionSettings {
        video: SessionVideoSettings {
            adaptive_bitrate: SwitchDefault {
                enabled: true,
                content: AdaptiveBitrateDesc {
                    bitrate_maximum: 200,
                    latency_target: 12000,
                    latency_use_frametime: SwitchDefault {
                        enabled: false,
                        content: LatencyUseFrametimeDesc {
                            latency_target_maximum: 30000,
                            latency_target_offset: -3,
                        },
                    },
                    latency_threshold: 3000,
                    bitrate_up_rate: 1,
                    bitrate_down_rate: 3,
                    bitrate_light_load_threshold: f(0.7),
                },
            },
            foveated_rendering: SwitchDefault { enabled: true, content: foveation() },
            color_correction: SwitchDefault {
                enabled: false,
                content: ColorCorrectionDesc {
                    brightness: f(0.1),
                    contrast: f(0.2),
                    saturation: f(0.3),
                    gamma: f(1.0),
                    sharpening: f(0.5),
                },
            },
        },
        headset: SessionHeadsetSettings {
            controllers: SwitchDefault { enabled: true, content: controllers() },
        },
        connection: SessionConnectionSettings { enable_fec: true },
        extra: SessionExtraSettings {
            log_button_presses: false,
            patches: SessionPatches { linux_async_reprojection: true },
        },
    }
}

fn driver_config() -> OpenvrConfig {
    openvr_config(
        &settings(),
        &session(),
        UVec2 { x: 1344, y: 1440 },
        UVec2 { x: 1984, y: 1984 },
        90,
    )
}

fn clients() -> ClientTable {
    let mut clients = ClientTable::new();
    clients.insert(
        "a".to_string(),
        ClientConnectionData {
            sse_socket: 11,
            capabilities: Some(VideoStreamingCapabilities {
                default_view_resolution: UVec2 { x: 1832, y: 1920 },
                supported_refresh_rates: vec![f(60.0), f(90.0), f(120.0)],
                microphone_sample_rate: 44100,
            }),
        },
    );
    clients.insert("b".to_string(), ClientConnectionData { sse_socket: 12, capabilities: None });
    clients
}

fn measured() -> VideoMeasurements {
    VideoMeasurements {
        render_eye_width: f(1832_f32 * 0.75),
        render_eye_height: f(1920_f32 * 0.75),
        target_eye_width: f(4000_f32 / 2_f32),
        target_eye_height: f(2000_f32),
        rate_distances: vec![f(12.0), f(1.5), f(48.0)],
    }
}

fn request(
    stored: &mut OpenvrConfig,
    hostname: &str,
    audio: Result<u32, VideoRequestError>,
) -> Result<VideoRequestAction, VideoRequestError> {
    request_video_streaming(
        &clients(),
        stored,
        &hostname.to_string(),
        &settings(),
        &session(),
        &measured(),
        audio,
    )
}

#[test]
fn driver_configuration_follows_the_settings() {
    let config = driver_config();
    assert_eq!(config.universe_id, 2);
    assert_eq!(config.headset_serial_number, "1WMGH000XX0000");
    assert_eq!(config.headset_driver_version, "1.55.0");
    assert_eq!(config.eye_resolution_width, 1344);
    assert_eq!(config.eye_resolution_height, 1440);
    assert_eq!(config.target_eye_resolution_width, 1984);
    assert_eq!(config.target_eye_resolution_height, 1984);
    assert_eq!(config.seconds_from_vsync_to_photons, f(0.005));
    assert!(config.aggressive_keyframe_resend);
    assert_eq!(config.adapter_index, 3);
    assert_eq!(config.codec, 1);
    assert_eq!(config.refresh_rate, 90);
    assert_eq!(config.sw_thread_count, 4);
    assert_eq!(config.encode_bitrate_mbs, 30);
    assert!(config.enable_adaptive_bitrate);
    assert_eq!(config.bitrate_maximum, 200);
    assert!(!config.latency_use_frametime);
    assert_eq!(config.latency_target_maximum, 30000);
    assert_eq!(config.latency_target_offset, -3);
    assert_eq!(config.bitrate_light_load_threshold, f(0.7));
    assert_eq!(config.controllers_type_left, "oculus_touch_left");
    assert_eq!(config.render_model_name_right_controller, "right_model");
    assert_eq!(config.controllers_mode_idx, 1);
    assert!(config.controllers_enabled);
    assert_eq!(config.position_offset, [f(0.0), f(-0.0), f(0.25)]);
    assert_eq!(config.rotation_offset_left, [f(40.0), f(0.0), f(0.0)]);
    assert_eq!(config.haptics_low_duration_range, f(0.5));
    assert!(config.enable_foveated_rendering);
    assert_eq!(config.foveation_center_shift_x, f(0.41));
    assert!(!config.enable_color_correction);
    assert_eq!(config.sharpening, f(0.5));
    assert!(config.enable_fec);
    assert!(config.linux_async_reprojection);
    let mut avc = settings();
    avc.video.codec = CodecType::H264;
    let eye = UVec2 { x: 0, y: 0 };
    assert_eq!(openvr_config(&avc, &session(), eye, eye, 0).codec, 0);
}

#[test]
fn configurations_are_compared_as_numbers() {
    let config = driver_config();
    assert!(config.same(&driver_config()));
    let mut zero = driver_config();
    zero.position_offset = [f(-0.0), f(0.0), f(0.25)];
    assert!(config.same(&zero));
    let mut other = driver_config();
    other.position_offset_left[2] = f(7.0);
    assert!(!config.same(&other));
    let mut other = driver_config();
    other.controllers_input_profile_path.push('x');
    assert!(!config.same(&other));
    let mut other = driver_config();
    other.linux_async_reprojection = false;
    assert!(!config.same(&other));
    let mut other = driver_config();
    other.gamma = f(2.0);
    assert!(!config.same(&other));
    let mut other = driver_config();
    other.latency_target_offset = 3;
    assert!(!config.same(&other));
    let mut other = driver_config();
    other.encode_bitrate_mbs = 31;
    assert!(!config.same(&other));
    let mut nan = driver_config();
    nan.gamma = f(f32::NAN);
    assert!(!nan.same(&nan));
}

#[test]
fn closest_refresh_rate_is_chosen() {
    let rates = vec![f(60.0), f(72.0), f(80.0), f(90.0)];
    let choose = |preferred: f32| {
        let distances = rates
            .iter()
            .map(|r| f((f32::from_bits(r.bits) - preferred).abs()))
            .collect();
        f32::from_bits(select_refresh_rate(&rates, &distances).bits)
    };
    assert_eq!(choose(72.0), 72.0);
    assert_eq!(choose(60.1), 60.0);
    assert_eq!(choose(76.0), 72.0);
    assert_eq!(choose(120.0), 90.0);
    assert_eq!(choose(f32::NAN), 0.0);
    assert_eq!(choose(f32::INFINITY), 0.0);
    assert_eq!(select_refresh_rate(&vec![], &vec![]), f(0.0));
    let gap = vec![f(f32::NAN), f(f32::MAX), f(3.0), f(3.0)];
    assert_eq!(select_refresh_rate(&rates, &gap), f(80.0));
}

#[test]
fn preferred_rate_may_be_unsupported() {
    let rates = vec![f(72.0), f(-0.0)];
    assert!(refresh_rate_supported(&rates, f(72.0)));
    assert!(refresh_rate_supported(&rates, f(0.0)));
    assert!(!refresh_rate_supported(&rates, f(90.0)));
    assert!(!refresh_rate_supported(&vec![f(f32::NAN)], f(f32::NAN)));
}

#[test]
fn eye_size_follows_the_frame_size() {
    let view = UVec2 { x: 1832, y: 1920 };
    assert_eq!(
        eye_size(FrameSize::Scale(f(0.75)), view),
        (
            SideLength::Scaled { pixels: 1832, factor: f(0.75) },
            SideLength::Scaled { pixels: 1920, factor: f(0.75) }
        )
    );
    assert_eq!(
        eye_size(FrameSize::Absolute { width: 4000, height: 2000 }, view),
        (SideLength::Half(4000), SideLength::Whole(2000))
    );
}

#[test]
fn each_side_follows_its_resolution() {
    let mut settings = settings();
    settings.video.render_resolution = FrameSize::Scale(f(0.5));
    settings.video.recommended_target_resolution =
        FrameSize::Absolute { width: 4000, height: 2000 };
    let capabilities = VideoStreamingCapabilities {
        default_view_resolution: UVec2 { x: 1832, y: 1920 },
        supported_refresh_rates: vec![],
        microphone_sample_rate: 0,
    };
    assert_eq!(
        view_sides(&settings, &capabilities),
        EyeSides {
            render_width: SideLength::Scaled { pixels: 1832, factor: f(0.5) },
            render_height: SideLength::Scaled { pixels: 1920, factor: f(0.5) },
            target_width: SideLength::Half(4000),
            target_height: SideLength::Whole(2000),
        }
    );
}

#[test]
fn unchanged_configuration_starts_streaming() {
    let mut stored = driver_config();
    assert_eq!(
        request(&mut stored, "a", Ok(48000)),
        Ok(VideoRequestAction::Start {
            sse_socket: 11,
            config: StreamConfigPacket {
                view_resolution: UVec2 { x: 1344, y: 1440 },
                fps: f(90.0),
                game_audio_sample_rate: 48000,
            },
        })
    );
    assert_eq!(stored, driver_config());
}

#[test]
fn changed_configuration_restarts_the_driver_once() {
    let mut stored = driver_config();
    stored.refresh_rate = 72;
    assert_eq!(
        request(&mut stored, "a", Ok(0)),
        Ok(VideoRequestAction::Restart { sse_socket: 11 })
    );
    assert_eq!(stored, driver_config());
    assert!(matches!(request(&mut stored, "a", Ok(0)), Ok(VideoRequestAction::Start { .. })));
}

#[test]
fn unknown_clients_get_no_video() {
    let mut stored = driver_config();
    stored.refresh_rate = 72;
    let error = request(&mut stored, "c", Ok(0)).unwrap_err();
    assert_eq!(error, VideoRequestError::NoSuchClient("c".to_string()));
    assert_eq!(error.message(), "No such client: c");
    assert_eq!(stored.refresh_rate, 72);
}

#[test]
fn clients_without_capabilities_get_no_video() {
    let mut stored = driver_config();
    stored.refresh_rate = 72;
    let error = request(&mut stored, "b", Ok(0)).unwrap_err();
    assert_eq!(error, VideoRequestError::NoVideoSupport("b".to_string()));
    assert_eq!(error.message(), "Client does not support video streaming: b");
    assert_eq!(stored.refresh_rate, 72);
}

#[test]
fn audio_failures_leave_the_configuration() {
    let mut stored = driver_config();
    stored.refresh_rate = 72;
    let error = request(&mut stored, "a", Err(VideoRequestError::SameAudioDevice)).unwrap_err();
    assert_eq!(error, VideoRequestError::SameAudioDevice);
    assert_eq!(
        error.message(),
        "Game audio and microphone cannot point to the same device!"
    );
    let error = request(&mut stored, "a", Err(VideoRequestError::AudioDevice("busy".to_string())));
    assert_eq!(error.unwrap_err().message(), "busy");
    assert_eq!(stored.refresh_rate, 72);
}

#[test]
fn audio_devices_are_opened_in_order() {
    let audio = settings().audio;
    assert_eq!(
        next_audio_step(&audio, AudioProgress::Idle, true),
        AudioStep::OpenGameAudio {
            backend: LinuxAudioBackend::Alsa,
            device_id: AudioDeviceId::Name("speakers".to_string()),
        }
    );
    assert_eq!(
        next_audio_step(&audio, AudioProgress::GameAudio(Ok(())), true),
        AudioStep::OpenMicrophone {
            backend: LinuxAudioBackend::Alsa,
            device_id: AudioDeviceId::Index(7),
        }
    );
    assert_eq!(
        next_audio_step(&audio, AudioProgress::Microphone(Ok(false)), true),
        AudioStep::ReadSampleRate
    );
    assert_eq!(
        next_audio_step(&audio, AudioProgress::SampleRate(Ok(48000)), true),
        AudioStep::Done(48000)
    );
}

#[test]
fn audio_devices_may_have_to_differ() {
    let audio = settings().audio;
    assert_eq!(
        next_audio_step(&audio, AudioProgress::Microphone(Ok(true)), true),
        AudioStep::Failed(VideoRequestError::SameAudioDevice)
    );
    assert_eq!(
        next_audio_step(&audio, AudioProgress::Microphone(Ok(true)), false),
        AudioStep::ReadSampleRate
    );
}

#[test]
fn audio_may_be_disabled() {
    let mut audio = settings().audio;
    audio.microphone = Switch::Disabled;
    assert_eq!(
        next_audio_step(&audio, AudioProgress::GameAudio(Ok(())), true),
        AudioStep::ReadSampleRate
    );
    audio.game_audio = Switch::Disabled;
    assert_eq!(next_audio_step(&audio, AudioProgress::Idle, true), AudioStep::Done(0));
}

#[test]
fn audio_failures_are_reported() {
    let audio = settings().audio;
    let failed = || AudioStep::Failed(VideoRequestError::AudioDevice("busy".to_string()));
    let busy = || "busy".to_string();
    assert_eq!(next_audio_step(&audio, AudioProgress::GameAudio(Err(busy())), true), failed());
    assert_eq!(next_audio_step(&audio, AudioProgress::Microphone(Err(busy())), true), failed());
    assert_eq!(next_audio_step(&audio, AudioProgress::SampleRate(Err(busy())), true), failed());
}

#[test]
fn restart_ends_the_request_as_interrupted() {
    let restart = || VideoRequestAction::Restart { sse_socket: 11 };
    assert!(restart().restarts());
    assert_eq!(restart().notice(), (11, SsePacket::ServerRestarting));
    for told in [Ok(()), Err(InterruptibleError::Other("reset".to_string()))] {
        assert_eq!(restart().end(told), Err(InterruptibleError::Interrupted));
    }
}

#[test]
fn start_ends_the_request_with_what_came_of_telling() {
    let config = StreamConfigPacket {
        view_resolution: UVec2 { x: 1344, y: 1440 },
        fps: f(72.0),
        game_audio_sample_rate: 48000,
    };
    let start = || VideoRequestAction::Start { sse_socket: 12, config };
    assert!(!start().restarts());
    assert_eq!(start().notice(), (12, SsePacket::StartStreaming(config)));
    assert_eq!(start().end(Ok(())), Ok(()));
    let lost = || Err(InterruptibleError::Other("reset".to_string()));
    assert_eq!(start().end(lost()), lost());
}

#[test]
fn refusal_ends_the_request_with_its_words() {
    assert_eq!(
        VideoRequestError::NoSuchClient("x".to_string()).end(),
        Err(InterruptibleError::Other("No such client: x".to_string()))
    );
}
