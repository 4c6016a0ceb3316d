use alvr_connection::client_stream::{
    decoder_buffer, decoder_shutdown, haptics_event, on_server_connected, session_answered,
    session_parsed, stream_config_input, streaming_pipeline, video_frame, video_timestamp, ClientStreamPlan, ClientTask, DecoderAction,
    DecoderEvent, GameAudioPlayback, HapticsEvent, IdrWatch, PacketAction, StreamAction, StreamConfigInput,
    StreamError, StreamEvent, StreamPhase, VideoFrame, IDR_REQUEST_INTERVAL,
};
use alvr_connection::error::InterruptibleError;
use alvr_connection::float32::F32;
use alvr_connection::lobby::{SERVER_DISCONNECTED_MESSAGE, STREAM_STARTING_MESSAGE};
use alvr_connection::net::IpAddr;
use alvr_connection::packets::{
    Haptics, RequestPacket, ResponsePacket, StreamConfigPacket, UVec2, VideoFrameHeaderPacket,
};
use alvr_connection::session::{
    AudioBufferingConfig, AudioDeviceId, AudioSettings, CodecType, ConnectionSettings,
    ControllersDesc, DiscoveryConfig, ExtraSettings, FoveatedRenderingDesc, FrameSize,
    GameAudioDesc, HeadsetSettings, LinuxAudioBackend, MicrophoneDesc, OculusFovetionLevel,
    Settings, SocketProtocol, Switch, VideoSettings,
};
use alvr_connection::time::Duration;

const SERVER: IpAddr = IpAddr::V4(0xc0a8_0102);

fn f(value: f32) -> F32 {
    F32 { bits: value.to_bits() }
}

fn controllers() -> ControllersDesc {
    ControllersDesc {
        tracking_system_name: "oculus".to_string(),
        manufacturer_name: "Oculus".to_string(),
        model_number: "Oculus Rift S".to_string(),
        render_model_name_left: "left_model".to_string(),
        render_model_name_right: "right_model".to_string(),
        serial_number: "1WMGH000XX0000_Controller".to_string(),
        ctrl_type_left: "oculus_touch_left".to_string(),
        ctrl_type_right: "oculus_touch_right".to_string(),
        registered_device_type: "oculus/1WMGH000XX0000_Controller".to_string(),
        input_profile_path: "{oculus}/input/touch_profile.json".to_string(),
        mode_idx: 1,
        prediction_multiplier: f(0.75),
        linear_velocity_cutoff: f(0.05),
        angular_velocity_cutoff: f(10.0),
        position_offset_left: [f(-0.0065), f(0.002), f(-0.051)],
        rotation_offset_left: [f(40.0), f(0.0), f(0.0)],
        haptics_intensity: f(1.0),
        haptics_amplitude_curve: f(0.4),
        haptics_min_duration: f(0.01),
        haptics_low_duration_amplitude_multiplier: f(2.5),
        haptics_low_duration_range: f(0.5),
        use_headset_tracking_system: false,
    }
}

fn foveation() -> FoveatedRenderingDesc {
    FoveatedRenderingDesc {
        center_size_x: f(0.4),
        center_size_y: f(0.35),
        center_shift_x: f(0.41),
        center_shift_y: f(0.11),
        edge_ratio_x: f(4.0),
        edge_ratio_y: f(5.0),
        oculus_foveation_level: OculusFovetionLevel::HighTop,
        dynamic_oculus_foveation: true,
    }
}

fn buffering() -> AudioBufferingConfig {
    AudioBufferingConfig { average_buffering_ms: 50, batch_ms: 10 }
}

fn settings() -> Settings {
    Settings {
        video: VideoSettings {
            adapter_index: 3,
            render_resolution: FrameSize::Scale(f(0.75)),
            recommended_target_resolution: FrameSize::Absolute { width: 4000, height: 2000 },
            preferred_fps: f(72.0),
            seconds_from_vsync_to_photons: f(0.005),
            codec: CodecType::HEVC,
            client_request_realtime_decoder: true,
            use_10bit_encoder: false,
            force_sw_encoding: false,
            sw_thread_count: 4,
            encode_bitrate_mbs: 30,
            foveated_rendering: Switch::Enabled(foveation()),
        },
        audio: AudioSettings {
            linux_backend: LinuxAudioBackend::Alsa,
            game_audio: Switch::Enabled(GameAudioDesc {
                device_id: AudioDeviceId::Name("speakers".to_string()),
                mute_when_streaming: true,
                buffering_config: buffering(),
            }),
            microphone: Switch::Enabled(MicrophoneDesc {
                input_device_id: AudioDeviceId::Index(7),
                output_device_id: AudioDeviceId::Default,
                buffering_config: buffering(),
            }),
        },
        headset: HeadsetSettings {
            universe_id: 2,
            serial_number: "1WMGH000XX0000".to_string(),
            tracking_system_name: "oculus".to_string(),
            model_number: "Oculus Rift S".to_string(),
            driver_version: "1.55.0".to_string(),
            manufacturer_name: "Oculus".to_string(),
            render_model_name: "generic_hmd".to_string(),
            registered_device_type: "oculus/1WMGH000XX0000".to_string(),
            tracking_ref_only: false,
            enable_vive_tracker_proxy: false,
            force_3dof: false,
            position_offset: [f(0.0), f(-0.0), f(0.25)],
            controllers: Switch::Enabled(controllers()),
            extra_latency_mode: true,
        },
        connection: ConnectionSettings {
            client_discovery: Switch::Enabled(DiscoveryConfig { auto_trust_clients: false }),
            stream_port: 9944,
            stream_protocol: SocketProtocol::Udp,
            aggressive_keyframe_resend: true,
            statistics_history_size: 256,
            on_connect_script: String::new(),
            on_disconnect_script: String::new(),
            enable_fec: true,
        },
        extra: ExtraSettings { client_dark_mode: true },
    }
}

fn config() -> StreamConfigPacket {
    StreamConfigPacket {
        view_resolution: UVec2 { x: 1344, y: 1472 },
        fps: f(72.0),
        game_audio_sample_rate: 48000,
    }
}

fn step(phase: StreamPhase, event: StreamEvent) -> (StreamPhase, Vec<StreamAction>) {
    streaming_pipeline(phase, event, SERVER, config())
}

fn plain_settings() -> Settings {
    let mut settings = settings();
    settings.video.foveated_rendering = Switch::Disabled;
    settings.video.codec = CodecType::H264;
    settings.audio.game_audio = Switch::Disabled;
    settings.audio.microphone = Switch::Disabled;
    settings.headset.controllers = Switch::Disabled;
    settings
}

#[test]
fn session_is_read_as_json() {
    let text = "{\"session_settings\": {\"video\": {\"codec\": \"HEVC\"}, \"n\": [1, 2.5]}}";
    let (phase, actions) = session_answered(Ok(ResponsePacket::Session(text.to_string())));
    assert!(matches!(phase, StreamPhase::AwaitSettings));
    match &actions[..] {
        [StreamAction::MergeSession(document)] => {
            assert_eq!(document["session_settings"]["video"]["codec"], "HEVC");
            assert_eq!(document["session_settings"]["n"][0], 1);
            assert_eq!(document["session_settings"]["n"].as_array().unwrap().len(), 2);
        }
        other => panic!("{other:?}"),
    }
}

fn error_of((phase, mut actions): (StreamPhase, Vec<StreamAction>)) -> StreamError {
    assert!(matches!(phase, StreamPhase::Over));
    assert_eq!(actions.len(), 1);
    match actions.pop() {
        Some(StreamAction::End(Err(cause))) => cause,
        other => panic!("{other:?}"),
    }
}

#[test]
fn broken_session_is_refused() {
    for text in ["", "{", "{\"a\": }", "{} {}"] {
        let error = error_of(session_answered(Ok(ResponsePacket::Session(text.to_string()))));
        assert!(matches!(error, StreamError::InvalidSession(_)));
        assert_eq!(error.message("EOF"), "EOF");
    }
}

#[test]
fn session_goes_on_by_what_the_parser_made_of_it() {
    let (phase, actions) = session_parsed(Ok(serde_json::Value::Bool(true)));
    assert!(matches!(phase, StreamPhase::AwaitSettings));
    assert!(matches!(
        &actions[..],
        [StreamAction::MergeSession(serde_json::Value::Bool(true))]
    ));
    let broken = serde_json::from_str::<serde_json::Value>("{");
    assert!(matches!(error_of(session_parsed(broken)), StreamError::InvalidSession(_)));
}

#[test]
fn other_answers_than_the_session_are_unexpected() {
    let refused = || ResponsePacket::Failure("unimplemented".to_string());
    let error = error_of(session_answered(Ok(refused())));
    match &error {
        StreamError::UnexpectedResponse(other) => assert_eq!(*other, refused()),
        other => panic!("{other:?}"),
    }
    assert_eq!(
        error.into_interruptible("Err(\"unimplemented\")"),
        InterruptibleError::Other("Unexpected response: Err(\"unimplemented\")".to_string())
    );
}

#[test]
fn errors_are_put_in_words() {
    assert_eq!(StreamError::SetupTimeout.message(""), "Timeout while setting up streams");
    assert_eq!(StreamError::Stream("a".to_string()).message("b"), "a");
    assert_eq!(StreamError::InvalidSettings("c".to_string()).message("b"), "c");
    let lost = || InterruptibleError::Other("lost".to_string());
    assert_eq!(StreamError::Link(lost()).into_interruptible(""), lost());
    assert_eq!(
        StreamError::Link(InterruptibleError::Interrupted).into_interruptible(""),
        InterruptibleError::Interrupted
    );
}

#[test]
fn renderer_gets_the_foveation_in_force() {
    assert_eq!(
        stream_config_input(config(), &Switch::Enabled(foveation())),
        StreamConfigInput {
            eye_width: 1344,
            eye_height: 1472,
            enable_foveation: true,
            foveation_center_size_x: f(0.4),
            foveation_center_size_y: f(0.35),
            foveation_center_shift_x: f(0.41),
            foveation_center_shift_y: f(0.11),
            foveation_edge_ratio_x: f(4.0),
            foveation_edge_ratio_y: f(5.0),
        }
    );
}

#[test]
fn renderer_gets_stand_ins_without_foveation() {
    assert_eq!(
        stream_config_input(config(), &Switch::Disabled),
        StreamConfigInput {
            eye_width: 1344,
            eye_height: 1472,
            enable_foveation: false,
            foveation_center_size_x: f(3_f32 / 5_f32),
            foveation_center_size_y: f(2_f32 / 5_f32),
            foveation_center_shift_x: f(2_f32 / 5_f32),
            foveation_center_shift_y: f(1_f32 / 10_f32),
            foveation_edge_ratio_x: f(2_f32),
            foveation_edge_ratio_y: f(2_f32),
        }
    );
}

#[test]
fn headset_is_told_about_the_stream() {
    let args = on_server_connected(config(), &settings());
    assert_eq!(args.eye_width, 1344);
    assert_eq!(args.eye_height, 1472);
    assert_eq!(args.fps, f(72.0));
    assert_eq!(args.codec, 1);
    assert!(args.realtime_decoder);
    assert_eq!(args.oculus_foveation_level, 4);
    assert!(args.dynamic_oculus_foveation);
    assert!(args.extra_latency);
    assert_eq!(args.controller_prediction_multiplier, f(0.75));

    let mut wide = config();
    wide.view_resolution = UVec2 { x: u32::MAX, y: 0x8000_0000 };
    let args = on_server_connected(wide, &plain_settings());
    assert_eq!(args.eye_width, -1);
    assert_eq!(args.eye_height, i32::MIN);
    assert_eq!(args.codec, 0);
    assert_eq!(args.oculus_foveation_level, 0);
    assert!(!args.dynamic_oculus_foveation);
    assert_eq!(args.controller_prediction_multiplier, f(0.0));
}

#[test]
fn foveation_levels_are_numbered() {
    let levels = [
        (OculusFovetionLevel::Off, 0),
        (OculusFovetionLevel::Low, 1),
        (OculusFovetionLevel::Medium, 2),
        (OculusFovetionLevel::High, 3),
        (OculusFovetionLevel::HighTop, 4),
    ];
    for (level, number) in levels {
        let mut settings = settings();
        let mut desc = foveation();
        desc.oculus_foveation_level = level;
        settings.video.foveated_rendering = Switch::Enabled(desc);
        assert_eq!(on_server_connected(config(), &settings).oculus_foveation_level, number);
    }
}

#[test]
fn stream_is_set_up_step_by_step() {
    let (phase, actions) = step(StreamPhase::Start, StreamEvent::Begin);
    assert!(matches!(phase, StreamPhase::AwaitSession));
    assert!(matches!(&actions[..], [StreamAction::Request(RequestPacket::Session)]));

    let answer = ResponsePacket::Session("{\"a\": 1}".to_string());
    let (phase, actions) = step(phase, StreamEvent::Answered(Ok(answer)));
    assert!(matches!(phase, StreamPhase::AwaitSettings));
    match &actions[..] {
        [StreamAction::MergeSession(document)] => assert_eq!(document["a"], 1),
        other => panic!("{other:?}"),
    }

    let (phase, actions) = step(phase, StreamEvent::SettingsReady(Ok(settings())));
    assert!(matches!(phase, StreamPhase::AwaitSocket { .. }));
    assert!(matches!(
        &actions[..],
        [
            StreamAction::StoreDarkMode(true),
            StreamAction::NewStatistics(256),
            StreamAction::Listen { port: 9944, protocol: SocketProtocol::Udp }
        ]
    ));

    let (phase, actions) = step(phase, StreamEvent::Listening(Ok(())));
    assert!(matches!(phase, StreamPhase::AwaitReady { .. }));
    assert!(matches!(
        &actions[..],
        [StreamAction::Request(RequestPacket::ClientStreamSocketReady)]
    ));

    let (phase, actions) = step(phase, StreamEvent::Answered(Ok(ResponsePacket::Success)));
    assert!(matches!(phase, StreamPhase::AwaitServer { .. }));
    assert!(matches!(
        &actions[..],
        [StreamAction::Accept { server_ip: SERVER, port: 9944, timeout: 5_000_000_000 }]
    ));

    let (phase, actions) = step(phase, StreamEvent::Accepted(Ok(())));
    assert!(matches!(phase, StreamPhase::Streaming));
    assert_eq!(actions.len(), 4);
    assert!(matches!(&actions[0], StreamAction::Show(STREAM_STARTING_MESSAGE)));
    assert!(matches!(&actions[1], StreamAction::SetStreamConfig(input) if input.eye_width == 1344));
    assert!(matches!(&actions[2], StreamAction::ServerConnected(args) if args.codec == 1));
    match &actions[3] {
        StreamAction::RunTasks(plan) => assert_eq!(
            *plan,
            ClientStreamPlan {
                game_audio: Some(GameAudioPlayback {
                    channels: 2,
                    sample_rate: 48000,
                    buffering: buffering(),
                }),
                microphone_channels: Some(1),
                hevc: true,
                enable_fec: true,
            }
        ),
        other => panic!("{other:?}"),
    }
}

#[test]
fn plain_streams_have_no_audio() {
    let phase = StreamPhase::AwaitServer { settings: plain_settings() };
    let (_, actions) = step(phase, StreamEvent::Accepted(Ok(())));
    match &actions[3] {
        StreamAction::RunTasks(plan) => assert_eq!(
            *plan,
            ClientStreamPlan {
                game_audio: None,
                microphone_channels: None,
                hevc: false,
                enable_fec: true,
            }
        ),
        other => panic!("{other:?}"),
    }
}

#[test]
fn every_failed_step_ends_the_stream() {
    let link = || InterruptibleError::Other("closed".to_string());
    let cause = || "cause".to_string();
    let failures = vec![
        step(StreamPhase::AwaitSession, StreamEvent::Answered(Err(link()))),
        step(StreamPhase::AwaitSession, StreamEvent::Answered(Ok(ResponsePacket::Success))),
        step(
            StreamPhase::AwaitSession,
            StreamEvent::Answered(Ok(ResponsePacket::Session("?".to_string()))),
        ),
        step(StreamPhase::AwaitSettings, StreamEvent::SettingsReady(Err(cause()))),
        step(
            StreamPhase::AwaitSocket { settings: settings() },
            StreamEvent::Listening(Err(cause())),
        ),
        step(
            StreamPhase::AwaitReady { settings: settings() },
            StreamEvent::Answered(Err(InterruptibleError::Interrupted)),
        ),
        step(StreamPhase::AwaitServer { settings: settings() }, StreamEvent::Accepted(Err(cause()))),
        step(StreamPhase::AwaitServer { settings: settings() }, StreamEvent::TimedOut),
        step(
            StreamPhase::Streaming,
            StreamEvent::TaskEnded { task: ClientTask::VideoReceive, result: Err(cause()) },
        ),
    ];
    let mut errors = vec![];
    for (phase, mut actions) in failures {
        assert!(matches!(phase, StreamPhase::Over));
        assert_eq!(actions.len(), 1);
        match actions.pop() {
            Some(StreamAction::End(Err(error))) => errors.push(error),
            other => panic!("{other:?}"),
        }
    }
    assert!(matches!(&errors[0], StreamError::Link(e) if *e == link()));
    assert!(matches!(&errors[1], StreamError::UnexpectedResponse(ResponsePacket::Success)));
    assert!(matches!(&errors[2], StreamError::InvalidSession(_)));
    assert!(matches!(&errors[3], StreamError::InvalidSettings(e) if *e == cause()));
    assert!(matches!(&errors[4], StreamError::Stream(e) if *e == cause()));
    assert!(matches!(&errors[5], StreamError::Link(InterruptibleError::Interrupted)));
    assert!(matches!(&errors[6], StreamError::Stream(e) if *e == cause()));
    assert!(matches!(&errors[7], StreamError::SetupTimeout));
    assert!(matches!(&errors[8], StreamError::Stream(e) if *e == cause()));
}

#[test]
fn stream_ends_well_when_the_server_leaves() {
    for result in [Ok(()), Err("reset".to_string())] {
        let (phase, actions) = step(
            StreamPhase::Streaming,
            StreamEvent::TaskEnded { task: ClientTask::Receive, result },
        );
        assert!(matches!(phase, StreamPhase::Over));
        assert!(matches!(
            &actions[..],
            [StreamAction::Show(SERVER_DISCONNECTED_MESSAGE), StreamAction::End(Ok(()))]
        ));
    }
    let (_, actions) = step(
        StreamPhase::Streaming,
        StreamEvent::TaskEnded { task: ClientTask::Decoder, result: Ok(()) },
    );
    assert!(matches!(&actions[..], [StreamAction::End(Ok(()))]));
}

#[test]
fn video_headers_keep_every_field() {
    let header = VideoFrameHeaderPacket {
        packet_counter: 1,
        tracking_frame_index: 3_000_000_002,
        video_frame_index: 3,
        sent_time: 4,
        frame_byte_size: 5,
        fec_index: 6,
        fec_percentage: 7,
    };
    assert_eq!(
        video_frame(header),
        VideoFrame {
            packet_counter: 1,
            tracking_frame_index: 3_000_000_002,
            video_frame_index: 3,
            sent_time: 4,
            frame_byte_size: 5,
            fec_index: 6,
            fec_percentage: 7,
        }
    );
    assert_eq!(video_timestamp(&header), Duration { secs: 3, nanos: 2 });
}

#[test]
fn decoder_gets_header_and_payload() {
    assert_eq!(decoder_buffer(&vec![1, 2], &vec![3, 4, 5]), vec![1, 2, 3, 4, 5]);
    assert_eq!(decoder_buffer(&vec![], &vec![]), Vec::<u8>::new());
}

#[test]
fn haptics_are_passed_on() {
    let duration = Duration { secs: 0, nanos: 20_000_000 };
    assert_eq!(
        haptics_event(Haptics { path: 9, duration, frequency: f(160.0), amplitude: f(0.3) }),
        HapticsEvent { device_id: 9, duration, frequency: f(160.0), amplitude: f(0.3) }
    );
}

#[test]
fn missing_idr_is_asked_for_every_two_seconds() {
    let mut watch = IdrWatch::new();
    assert_eq!(watch.on_packet(true, true, false, 100), PacketAction::Decode);
    assert_eq!(watch.deadline, Some(100 + IDR_REQUEST_INTERVAL));
    assert_eq!(watch.on_packet(true, true, false, 100 + IDR_REQUEST_INTERVAL), PacketAction::Decode);
    let first = 101 + IDR_REQUEST_INTERVAL;
    assert_eq!(watch.on_packet(true, true, false, first), PacketAction::RequestIdrAndDecode);
    assert_eq!(watch.deadline, None);
    assert_eq!(watch.on_packet(true, true, false, first), PacketAction::Decode);
    assert_eq!(
        watch.on_packet(true, true, false, first + IDR_REQUEST_INTERVAL),
        PacketAction::Decode
    );
    assert_eq!(
        watch.on_packet(true, true, false, first + IDR_REQUEST_INTERVAL + 1),
        PacketAction::RequestIdrAndDecode
    );
    assert_eq!(IDR_REQUEST_INTERVAL, 2_000_000_000);
}

#[test]
fn parsed_idr_stops_the_requests() {
    let mut watch = IdrWatch { deadline: Some(5) };
    assert_eq!(watch.on_packet(true, true, true, 1000), PacketAction::Decode);
    assert_eq!(watch.deadline, Some(5));
    let mut watch = IdrWatch::new();
    assert_eq!(watch.on_packet(true, true, true, 1000), PacketAction::Decode);
    assert_eq!(watch.deadline, None);
}

#[test]
fn packets_are_left_when_streaming_is_off() {
    for (should_stream, is_resumed) in [(false, true), (true, false), (false, false)] {
        let mut watch = IdrWatch { deadline: Some(1) };
        assert_eq!(watch.on_packet(should_stream, is_resumed, false, 9), PacketAction::Leave);
        assert_eq!(watch.deadline, Some(1));
    }
}

#[test]
fn decoder_is_stopped_where_there_is_one() {
    assert_eq!(decoder_shutdown(DecoderEvent::FeedEnded), [DecoderAction::CloseSocket]);
    assert_eq!(
        decoder_shutdown(DecoderEvent::SocketClosed { has_decoder: true }),
        [DecoderAction::Disconnect, DecoderAction::StopAndWait, DecoderAction::Forget]
    );
    assert_eq!(
        decoder_shutdown(DecoderEvent::SocketClosed { has_decoder: false }),
        [DecoderAction::Forget]
    );
}
