use alvr_connection::clients::{ClientConnectionData, ClientTable};
use alvr_connection::float32::F32;
use alvr_connection::net::IpAddr;
use alvr_connection::packets::{
    ClientStatistics, DeviceMotion, Quat, Tracking, UVec2, Vec3, VideoStreamingCapabilities,
};
use alvr_connection::send_loop::{send_loop, SendAction, SendEvent, StreamPacket};
use alvr_connection::server_stream::{
    driver_tracking, latency_micros, mbits_to_bytes, microphone_sample_rate, oculus_hand,
    raw_motions, streaming_loop, timestamp_nanos, tracked_role, AudioPlan, GameAudioCapture,
    MappedMotion, MicrophonePlayback, ServerStreamAction, ServerStreamError, ServerStreamEvent,
    ServerStreamPhase, ServerTask, TaskPlan, TrackedRole,
};
use alvr_connection::session::{
    AudioBufferingConfig, AudioDeviceId, AudioSettings, CodecType, ConnectionSettings,
    ControllersDesc, DiscoveryConfig, ExtraSettings, FoveatedRenderingDesc, FrameSize,
    GameAudioDesc, HeadsetSettings, LinuxAudioBackend, MicrophoneDesc, OculusFovetionLevel,
    Settings, SocketProtocol, Switch, VideoSettings,
};
use alvr_connection::time::Duration;

const CLIENT: IpAddr = IpAddr::V4(0xc0a8_0103);

fn f(value: f32) -> F32 {
    F32 { bits: value.to_bits() }
}

fn controllers() -> ControllersDesc {
    ControllersDesc {
        tracking_system_name: "oculus".to_string(),
        manufacturer_name: "Oculus".to_string(),
        model_number: "Oculus Rift S".to_string(),
        render_model_name_left: "left_model".to_string(),
        render_model_name_right: "right_model".to_string(),
        serial_number: "1WMGH000XX0000_Controller".to_string(),
        ctrl_type_left: "oculus_touch_left".to_string(),
        ctrl_type_right: "oculus_touch_right".to_string(),
        registered_device_type: "oculus/1WMGH000XX0000_Controller".to_string(),
        input_profile_path: "{oculus}/input/touch_profile.json".to_string(),
        mode_idx: 1,
        prediction_multiplier: f(0.75),
        linear_velocity_cutoff: f(0.05),
        angular_velocity_cutoff: f(10.0),
        position_offset_left: [f(-0.0065), f(0.002), f(-0.051)],
        rotation_offset_left: [f(40.0), f(0.0), f(0.0)],
        haptics_intensity: f(1.0),
        haptics_amplitude_curve: f(0.4),
        haptics_min_duration: f(0.01),
        haptics_low_duration_amplitude_multiplier: f(2.5),
        haptics_low_duration_range: f(0.5),
        use_headset_tracking_system: false,
    }
}

fn foveation() -> FoveatedRenderingDesc {
    FoveatedRenderingDesc {
        center_size_x: f(0.4),
        center_size_y: f(0.35),
        center_shift_x: f(0.41),
        center_shift_y: f(0.11),
        edge_ratio_x: f(4.0),
        edge_ratio_y: f(5.0),
        oculus_foveation_level: OculusFovetionLevel::HighTop,
        dynamic_oculus_foveation: true,
    }
}

fn buffering() -> AudioBufferingConfig {
    AudioBufferingConfig { average_buffering_ms: 50, batch_ms: 10 }
}

fn settings() -> Settings {
    Settings {
        video: VideoSettings {
            adapter_index: 3,
            render_resolution: FrameSize::Scale(f(0.75)),
            recommended_target_resolution: FrameSize::Absolute { width: 4000, height: 2000 },
            preferred_fps: f(72.0),
            seconds_from_vsync_to_photons: f(0.005),
            codec: CodecType::HEVC,
            client_request_realtime_decoder: true,
            use_10bit_encoder: false,
            force_sw_encoding: false,
            sw_thread_count: 4,
            encode_bitrate_mbs: 30,
            foveated_rendering: Switch::Enabled(foveation()),
        },
        audio: AudioSettings {
            linux_backend: LinuxAudioBackend::Alsa,
            game_audio: Switch::Enabled(GameAudioDesc {
                device_id: AudioDeviceId::Name("speakers".to_string()),
                mute_when_streaming: true,
                buffering_config: buffering(),
            }),
            microphone: Switch::Enabled(MicrophoneDesc {
                input_device_id: AudioDeviceId::Index(7),
                output_device_id: AudioDeviceId::Default,
                buffering_config: buffering(),
            }),
        },
        headset: HeadsetSettings {
            universe_id: 2,
            serial_number: "1WMGH000XX0000".to_string(),
            tracking_system_name: "oculus".to_string(),
            model_number: "Oculus Rift S".to_string(),
            driver_version: "1.55.0".to_string(),
            manufacturer_name: "Oculus".to_string(),
            render_model_name: "generic_hmd".to_string(),
            registered_device_type: "oculus/1WMGH000XX0000".to_string(),
            tracking_ref_only: false,
            enable_vive_tracker_proxy: false,
            force_3dof: false,
            position_offset: [f(0.0), f(-0.0), f(0.25)],
            controllers: Switch::Enabled(controllers()),
            extra_latency_mode: true,
        },
        connection: ConnectionSettings {
            client_discovery: Switch::Enabled(DiscoveryConfig { auto_trust_clients: false }),
            stream_port: 9944,
            stream_protocol: SocketProtocol::Udp,
            aggressive_keyframe_resend: true,
            statistics_history_size: 256,
            on_connect_script: String::new(),
            on_disconnect_script: String::new(),
            enable_fec: true,
        },
        extra: ExtraSettings { client_dark_mode: true },
    }
}

fn clients() -> ClientTable {
    let mut clients = ClientTable::new();
    clients.insert(
        "a".to_string(),
        ClientConnectionData {
            sse_socket: 11,
            capabilities: Some(VideoStreamingCapabilities {
                default_view_resolution: UVec2 { x: 1832, y: 1920 },
                supported_refresh_rates: vec![f(72.0)],
                microphone_sample_rate: 44100,
            }),
        },
    );
    clients.insert("b".to_string(), ClientConnectionData { sse_socket: 12, capabilities: None });
    clients
}

fn step(
    phase: ServerStreamPhase,
    event: ServerStreamEvent,
    script: &str,
) -> (ServerStreamPhase, Vec<ServerStreamAction>) {
    streaming_loop(phase, event, CLIENT, &"a".to_string(), &clients(), &script.to_string())
}

fn closing(script: &str) -> Vec<ServerStreamAction> {
    let mut actions = vec![ServerStreamAction::DeinitializeStreaming];
    if !script.is_empty() {
        actions.push(ServerStreamAction::RunScript {
            command: script.to_string(),
            action: "disconnect",
        });
    }
    actions.push(ServerStreamAction::ReleaseClient);
    actions
}

#[test]
fn megabits_are_counted_in_bytes() {
    assert_eq!(mbits_to_bytes(0), 0);
    assert_eq!(mbits_to_bytes(30), 3_932_160);
    assert_eq!(mbits_to_bytes(32767), 4_294_836_224);
    assert_eq!(mbits_to_bytes(32768), 0);
    for value in [1u64, 100, 40_000, 1 << 43] {
        assert_eq!(mbits_to_bytes(value), (value * 1024 * 1024 / 8) as u32);
    }
    assert_eq!(mbits_to_bytes(u64::MAX), 4_294_836_224);
}

#[test]
fn stream_is_connected_with_the_settings() {
    let (phase, actions) = step(ServerStreamPhase::Start, ServerStreamEvent::Begin(settings()), "");
    assert_eq!(phase, ServerStreamPhase::AwaitClient { settings: settings() });
    assert_eq!(
        actions,
        vec![ServerStreamAction::Connect {
            client_ip: CLIENT,
            port: 9944,
            protocol: SocketProtocol::Udp,
            send_buffer_bytes: 3_932_160,
            timeout: 5_000_000_000,
        }]
    );
}

#[test]
fn stream_starts_when_the_client_takes_it_up() {
    let mut settings = settings();
    settings.connection.on_connect_script = "/bin/hello".to_string();
    let (phase, actions) = step(
        ServerStreamPhase::AwaitClient { settings },
        ServerStreamEvent::Connected(Ok(())),
        "",
    );
    assert!(matches!(phase, ServerStreamPhase::OpeningAudio { .. }));
    assert_eq!(
        actions,
        vec![
            ServerStreamAction::NewStatistics(256),
            ServerStreamAction::ReportConnected,
            ServerStreamAction::RunScript { command: "/bin/hello".to_string(), action: "connect" },
            ServerStreamAction::InitializeStreaming,
            ServerStreamAction::OpenAudio(AudioPlan {
                game_audio: Some(GameAudioCapture {
                    backend: LinuxAudioBackend::Alsa,
                    device_id: AudioDeviceId::Name("speakers".to_string()),
                    channels: 2,
                    mute_when_streaming: true,
                }),
                microphone: Some(MicrophonePlayback {
                    backend: LinuxAudioBackend::Alsa,
                    input_device_id: AudioDeviceId::Index(7),
                    output_device_id: AudioDeviceId::Default,
                    channels: 1,
                    buffering: buffering(),
                }),
            }),
        ]
    );
    assert_eq!(
        step(phase, ServerStreamEvent::AudioOpened(Ok(())), ""),
        (
            ServerStreamPhase::OpeningStreams,
            vec![ServerStreamAction::OpenStreams(TaskPlan {
                microphone_rate: Some(44100),
                controller_prediction_multiplier: f(0.75),
            })]
        )
    );
    assert_eq!(
        step(ServerStreamPhase::OpeningStreams, ServerStreamEvent::StreamsOpened(Ok(())), ""),
        (ServerStreamPhase::Streaming, vec![ServerStreamAction::RunTasks])
    );
}

#[test]
fn silent_streams_run_no_script() {
    let mut settings = settings();
    settings.audio.game_audio = Switch::Disabled;
    settings.audio.microphone = Switch::Disabled;
    settings.headset.controllers = Switch::Disabled;
    let (phase, actions) = step(
        ServerStreamPhase::AwaitClient { settings },
        ServerStreamEvent::Connected(Ok(())),
        "",
    );
    assert_eq!(
        actions,
        vec![
            ServerStreamAction::NewStatistics(256),
            ServerStreamAction::ReportConnected,
            ServerStreamAction::InitializeStreaming,
            ServerStreamAction::OpenAudio(AudioPlan { game_audio: None, microphone: None }),
        ]
    );
    assert_eq!(
        step(phase, ServerStreamEvent::AudioOpened(Ok(())), "").1,
        vec![ServerStreamAction::OpenStreams(TaskPlan {
            microphone_rate: None,
            controller_prediction_multiplier: f(0.0),
        })]
    );
}

#[test]
fn stream_is_closed_where_it_cannot_be_opened() {
    let opening_audio = || ServerStreamPhase::OpeningAudio { settings: settings() };
    let over = |result| {
        let mut expected = closing("/bin/bye");
        expected.push(ServerStreamAction::End(result));
        (ServerStreamPhase::Over, expected)
    };
    let failed = || Err(ServerStreamError::Stream("x".to_string()));
    let cause = || Err("x".to_string());
    assert_eq!(
        step(opening_audio(), ServerStreamEvent::AudioOpened(cause()), "/bin/bye"),
        over(failed())
    );
    assert_eq!(
        step(opening_audio(), ServerStreamEvent::Cancelled, "/bin/bye"),
        over(Ok(()))
    );
    let opening_streams = ServerStreamPhase::OpeningStreams;
    assert_eq!(
        step(opening_streams, ServerStreamEvent::StreamsOpened(cause()), "/bin/bye"),
        over(failed())
    );
    assert_eq!(
        step(ServerStreamPhase::OpeningStreams, ServerStreamEvent::Cancelled, "/bin/bye"),
        over(Ok(()))
    );
    for hostname in ["b", "gone"] {
        assert_eq!(
            streaming_loop(
                opening_audio(),
                ServerStreamEvent::AudioOpened(Ok(())),
                CLIENT,
                &hostname.to_string(),
                &clients(),
                &"/bin/bye".to_string(),
            ),
            over(Err(ServerStreamError::UnknownMicrophoneRate))
        );
    }
}

#[test]
fn stream_that_is_not_taken_up_is_not_closed() {
    let waiting = || ServerStreamPhase::AwaitClient { settings: settings() };
    assert_eq!(
        step(waiting(), ServerStreamEvent::Connected(Err("refused".to_string())), "/bin/bye"),
        (
            ServerStreamPhase::Over,
            vec![ServerStreamAction::End(Err(ServerStreamError::Stream("refused".to_string())))]
        )
    );
    assert_eq!(
        step(waiting(), ServerStreamEvent::TimedOut, "/bin/bye"),
        (
            ServerStreamPhase::Over,
            vec![ServerStreamAction::End(Err(ServerStreamError::SetupTimeout))]
        )
    );
    assert_eq!(
        step(waiting(), ServerStreamEvent::Cancelled, "/bin/bye"),
        (ServerStreamPhase::Over, vec![ServerStreamAction::End(Ok(()))])
    );
}

#[test]
fn started_stream_is_closed_however_it_ends() {
    for script in ["", "/bin/bye"] {
        let mut expected = vec![ServerStreamAction::ReportDisconnected];
        expected.extend(closing(script));
        expected.push(ServerStreamAction::End(Ok(())));
        let ended = ServerStreamEvent::TaskEnded {
            task: ServerTask::Receive,
            result: Err("reset".to_string()),
        };
        assert_eq!(
            step(ServerStreamPhase::Streaming, ended, script),
            (ServerStreamPhase::Over, expected)
        );

        let mut expected = closing(script);
        expected.push(ServerStreamAction::End(Err(ServerStreamError::Stream("x".to_string()))));
        let ended = ServerStreamEvent::TaskEnded {
            task: ServerTask::VideoSend,
            result: Err("x".to_string()),
        };
        assert_eq!(
            step(ServerStreamPhase::Streaming, ended, script),
            (ServerStreamPhase::Over, expected)
        );

        let mut expected = closing(script);
        expected.push(ServerStreamAction::End(Ok(())));
        let ended = ServerStreamEvent::TaskEnded { task: ServerTask::HapticsSend, result: Ok(()) };
        assert_eq!(
            step(ServerStreamPhase::Streaming, ended, script),
            (ServerStreamPhase::Over, expected)
        );

        let mut expected = closing(script);
        expected.push(ServerStreamAction::End(Ok(())));
        assert_eq!(
            step(ServerStreamPhase::Streaming, ServerStreamEvent::Cancelled, script),
            (ServerStreamPhase::Over, expected)
        );
    }
}

#[test]
fn restart_is_announced_to_connected_clients() {
    let mut expected = vec![ServerStreamAction::TellRestart { sse_socket: 11 }];
    expected.extend(closing(""));
    expected.push(ServerStreamAction::End(Ok(())));
    assert_eq!(
        step(ServerStreamPhase::Streaming, ServerStreamEvent::RestartRequested, ""),
        (ServerStreamPhase::Over, expected)
    );
    let mut expected = closing("");
    expected.push(ServerStreamAction::End(Ok(())));
    assert_eq!(
        streaming_loop(
            ServerStreamPhase::Streaming,
            ServerStreamEvent::RestartRequested,
            CLIENT,
            &"gone".to_string(),
            &clients(),
            &String::new(),
        ),
        (ServerStreamPhase::Over, expected)
    );
}

#[test]
fn microphone_rate_comes_from_the_capabilities() {
    assert_eq!(microphone_sample_rate(&clients(), &"a".to_string()), Some(44100));
    assert_eq!(microphone_sample_rate(&clients(), &"b".to_string()), None);
    assert_eq!(microphone_sample_rate(&clients(), &"c".to_string()), None);
}

#[test]
fn head_and_controllers_are_told_apart() {
    assert_eq!(tracked_role(5, 5), TrackedRole::Head);
    assert_eq!(tracked_role(6, 5), TrackedRole::Controller);
}

fn motion(base: f32) -> DeviceMotion {
    let vector = |k: f32| Vec3 { x: f(base + k), y: f(base + k + 1.0), z: f(base + k + 2.0) };
    DeviceMotion {
        orientation: Quat { x: f(base), y: f(0.0), z: f(0.0), w: f(1.0) },
        position: vector(10.0),
        linear_velocity: vector(20.0),
        angular_velocity: vector(30.0),
    }
}

#[test]
fn unmapped_motions_are_left_out() {
    let raw = raw_motions(&vec![(1, Some(motion(0.5))), (2, None), (3, Some(motion(100.0)))]);
    assert_eq!(raw.len(), 2);
    assert_eq!(raw[0].device_id, 1);
    assert_eq!(raw[0].orientation, motion(0.5).orientation);
    assert_eq!(raw[0].position, [f(10.5), f(11.5), f(12.5)]);
    assert_eq!(raw[0].linear_velocity, [f(20.5), f(21.5), f(22.5)]);
    assert_eq!(raw[0].angular_velocity, [f(30.5), f(31.5), f(32.5)]);
    assert_eq!(raw[1].device_id, 3);
    assert_eq!(raw[1].position, [f(110.0), f(111.0), f(112.0)]);
    assert!(raw_motions(&vec![]).is_empty());
}

#[test]
fn missing_hands_are_switched_off() {
    let zero = Quat { x: f(0.0), y: f(0.0), z: f(0.0), w: f(0.0) };
    let hand = oculus_hand(None);
    assert!(!hand.enabled);
    assert_eq!(hand.bone_rotations, [zero; 19]);
    let mut rotations = [zero; 19];
    rotations[18].w = f(1.0);
    let hand = oculus_hand(Some(rotations));
    assert!(hand.enabled);
    assert_eq!(hand.bone_rotations, rotations);
}

#[test]
fn times_are_passed_on_in_64_bits() {
    assert_eq!(timestamp_nanos(Duration { secs: 1, nanos: 5 }), 1_000_000_005);
    assert_eq!(latency_micros(Duration { secs: 1, nanos: 5_999 }), 1_000_005);
    let longest = Duration { secs: u64::MAX, nanos: 999_999_999 };
    assert_eq!(timestamp_nanos(longest), longest.as_nanos() as u64);
    assert_eq!(latency_micros(longest), longest.as_micros() as u64);
}

#[test]
fn driver_is_told_what_was_tracked() {
    let zero = Quat { x: f(0.0), y: f(0.0), z: f(0.0), w: f(0.0) };
    let tracking = Tracking {
        target_timestamp: Duration { secs: 2, nanos: 7 },
        device_motions: vec![(8, motion(1.0)), (9, motion(2.0)), (7, motion(3.0))],
        left_hand_skeleton: Some([motion(4.0).orientation; 19]),
        right_hand_skeleton: None,
    };
    let mapped = vec![
        MappedMotion::Head(motion(5.0)),
        MappedMotion::Controller(None),
        MappedMotion::Controller(Some(motion(6.0))),
    ];
    let told = driver_tracking(&tracking, 8, &mapped);
    assert_eq!(told.target_timestamp_ns, 2_000_000_007);
    assert_eq!(told.motions.len(), 2);
    assert_eq!(told.motions[0].device_id, 8);
    assert_eq!(told.motions[0].position, [f(15.0), f(16.0), f(17.0)]);
    assert_eq!(told.motions[1].device_id, 7);
    assert_eq!(told.motions[1].orientation, motion(6.0).orientation);
    assert!(told.left_hand.enabled);
    assert_eq!(told.left_hand.bone_rotations, [motion(4.0).orientation; 19]);
    assert!(!told.right_hand.enabled);
    assert_eq!(told.right_hand.bone_rotations, [zero; 19]);
}

#[test]
fn stream_errors_are_put_in_words() {
    assert_eq!(ServerStreamError::Stream("no route".to_string()).message(), "no route");
    assert_eq!(ServerStreamError::SetupTimeout.message(), "Timeout while setting up streams");
    assert_eq!(
        ServerStreamError::UnknownMicrophoneRate.message(),
        "The sample rate of the microphone is not known"
    );
}

#[test]
fn packets_are_sent_until_there_are_no_more() {
    let packet = || StreamPacket { header: vec![1, 2], payload: vec![3] };
    assert_eq!(send_loop(SendEvent::Queued(Ok(packet()))), SendAction::Send(packet()));
    assert_eq!(send_loop(SendEvent::Sent(Ok(()))), SendAction::Wait);
    assert_eq!(send_loop(SendEvent::Sent(Err("full".to_string()))), SendAction::Wait);
    assert_eq!(
        send_loop(SendEvent::Queued(Err("too large".to_string()))),
        SendAction::End(Err("too large".to_string()))
    );
    assert_eq!(send_loop(SendEvent::QueueClosed), SendAction::End(Ok(())));
}

#[test]
fn nothing_moves_by_default() {
    let motion = DeviceMotion::default();
    let zero = Vec3 { x: f(0.0), y: f(0.0), z: f(0.0) };
    assert_eq!(motion.orientation, Quat { x: f(0.0), y: f(0.0), z: f(0.0), w: f(1.0) });
    assert_eq!(motion.position, zero);
    assert_eq!(motion.linear_velocity, zero);
    assert_eq!(motion.angular_velocity, zero);
    let statistics = ClientStatistics::default();
    assert_eq!(statistics.rendering, Duration { secs: 0, nanos: 0 });
    assert_eq!(statistics.average_total_pipeline_latency, Duration { secs: 0, nanos: 0 });
}

#[test]
fn stream_is_closed_once_over_its_run() {
    let begin = || ServerStreamEvent::Begin(settings());
    let runs = vec![
        vec![begin(), ServerStreamEvent::TimedOut],
        vec![begin(), ServerStreamEvent::Connected(Ok(())), ServerStreamEvent::Cancelled],
        vec![
            begin(),
            ServerStreamEvent::Connected(Ok(())),
            ServerStreamEvent::AudioOpened(Ok(())),
            ServerStreamEvent::StreamsOpened(Err("x".to_string())),
        ],
        vec![
            begin(),
            ServerStreamEvent::Connected(Ok(())),
            ServerStreamEvent::AudioOpened(Ok(())),
            ServerStreamEvent::StreamsOpened(Ok(())),
            ServerStreamEvent::RestartRequested,
        ],
    ];
    for (k, events) in runs.into_iter().enumerate() {
        let mut phase = ServerStreamPhase::Start;
        let mut actions = vec![];
        for event in events {
            let (next, more) = step(phase, event, "/bin/bye");
            phase = next;
            actions.extend(more);
        }
        assert_eq!(phase, ServerStreamPhase::Over);
        let count = |wanted: &ServerStreamAction| actions.iter().filter(|a| *a == wanted).count();
        let expected = if k == 0 { 0 } else { 1 };
        assert_eq!(count(&ServerStreamAction::InitializeStreaming), expected);
        assert_eq!(count(&ServerStreamAction::DeinitializeStreaming), expected);
        assert_eq!(count(&ServerStreamAction::ReleaseClient), expected);
    }
}
