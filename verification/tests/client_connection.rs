use alvr_connection::client::{
    connection_lifecycle_loop, connection_pipeline, stream_ended, LifecycleAction,
    LifecycleEvent, LifecyclePhase, PipelineAction, PipelineEvent, PipelinePhase,
    CONNECTION_ERROR_PAUSE, DISCOVERY_RETRY_PAUSE, RETRY_CONNECT_MIN_INTERVAL,
};
use alvr_connection::error::InterruptibleError;
use alvr_connection::float32::F32;
use alvr_connection::lobby::{
    INCOMPATIBLE_VERSIONS_MESSAGE, INITIAL_MESSAGE, NETWORK_UNREACHABLE_MESSAGE,
    SERVER_DISCONNECTED_MESSAGE, SERVER_RESTART_MESSAGE,
};
use alvr_connection::net::IpAddr;
use alvr_connection::packets::{
    Event, EventType, RequestPacket, ResponsePacket, SsePacket, StreamConfigPacket, UVec2,
    VideoStreamingCapabilities,
};
use alvr_connection::sockets::{RequestSocket, ScanResult, SseSocket};

const SERVER: IpAddr = IpAddr::V4(0xc0a8_0102);
const SERVING: PipelinePhase = PipelinePhase::Serving { server_ip: SERVER };

fn f(value: f32) -> F32 {
    F32 { bits: value.to_bits() }
}

fn step(phase: PipelinePhase, event: PipelineEvent) -> (PipelinePhase, Vec<PipelineAction>) {
    connection_pipeline(
        phase,
        event,
        UVec2 { x: 1832, y: 1920 },
        &vec![f(72.0), f(90.0)],
    )
}

fn receive(packet: SsePacket) -> (PipelinePhase, Vec<PipelineAction>) {
    step(SERVING, PipelineEvent::Received(Ok(packet)))
}

fn other(text: &str) -> InterruptibleError {
    InterruptibleError::Other(text.to_string())
}

#[test]
fn client_comes_up_with_the_first_message() {
    assert_eq!(
        connection_lifecycle_loop(LifecyclePhase::Boot, LifecycleEvent::Begin),
        (LifecyclePhase::Start, LifecycleAction::ShowInitial)
    );
}

#[test]
fn client_connects_while_it_is_alive() {
    assert_eq!(
        connection_lifecycle_loop(LifecyclePhase::Start, LifecycleEvent::Tick { alive: true }),
        (LifecyclePhase::Connected, LifecycleAction::RunPipeline)
    );
    assert_eq!(
        connection_lifecycle_loop(LifecyclePhase::Start, LifecycleEvent::Tick { alive: false }),
        (LifecyclePhase::Over, LifecycleAction::End(Err(InterruptibleError::Interrupted)))
    );
}

#[test]
fn client_goes_on_after_a_connection() {
    let ended = |result| {
        connection_lifecycle_loop(LifecyclePhase::Connected, LifecycleEvent::PipelineEnded(result))
    };
    assert_eq!(ended(Ok(())), (LifecyclePhase::Start, LifecycleAction::Again));
    assert_eq!(
        ended(Err(InterruptibleError::Interrupted)),
        (LifecyclePhase::Over, LifecycleAction::End(Ok(())))
    );
    assert_eq!(
        ended(Err(other("broken pipe"))),
        (
            LifecyclePhase::Start,
            LifecycleAction::ReportError {
                message: "Connection error:\nbroken pipe\nCheck the PC for more details".to_string(),
                pause: 500_000_000,
            }
        )
    );
    assert_eq!(CONNECTION_ERROR_PAUSE, 500_000_000);
}

#[test]
fn discovery_announces_and_scans() {
    assert_eq!(
        step(PipelinePhase::Discovery, PipelineEvent::Tick { alive: true }),
        (PipelinePhase::Announcing, vec![PipelineAction::Announce])
    );
    assert_eq!(
        step(PipelinePhase::Announcing, PipelineEvent::Announced(Ok(()))),
        (PipelinePhase::Scanning, vec![PipelineAction::Scan])
    );
    assert_eq!(
        step(PipelinePhase::Discovery, PipelineEvent::Tick { alive: false }),
        (
            PipelinePhase::Over,
            vec![PipelineAction::End(Err(InterruptibleError::Interrupted))]
        )
    );
}

#[test]
fn unreachable_network_is_shown() {
    assert_eq!(
        step(PipelinePhase::Announcing, PipelineEvent::Announced(Err("unreachable".to_string()))),
        (
            PipelinePhase::Over,
            vec![
                PipelineAction::Show(NETWORK_UNREACHABLE_MESSAGE),
                PipelineAction::Pause(RETRY_CONNECT_MIN_INTERVAL),
                PipelineAction::Show(INITIAL_MESSAGE),
                PipelineAction::End(Ok(())),
            ]
        )
    );
    assert_eq!(RETRY_CONNECT_MIN_INTERVAL, 1_000_000_000);
}

#[test]
fn failed_scans_are_repeated_after_a_pause() {
    let pause = || vec![PipelineAction::Pause(DISCOVERY_RETRY_PAUSE)];
    let scanned = |result| step(PipelinePhase::Scanning, PipelineEvent::Scanned(result));
    assert_eq!(scanned(Ok(ScanResult::UnrelatedPeer)), (PipelinePhase::Discovery, pause()));
    assert_eq!(
        scanned(Err(InterruptibleError::Interrupted)),
        (PipelinePhase::Discovery, pause())
    );
    assert_eq!(scanned(Err(other("reset"))), (PipelinePhase::Discovery, pause()));
    assert_eq!(
        scanned(Ok(ScanResult::MismatchedVersion)),
        (
            PipelinePhase::Discovery,
            vec![
                PipelineAction::Show(INCOMPATIBLE_VERSIONS_MESSAGE),
                PipelineAction::Pause(500_000_000),
            ]
        )
    );
}

#[test]
fn accepted_server_is_told_the_capabilities() {
    let request_socket = RequestSocket { last_socket_send: 4 };
    let sse_socket = SseSocket {};
    let connected = ScanResult::Connected { server_ip: SERVER, request_socket, sse_socket };
    let (phase, actions) = step(PipelinePhase::Scanning, PipelineEvent::Scanned(Ok(connected)));
    assert_eq!(phase, PipelinePhase::Preparing { server_ip: SERVER });
    assert_eq!(
        actions,
        vec![
            PipelineAction::Connect { request_socket, sse_socket },
            PipelineAction::ReadMicrophoneRate,
        ]
    );
    let (phase, actions) = step(phase, PipelineEvent::MicrophoneRate(44100));
    assert_eq!(phase, PipelinePhase::Advertising { server_ip: SERVER });
    assert_eq!(
        actions,
        vec![PipelineAction::Request(RequestPacket::ClientCapabilities(Some(
            VideoStreamingCapabilities {
                default_view_resolution: UVec2 { x: 1832, y: 1920 },
                supported_refresh_rates: vec![f(72.0), f(90.0)],
                microphone_sample_rate: 44100,
            }
        )))]
    );
    assert_eq!(
        step(phase, PipelineEvent::Answered(Ok(ResponsePacket::Success))),
        (SERVING, vec![PipelineAction::Receive])
    );
    assert_eq!(
        step(phase, PipelineEvent::Answered(Err(other("closed")))),
        (PipelinePhase::Over, vec![PipelineAction::End(Err(other("closed")))])
    );
}

#[test]
fn streams_replace_each_other() {
    let config = StreamConfigPacket {
        view_resolution: UVec2 { x: 1344, y: 1440 },
        fps: f(72.0),
        game_audio_sample_rate: 0,
    };
    assert_eq!(
        receive(SsePacket::StartStreaming(config)),
        (
            SERVING,
            vec![
                PipelineAction::SetShouldStream(false),
                PipelineAction::StopStream,
                PipelineAction::SetShouldStream(true),
                PipelineAction::StartStream { server_ip: SERVER, config },
                PipelineAction::Receive,
            ]
        )
    );
    assert_eq!(
        receive(SsePacket::StopStreaming),
        (
            SERVING,
            vec![
                PipelineAction::SetShouldStream(false),
                PipelineAction::StopStream,
                PipelineAction::Receive,
            ]
        )
    );
    assert_eq!(stream_ended(), PipelineAction::SetShouldStream(false));
}

#[test]
fn server_may_leave() {
    assert_eq!(
        receive(SsePacket::ServerRestarting),
        (
            PipelinePhase::Over,
            vec![
                PipelineAction::Show(SERVER_RESTART_MESSAGE),
                PipelineAction::StopStream,
                PipelineAction::End(Ok(())),
            ]
        )
    );
    assert_eq!(
        receive(SsePacket::ServerDisconnecting),
        (
            PipelinePhase::Over,
            vec![
                PipelineAction::Show(SERVER_DISCONNECTED_MESSAGE),
                PipelineAction::StopStream,
                PipelineAction::End(Ok(())),
            ]
        )
    );
    assert_eq!(
        step(SERVING, PipelineEvent::Received(Err(InterruptibleError::Interrupted))),
        (
            PipelinePhase::Over,
            vec![
                PipelineAction::StopStream,
                PipelineAction::End(Err(InterruptibleError::Interrupted)),
            ]
        )
    );
}

#[test]
fn other_packets_change_nothing() {
    let event = Event { timestamp: "0".to_string(), event_type: EventType::ClientConnected };
    for packet in [
        SsePacket::Event(event),
        SsePacket::KeepAlive,
        SsePacket::Custom("{}".to_string()),
    ] {
        assert_eq!(receive(packet), (SERVING, vec![PipelineAction::Receive]));
    }
}
