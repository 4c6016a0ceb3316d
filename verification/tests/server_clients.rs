use alvr_connection::clients::{set_capabilities, ClientConnectionData, ClientTable};
use alvr_connection::error::InterruptibleError;
use alvr_connection::float32::F32;
use alvr_connection::handshake::{
    handshake_loop, manual_client_ips, HandshakeAction, HandshakeEvent, HandshakePhase,
    KnownClient,
};
use alvr_connection::net::IpAddr;
use alvr_connection::packets::{
    BatteryPacket, ButtonValue, ClientListAction, Fov, RequestPacket, ResponsePacket, UVec2,
    Vec2, VideoStreamingCapabilities, ViewsConfig,
};
use alvr_connection::server::{
    response_round, AddressBook, Reply, RequestEffect, RoundAction, RoundEvent, Server,
};
use alvr_connection::session::{DiscoveryConfig, Switch};

fn f(value: f32) -> F32 {
    F32 { bits: value.to_bits() }
}

fn ip(last: u32) -> IpAddr {
    IpAddr::V4(0xc0a8_0100 + last)
}

fn name(text: &str) -> String {
    text.to_string()
}

fn book(entries: &[(IpAddr, &str)]) -> AddressBook {
    let mut book = AddressBook::new();
    for (ip, hostname) in entries {
        book.insert(*ip, name(hostname));
    }
    book
}

fn capabilities() -> VideoStreamingCapabilities {
    VideoStreamingCapabilities {
        default_view_resolution: UVec2 { x: 1832, y: 1920 },
        supported_refresh_rates: vec![f(72.0)],
        microphone_sample_rate: 44100,
    }
}

fn server_with(hostnames: &[&str]) -> Server {
    let mut server = Server::new();
    for (k, hostname) in hostnames.iter().enumerate() {
        let at = ip(k as u32);
        server.connect(book(&[(at, hostname)]), at, k as u64);
    }
    server
}

#[test]
fn table_keeps_one_value_for_each_key() {
    let mut clients = ClientTable::new();
    assert!(!clients.contains(&name("a")));
    for (hostname, sse_socket) in [("a", 1), ("b", 2), ("c", 3), ("a", 4)] {
        clients.insert(name(hostname), ClientConnectionData { sse_socket, capabilities: None });
    }
    assert_eq!(clients.get(&name("a")).unwrap().sse_socket, 4);
    assert_eq!(clients.get(&name("b")).unwrap().sse_socket, 2);
    assert_eq!(clients.remove(&name("a")).unwrap().sse_socket, 4);
    assert_eq!(clients.remove(&name("a")), None);
    assert!(clients.contains(&name("c")));
    assert_eq!(clients.get(&name("a")), None);
}

#[test]
fn capabilities_keep_the_socket() {
    let mut clients = ClientTable::new();
    clients.insert(name("a"), ClientConnectionData { sse_socket: 9, capabilities: None });
    set_capabilities(&mut clients, &name("a"), Some(capabilities()));
    assert_eq!(
        clients.get(&name("a")),
        Some(&ClientConnectionData { sse_socket: 9, capabilities: Some(capabilities()) })
    );
}

#[test]
fn connected_clients_are_entered_without_capabilities() {
    let mut server = Server::new();
    let hostname = server.connect(book(&[(ip(1), "a"), (ip(2), "b")]), ip(2), 5);
    assert_eq!(hostname, "b");
    assert!(!server.clients.contains(&name("a")));
    assert_eq!(
        server.clients.get(&name("b")),
        Some(&ClientConnectionData { sse_socket: 5, capabilities: None })
    );
    server.disconnect(&hostname);
    assert!(!server.clients.contains(&name("b")));
    server.disconnect(&hostname);
}

#[test]
fn addresses_are_listed_once() {
    let mut addresses = book(&[(ip(1), "a"), (ip(2), "b"), (ip(1), "c")]).addresses();
    addresses.sort_by_key(|address| match address {
        IpAddr::V4(number) => *number as u128,
        IpAddr::V6(number) => *number,
    });
    assert_eq!(addresses, vec![ip(1), ip(2)]);
}

#[test]
fn session_is_answered_with_the_session() {
    let mut server = server_with(&["a"]);
    assert_eq!(
        server.response_loop(&name("a"), RequestPacket::Session, true),
        (Reply::Session, RequestEffect::Nothing)
    );
}

#[test]
fn capabilities_are_noted_and_acted_upon() {
    let mut server = server_with(&["a", "b"]);
    let message = RequestPacket::ClientCapabilities(Some(capabilities()));
    assert_eq!(
        server.response_loop(&name("b"), message, false),
        (Reply::Packet(ResponsePacket::Success), RequestEffect::RequestVideoStreaming)
    );
    assert_eq!(
        server.clients.get(&name("b")),
        Some(&ClientConnectionData { sse_socket: 1, capabilities: Some(capabilities()) })
    );
    assert_eq!(server.clients.get(&name("a")).unwrap().capabilities, None);
}

#[test]
fn one_client_streams_at_a_time() {
    let mut server = server_with(&["a", "b"]);
    let ready = || RequestPacket::ClientStreamSocketReady;
    let success = || Reply::Packet(ResponsePacket::Success);
    assert_eq!(
        server.response_loop(&name("a"), ready(), false),
        (success(), RequestEffect::StartStreaming)
    );
    assert_eq!(
        server.response_loop(&name("b"), ready(), false),
        (success(), RequestEffect::Nothing)
    );
    assert_eq!(server.streaming_client, Some(name("a")));
    server.close_stream();
    assert_eq!(server.streaming_client, None);
    assert_eq!(
        server.response_loop(&name("b"), ready(), false),
        (success(), RequestEffect::StartStreaming)
    );
    assert_eq!(server.streaming_client, Some(name("b")));
}

#[test]
fn playspace_is_at_least_two_meters() {
    let mut server = server_with(&["a"]);
    let mut sync = |x: f32, y: f32| {
        let message = RequestPacket::PlayspaceSync(Vec2 { x: f(x), y: f(y) });
        server.response_loop(&name("a"), message, false).1
    };
    assert_eq!(sync(3.5, 1.0), RequestEffect::SetChaperone { width: f(3.5), height: f(2.0) });
    assert_eq!(
        sync(f32::NAN, -7.0),
        RequestEffect::SetChaperone { width: f(2.0), height: f(2.0) }
    );
    assert_eq!(sync(2.0, 2.5), RequestEffect::SetChaperone { width: f(2.0), height: f(2.5) });
}

#[test]
fn reports_are_passed_to_the_driver() {
    let mut server = server_with(&["a"]);
    let fov = Fov { left: f(-0.8), right: f(0.7), top: f(0.6), bottom: f(-0.5) };
    let views = ViewsConfig { ipd_m: f(0.063), fov: [fov, fov] };
    let battery = BatteryPacket { device_id: 3, gauge_value: f(0.5), is_plugged: true };
    let value = ButtonValue::Binary(true);
    let cases = vec![
        (RequestPacket::RequestIdr, RequestEffect::RequestIdr),
        (RequestPacket::KeepAlive, RequestEffect::Nothing),
        (RequestPacket::ViewsConfig(views), RequestEffect::SetViewsConfig(views)),
        (RequestPacket::Battery(battery), RequestEffect::SetBattery(battery)),
        (RequestPacket::VideoErrorReport, RequestEffect::VideoErrorReport),
        (
            RequestPacket::Button { path_id: 6, value },
            RequestEffect::SetButton { path_id: 6, value, log: false },
        ),
    ];
    for (message, effect) in cases {
        assert_eq!(
            server.response_loop(&name("a"), message, false),
            (Reply::Packet(ResponsePacket::Success), effect)
        );
    }
    assert_eq!(
        server.response_loop(&name("a"), RequestPacket::Button { path_id: 6, value }, true).1,
        RequestEffect::SetButton { path_id: 6, value, log: true }
    );
}

#[test]
fn custom_requests_get_an_empty_object() {
    let mut server = server_with(&["a"]);
    assert_eq!(
        server.response_loop(&name("a"), RequestPacket::Custom(name("{\"x\":1}")), false),
        (Reply::Packet(ResponsePacket::Custom(name("{}"))), RequestEffect::Nothing)
    );
}

#[test]
fn other_requests_are_unimplemented() {
    let mut server = server_with(&["a"]);
    let messages = vec![
        RequestPacket::StoreSession(name("{}")),
        RequestPacket::StoreSettings(name("{}")),
        RequestPacket::RegisterDriver,
        RequestPacket::UnregisterDriver,
        RequestPacket::RegisteredDrivers,
        RequestPacket::AudioDevices,
        RequestPacket::GraphicsDevice,
        RequestPacket::RestartSteamvr,
        RequestPacket::ClientListAction(ClientListAction::Trust),
        RequestPacket::ServerVersion,
        RequestPacket::ServerOs,
        RequestPacket::UpdateServer { download_url: name("http://localhost") },
        RequestPacket::ActiveInteractionProfile { device_id: 1, profile_id: 2 },
    ];
    for message in messages {
        assert_eq!(
            server.response_loop(&name("a"), message, false),
            (
                Reply::Packet(ResponsePacket::Failure(name("unimplemented"))),
                RequestEffect::Nothing
            )
        );
    }
}

fn known() -> Vec<KnownClient> {
    vec![
        KnownClient { hostname: name("a"), manual_ips: vec![ip(1), ip(2)] },
        KnownClient { hostname: name("b"), manual_ips: vec![] },
        KnownClient { hostname: name("c"), manual_ips: vec![ip(2), ip(2), ip(3)] },
    ]
}

#[test]
fn last_client_at_an_address_counts() {
    let book = manual_client_ips(&known());
    assert_eq!(book.get(&ip(1)), Some(&name("a")));
    assert_eq!(book.get(&ip(2)), Some(&name("c")));
    assert_eq!(book.get(&ip(3)), Some(&name("c")));
    assert_eq!(book.get(&ip(4)), None);
    assert_eq!(book.addresses().len(), 3);
}

fn step(phase: HandshakePhase, event: HandshakeEvent) -> (HandshakePhase, HandshakeAction) {
    handshake_loop(phase, event, &server_with(&["connected"]).clients)
}

#[test]
fn manual_clients_are_tried_first() {
    let (phase, action) = step(
        HandshakePhase::Start,
        HandshakeEvent::Tick { alive: true, known: known() },
    );
    assert_eq!(phase, HandshakePhase::ManualTrial);
    match action {
        HandshakeAction::Connect(book) => assert_eq!(book.get(&ip(2)), Some(&name("c"))),
        other => panic!("{other:?}"),
    }
}

#[test]
fn search_stops_on_request() {
    let (phase, action) = step(
        HandshakePhase::Start,
        HandshakeEvent::Tick { alive: false, known: known() },
    );
    assert_eq!(phase, HandshakePhase::Stopped);
    assert!(matches!(action, HandshakeAction::End(Err(InterruptibleError::Interrupted))));
}

#[test]
fn search_needs_a_socket() {
    let (phase, action) = step(HandshakePhase::Opening, HandshakeEvent::Opened(Ok(())));
    assert_eq!(phase, HandshakePhase::Start);
    assert!(matches!(action, HandshakeAction::Again));
    let (phase, action) = step(
        HandshakePhase::Opening,
        HandshakeEvent::Opened(Err("address in use".to_string())),
    );
    assert_eq!(phase, HandshakePhase::Stopped);
    match action {
        HandshakeAction::End(Err(InterruptibleError::Other(cause))) => {
            assert_eq!(cause, "address in use");
        }
        other => panic!("{other:?}"),
    }
}

#[test]
fn manual_clients_follow_each_other() {
    let discovery = Switch::Enabled(DiscoveryConfig { auto_trust_clients: true });
    let (phase, action) = step(
        HandshakePhase::ManualTrial,
        HandshakeEvent::ManualTrialEnded { connected: true, discovery },
    );
    assert_eq!(phase, HandshakePhase::Start);
    assert!(matches!(action, HandshakeAction::Again));
}

#[test]
fn discovery_may_be_disabled() {
    let (phase, action) = step(
        HandshakePhase::ManualTrial,
        HandshakeEvent::ManualTrialEnded { connected: false, discovery: Switch::Disabled },
    );
    assert_eq!(phase, HandshakePhase::Start);
    assert!(matches!(action, HandshakeAction::Again));
}

#[test]
fn discovery_listens_after_failed_trials() {
    for auto_trust in [false, true] {
        let discovery = Switch::Enabled(DiscoveryConfig { auto_trust_clients: auto_trust });
        let (phase, action) = step(
            HandshakePhase::ManualTrial,
            HandshakeEvent::ManualTrialEnded { connected: false, discovery },
        );
        assert_eq!(phase, HandshakePhase::Listening { auto_trust });
        assert!(matches!(action, HandshakeAction::Listen));
        let (phase, action) = step(
            phase,
            HandshakeEvent::Announcement { hostname: name("new"), ip: ip(9) },
        );
        assert_eq!(phase, HandshakePhase::Announced { hostname: name("new"), ip: ip(9) });
        match action {
            HandshakeAction::EnterClient { hostname, changes } => {
                assert_eq!(hostname, "new");
                if auto_trust {
                    assert_eq!(changes, [ClientListAction::AddIfMissing, ClientListAction::Trust]);
                } else {
                    assert_eq!(changes, [ClientListAction::AddIfMissing]);
                }
            }
            other => panic!("{other:?}"),
        }
    }
}

#[test]
fn silence_is_waited_out() {
    let (phase, action) = step(
        HandshakePhase::Listening { auto_trust: true },
        HandshakeEvent::Silence,
    );
    assert_eq!(phase, HandshakePhase::Start);
    assert!(matches!(action, HandshakeAction::Pause(1_000_000_000)));
}

#[test]
fn trusted_strangers_are_connected_to() {
    let (phase, action) = step(
        HandshakePhase::Announced { hostname: name("new"), ip: ip(9) },
        HandshakeEvent::Lookup { trusted: Some(true) },
    );
    assert_eq!(phase, HandshakePhase::Trial);
    match action {
        HandshakeAction::Connect(book) => {
            assert_eq!(book.addresses(), vec![ip(9)]);
            assert_eq!(book.get(&ip(9)), Some(&name("new")));
        }
        other => panic!("{other:?}"),
    }
    let (phase, action) = step(phase, HandshakeEvent::TrialEnded);
    assert_eq!(phase, HandshakePhase::Start);
    assert!(matches!(action, HandshakeAction::Again));
}

#[test]
fn untrusted_and_connected_clients_are_left_alone() {
    let cases = [
        ("new", Some(false)),
        ("new", None),
        ("connected", Some(true)),
    ];
    for (hostname, trusted) in cases {
        let (phase, action) = step(
            HandshakePhase::Announced { hostname: name(hostname), ip: ip(9) },
            HandshakeEvent::Lookup { trusted },
        );
        assert_eq!(phase, HandshakePhase::Start);
        assert!(matches!(action, HandshakeAction::Again));
    }
}

#[test]
fn rounds_go_on_until_they_are_stopped_or_fail() {
    assert_eq!(response_round(RoundEvent::Tick { alive: true }), RoundAction::Poll);
    assert_eq!(response_round(RoundEvent::Polled(Ok(()))), RoundAction::Again);
    assert_eq!(
        response_round(RoundEvent::Tick { alive: false }),
        RoundAction::End(Err(InterruptibleError::Interrupted))
    );
    for cause in [InterruptibleError::Interrupted, InterruptibleError::Other("reset".to_string())] {
        assert_eq!(
            response_round(RoundEvent::Polled(Err(cause.clone()))),
            RoundAction::End(Err(cause))
        );
    }
}

#[test]
fn session_is_answered_with_its_text() {
    assert_eq!(
        Reply::Session.into_packet("{\"a\": 1}".to_string()),
        ResponsePacket::Session("{\"a\": 1}".to_string())
    );
    assert_eq!(
        Reply::Packet(ResponsePacket::Success).into_packet("{}".to_string()),
        ResponsePacket::Success
    );
}
