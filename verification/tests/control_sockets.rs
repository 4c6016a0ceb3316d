use alvr_connection::error::InterruptibleError;
use alvr_connection::net::{IpAddr, BROADCAST_IP, CONTROL_PORT, KEEPALIVE_INTERVAL, LOCAL_IP};
use alvr_connection::packets::{
    ResponsePacket, SsePacket, AUDIO_STREAM, EVENT_STREAM, HANDSHAKE_STREAM, HAPTICS_STREAM,
    REQUEST_STREAM, STATISTICS_STREAM, TRACKING_STREAM, VIDEO_STREAM,
};
use alvr_connection::sockets::{
    frame_reader, AcceptOutcome, AnnouncerSocket, ControlFrame, ControlListenerSocket,
    FrameQueues, FrameReader, Polled, RequestSocket, ScanResult, SseSocket,
};

const SERVER: IpAddr = IpAddr::V4(0xc0a8_0102);

fn greeting(name: &[u8], protocol_id: u64) -> Vec<u8> {
    let mut packet = vec![0u8; 24];
    packet[..name.len()].copy_from_slice(name);
    packet[16..24].copy_from_slice(&protocol_id.to_le_bytes());
    packet
}

fn connected(now: u64) -> ScanResult {
    ScanResult::Connected {
        server_ip: SERVER,
        request_socket: RequestSocket { last_socket_send: now },
        sse_socket: SseSocket {},
    }
}

#[test]
fn announcement_has_name_protocol_and_hostname() {
    let announcer = AnnouncerSocket::new(0x0102_0304_0506_0708, "1234.client.alvr");
    let mut expected = [0u8; 56];
    expected[..4].copy_from_slice(b"ALVR");
    expected[16..24].copy_from_slice(&[8, 7, 6, 5, 4, 3, 2, 1]);
    expected[24..40].copy_from_slice(b"1234.client.alvr");
    assert_eq!(announcer.packet, expected);
    let datagram = announcer.broadcast();
    assert_eq!(datagram.payload, expected);
    assert_eq!(datagram.destination, IpAddr::V4(BROADCAST_IP));
    assert_eq!(datagram.port, CONTROL_PORT);
    assert_eq!(datagram.port, 9943);
    assert_eq!(LOCAL_IP, 0);
}

#[test]
fn hostnames_of_32_bytes_fit() {
    assert!(AnnouncerSocket::accepts_hostname(""));
    assert!(AnnouncerSocket::accepts_hostname(&"a".repeat(32)));
    assert!(!AnnouncerSocket::accepts_hostname(&"a".repeat(33)));
    assert!(AnnouncerSocket::accepts_hostname(&"\u{e9}".repeat(16)));
    assert!(!AnnouncerSocket::accepts_hostname(&"\u{e9}".repeat(17)));
    let announcer = AnnouncerSocket::new(1, &"\u{e9}".repeat(16));
    assert_eq!(&announcer.packet[24..28], &[0xc3, 0xa9, 0xc3, 0xa9]);
}

#[test]
fn server_of_the_same_protocol_is_accepted() {
    let listener = ControlListenerSocket::new(77);
    let packet = greeting(b"ALVR", 77);
    assert!(ControlListenerSocket::can_judge(&packet));
    assert_eq!(listener.scan(SERVER, &packet, 5), connected(5));
}

#[test]
fn server_of_another_protocol_is_refused() {
    let listener = ControlListenerSocket::new(77);
    assert_eq!(listener.scan(SERVER, &greeting(b"ALVR", 78), 5), ScanResult::MismatchedVersion);
    assert_eq!(
        listener.scan(SERVER, &greeting(b"ALVR", 77 << 8), 5),
        ScanResult::MismatchedVersion
    );
}

#[test]
fn peers_of_another_name_are_unrelated() {
    let listener = ControlListenerSocket::new(77);
    assert_eq!(listener.scan(SERVER, &greeting(b"ALVX", 77), 5), ScanResult::UnrelatedPeer);
    assert_eq!(listener.scan(SERVER, &greeting(b"ALVR2", 77), 5), ScanResult::UnrelatedPeer);
    assert_eq!(listener.scan(SERVER, &vec![0u8; 4], 5), ScanResult::UnrelatedPeer);
    let mut padded = b"ALVR".to_vec();
    padded.resize(16, 1);
    assert!(ControlListenerSocket::can_judge(&padded));
    assert_eq!(listener.scan(SERVER, &padded, 5), ScanResult::UnrelatedPeer);
}

#[test]
fn short_packets_cannot_be_judged() {
    assert!(!ControlListenerSocket::can_judge(&vec![]));
    assert!(!ControlListenerSocket::can_judge(&b"ALV".to_vec()));
    assert!(!ControlListenerSocket::can_judge(&b"ALVR".to_vec()));
    assert!(ControlListenerSocket::can_judge(&b"BLVR".to_vec()));
    let mut packet = greeting(b"ALVR", 1);
    packet.truncate(23);
    assert!(!ControlListenerSocket::can_judge(&packet));
}

#[test]
fn announcements_are_judged_by_their_protocol() {
    let announcer = AnnouncerSocket::new(4711, "host");
    let packet = announcer.packet.to_vec();
    assert!(ControlListenerSocket::can_judge(&packet));
    assert_eq!(ControlListenerSocket::new(4711).scan(SERVER, &packet, 1), connected(1));
    assert_eq!(
        ControlListenerSocket::new(4712).scan(SERVER, &packet, 1),
        ScanResult::MismatchedVersion
    );
}

#[test]
fn announcements_tell_protocol_and_hostname() {
    let announcer = AnnouncerSocket::new(1, "a");
    assert_ne!(announcer.packet, AnnouncerSocket::new(2, "a").packet);
    assert_ne!(announcer.packet, AnnouncerSocket::new(1, "b").packet);
    assert_ne!(announcer.packet, AnnouncerSocket::new(1, "aa").packet);
    assert_eq!(announcer.packet, AnnouncerSocket::new(1, "a\0").packet);
}

#[test]
fn failed_waits_are_interruptions_or_errors() {
    let listener = ControlListenerSocket::new(1);
    assert_eq!(listener.accept(AcceptOutcome::Accepted(SERVER)), Ok(SERVER));
    assert_eq!(
        listener.accept(AcceptOutcome::WouldBlock),
        Err(InterruptibleError::Interrupted)
    );
    assert_eq!(
        listener.accept(AcceptOutcome::Interrupted),
        Err(InterruptibleError::Interrupted)
    );
    assert_eq!(
        listener.accept(AcceptOutcome::Failed("reset".to_string())),
        Err(InterruptibleError::Other("reset".to_string()))
    );
}

#[test]
fn requests_go_out_on_their_stream() {
    let mut socket = RequestSocket { last_socket_send: 3 };
    assert_eq!(
        socket.request(Err("too large".to_string()), 9),
        Err(InterruptibleError::Other("too large".to_string()))
    );
    assert_eq!(socket.last_socket_send, 3);
    assert_eq!(
        socket.request(Ok(vec![1, 2, 3]), 10),
        Ok(ControlFrame { stream_id: REQUEST_STREAM, buffer: vec![1, 2, 3] })
    );
    assert_eq!(socket.last_socket_send, 10);
    assert_eq!(
        socket.response(Some(Ok(ResponsePacket::Success))),
        Ok(ResponsePacket::Success)
    );
    assert_eq!(
        socket.response(Some(Err("garbage".to_string()))),
        Err(InterruptibleError::Other("garbage".to_string()))
    );
    assert_eq!(socket.response(None), Err(InterruptibleError::Interrupted));
}

#[test]
fn events_come_until_the_connection_closes() {
    let mut socket = SseSocket {};
    assert_eq!(socket.recv(Some(Ok(SsePacket::StopStreaming))), Ok(SsePacket::StopStreaming));
    assert_eq!(
        socket.recv(Some(Err("garbage".to_string()))),
        Err(InterruptibleError::Other("garbage".to_string()))
    );
    assert_eq!(socket.recv(Some(Ok(SsePacket::KeepAlive))), Ok(SsePacket::KeepAlive));
    assert_eq!(socket.recv(None), Err(InterruptibleError::Interrupted));
    assert_eq!(socket.recv(None), Err(InterruptibleError::Interrupted));
}

#[test]
fn each_reader_gets_its_frames_in_order() {
    let mut queues = FrameQueues::new();
    assert_eq!(queues.next_response(), Polled::Pending);
    for (stream_id, byte) in [
        (EVENT_STREAM, 1),
        (REQUEST_STREAM, 2),
        (HANDSHAKE_STREAM, 3),
        (EVENT_STREAM, 4),
        (REQUEST_STREAM, 5),
        (99, 6),
    ] {
        assert_eq!(queues.deliver(stream_id, vec![byte]), Ok(()));
    }
    assert_eq!(queues.next_event(), Polled::Buffer(vec![1]));
    assert_eq!(queues.next_response(), Polled::Buffer(vec![2]));
    assert_eq!(queues.next_response(), Polled::Buffer(vec![5]));
    queues.deliver(EVENT_STREAM, vec![7]).unwrap();
    assert_eq!(queues.next_event(), Polled::Buffer(vec![4]));
    assert_eq!(queues.next_event(), Polled::Buffer(vec![7]));
    assert_eq!(queues.next_event(), Polled::Pending);
}

#[test]
fn unread_events_do_not_hold_up_a_response() {
    let mut queues = FrameQueues::new();
    queues.deliver(EVENT_STREAM, vec![1]).unwrap();
    queues.deliver(EVENT_STREAM, vec![2]).unwrap();
    queues.deliver(REQUEST_STREAM, vec![3]).unwrap();
    assert_eq!(queues.next_response(), Polled::Buffer(vec![3]));
    assert_eq!(queues.next_event(), Polled::Buffer(vec![1]));
    assert_eq!(queues.next_event(), Polled::Buffer(vec![2]));
}

#[test]
fn closed_connections_are_read_to_their_end() {
    let mut queues = FrameQueues::new();
    queues.deliver(EVENT_STREAM, vec![1]).unwrap();
    queues.close();
    assert_eq!(queues.next_response(), Polled::Closed);
    assert_eq!(queues.next_event(), Polled::Buffer(vec![1]));
    assert_eq!(queues.next_event(), Polled::Closed);
    assert_eq!(queues.next_event(), Polled::Closed);
}

#[test]
fn frames_for_lost_readers_are_errors() {
    let mut queues = FrameQueues::new();
    queues.leave(FrameReader::Event);
    assert_eq!(
        queues.deliver(EVENT_STREAM, vec![1]),
        Err(InterruptibleError::Other("sending on a closed channel".to_string()))
    );
    assert_eq!(queues.deliver(REQUEST_STREAM, vec![2]), Ok(()));
    assert_eq!(queues.deliver(HANDSHAKE_STREAM, vec![]), Ok(()));
    queues.leave(FrameReader::Response);
    assert!(queues.deliver(REQUEST_STREAM, vec![3]).is_err());
}

#[test]
fn keepalive_is_sent_after_the_interval() {
    let mut socket = RequestSocket { last_socket_send: 100 };
    assert_eq!(socket.keepalive(100 + KEEPALIVE_INTERVAL), None);
    assert_eq!(socket.last_socket_send, 100);
    assert_eq!(
        socket.keepalive(101 + KEEPALIVE_INTERVAL),
        Some(ControlFrame { stream_id: HANDSHAKE_STREAM, buffer: vec![] })
    );
    assert_eq!(socket.last_socket_send, 101 + KEEPALIVE_INTERVAL);
    assert_eq!(socket.keepalive(50), None);
    assert_eq!(KEEPALIVE_INTERVAL, 1_000_000_000);
}

#[test]
fn frames_reach_their_readers() {
    assert_eq!(frame_reader(REQUEST_STREAM), FrameReader::Response);
    assert_eq!(frame_reader(EVENT_STREAM), FrameReader::Event);
    assert_eq!(frame_reader(HANDSHAKE_STREAM), FrameReader::Nobody);
    assert_eq!(frame_reader(200), FrameReader::Nobody);
    let ids = [
        HANDSHAKE_STREAM,
        REQUEST_STREAM,
        EVENT_STREAM,
        TRACKING_STREAM,
        HAPTICS_STREAM,
        STATISTICS_STREAM,
        AUDIO_STREAM,
        VIDEO_STREAM,
    ];
    assert_eq!(ids, [0, 1, 2, 3, 4, 5, 6, 7]);
}
