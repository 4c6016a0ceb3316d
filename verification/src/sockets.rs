//! The control sockets of a client: how it announces itself, which server it accepts, and what
//! it sends and receives.

use crate::error::{IntResult, InterruptibleError};
use crate::net::{
    IpAddr, BROADCAST_IP, CONTROL_PORT, HANDSHAKE_PACKET_SIZE_BYTES, KEEPALIVE_INTERVAL,
};
use crate::packets::{
    ResponsePacket, SsePacket, EVENT_STREAM, HANDSHAKE_STREAM, REQUEST_STREAM,
};
use std::collections::VecDeque;
use vstd::prelude::*;
use vstd::string::StringSliceAdditionalSpecFns;

verus! {

/// The name that both ends of a connection give themselves.
pub const ALVR_NAME: &'static str = "ALVR";

/// The length of the field for the name.
pub const NAME_FIELD_BYTES: usize = 16;

/// Where the protocol identifier ends and the hostname begins.
pub const HOSTNAME_OFFSET: usize = 24;

/// The bytes of the name.
pub open spec fn name_bytes() -> Seq<u8> {
    seq![65u8, 76u8, 86u8, 82u8]
}

proof fn lemma_name_bytes()
    ensures
        ALVR_NAME@.len() == 4,
        ALVR_NAME.spec_bytes() == name_bytes(),
{
    reveal_strlit("ALVR");
    assert(ALVR_NAME.is_ascii());
    assert(ALVR_NAME.spec_bytes() =~= name_bytes());
}

/// What a client sends to announce itself: the name and the protocol identifier, least
/// significant byte first, in fields of 16 and 8 bytes, then the hostname, and zeros wherever
/// nothing else stands.
pub open spec fn announcement(protocol_id: u64, hostname: Seq<char>) -> Seq<u8> {
    let host = vstd::utf8::encode_utf8(hostname);
    Seq::new(
        HANDSHAKE_PACKET_SIZE_BYTES as nat,
        |i: int|
            if i < 4 {
                name_bytes()[i]
            } else if NAME_FIELD_BYTES <= i < HOSTNAME_OFFSET {
                vstd::bytes::spec_u64_to_le_bytes(protocol_id)[i - NAME_FIELD_BYTES]
            } else if HOSTNAME_OFFSET <= i < HOSTNAME_OFFSET + host.len() {
                host[i - HOSTNAME_OFFSET]
            } else {
                0u8
            },
    )
}

/// Whether a hostname fits in an announcement.
pub open spec fn hostname_fits(hostname: Seq<char>) -> bool {
    HOSTNAME_OFFSET + vstd::utf8::encode_utf8(hostname).len() <= HANDSHAKE_PACKET_SIZE_BYTES
}

fn write_at(packet: &mut [u8; 56], offset: usize, bytes: &[u8])
    requires
        offset + bytes@.len() <= 56,
    ensures
        final(packet)@ == Seq::new(
            56,
            |i: int|
                if offset <= i < offset + bytes@.len() {
                    bytes@[i - offset]
                } else {
                    old(packet)@[i]
                },
        ),
{
    let mut k: usize = 0;
    while k < bytes.len()
        invariant
            k <= bytes@.len(),
            offset + bytes@.len() <= 56,
            packet@ == Seq::new(
                56,
                |i: int|
                    if offset <= i < offset + k {
                        bytes@[i - offset]
                    } else {
                        old(packet)@[i]
                    },
            ),
        decreases bytes@.len() - k,
    {
        packet[offset + k] = bytes[k];
        k = k + 1;
    }
}

/// A packet for the control socket of every host of the local network.
#[derive(Clone, Copy, Debug, PartialEq)]
pub struct Datagram {
    pub destination: IpAddr,
    pub port: u16,
    pub payload: [u8; 56],
}

/// Announces a client on the local network.
#[derive(Clone, Copy, Debug, PartialEq)]
pub struct AnnouncerSocket {
    pub packet: [u8; 56],
}

impl AnnouncerSocket {
    /// Whether a hostname can be announced.
    pub fn accepts_hostname(hostname: &str) -> (res: bool)
        ensures
            res == hostname_fits(hostname@),
    {
        hostname.as_bytes().len() <= HANDSHAKE_PACKET_SIZE_BYTES - HOSTNAME_OFFSET
    }

    /// An announcer of a client that speaks the given protocol.
    pub fn new(protocol_id: u64, hostname: &str) -> (res: AnnouncerSocket)
        requires
            hostname_fits(hostname@),
        ensures
            res.packet@ == announcement(protocol_id, hostname@),
    {
        let mut packet = [0u8; 56];
        let id = vstd::bytes::u64_to_le_bytes(protocol_id);
        proof {
            lemma_name_bytes();
            vstd::bytes::lemma_auto_spec_u64_to_from_le_bytes();
        }
        write_at(&mut packet, 0, ALVR_NAME.as_bytes());
        write_at(&mut packet, NAME_FIELD_BYTES, id.as_slice());
        write_at(&mut packet, HOSTNAME_OFFSET, hostname.as_bytes());
        assert(packet@ =~= announcement(protocol_id, hostname@));
        AnnouncerSocket { packet }
    }

    /// The announcement, and where it is sent.
    pub fn broadcast(&self) -> (res: Datagram)
        ensures
            res == (Datagram {
                destination: IpAddr::V4(BROADCAST_IP),
                port: CONTROL_PORT,
                payload: self.packet,
            }),
    {
        Datagram {
            destination: IpAddr::V4(BROADCAST_IP),
            port: CONTROL_PORT,
            payload: self.packet,
        }
    }
}

/// Something to be sent on the control socket.
#[derive(Debug, PartialEq)]
pub struct ControlFrame {
    pub stream_id: u8,
    pub buffer: Vec<u8>,
}

/// Who reads what is received on the control socket.
#[derive(Clone, Copy, Debug, PartialEq, Eq, Structural)]
pub enum FrameReader {
    Response,
    Event,
    Nobody,
}

/// Who reads the frames of a stream: answers to requests and events have a reader, keepalives and
/// unknown streams have none.
pub open spec fn reader_of(stream_id: u8) -> FrameReader {
    if stream_id == REQUEST_STREAM {
        FrameReader::Response
    } else if stream_id == EVENT_STREAM {
        FrameReader::Event
    } else {
        FrameReader::Nobody
    }
}

/// Who reads the frames of a stream.
pub fn frame_reader(stream_id: u8) -> (res: FrameReader)
    ensures
        res == reader_of(stream_id),
{
    if stream_id == REQUEST_STREAM {
        FrameReader::Response
    } else if stream_id == EVENT_STREAM {
        FrameReader::Event
    } else {
        FrameReader::Nobody
    }
}

/// What is said where a frame has lost its reader.
pub const READER_GONE_MESSAGE: &'static str = "sending on a closed channel";

/// What a reader finds in its queue.
#[derive(Debug, PartialEq)]
pub enum Polled {
    /// The frame that has waited longest.
    Buffer(Vec<u8>),
    /// Nothing yet.
    Pending,
    /// Nothing, and nothing will come any more.
    Closed,
}

/// What was received on the control socket and not read yet. Each reader has a queue of its own,
/// and a queue has room for any number of frames, so that no reader waits for the other one.
#[derive(Debug)]
pub struct FrameQueues {
    pub responses: VecDeque<Vec<u8>>,
    pub events: VecDeque<Vec<u8>>,
    /// Whether more can be received.
    pub open: bool,
    /// Whether somebody reads the responses.
    pub response_reader: bool,
    /// Whether somebody reads the events.
    pub event_reader: bool,
}

/// The state of [`FrameQueues`].
#[verifier::ext_equal]
pub ghost struct QueuesView {
    pub responses: Seq<Vec<u8>>,
    pub events: Seq<Vec<u8>>,
    pub open: bool,
    pub response_reader: bool,
    pub event_reader: bool,
}

/// What happens to the queues.
pub ghost enum QueueEvent {
    /// A frame is received.
    Frame { stream_id: u8, buffer: Vec<u8> },
    /// A reader takes a frame, if there is one.
    Take(FrameReader),
}

impl View for FrameQueues {
    type V = QueuesView;

    open spec fn view(&self) -> QueuesView {
        QueuesView {
            responses: self.responses@,
            events: self.events@,
            open: self.open,
            response_reader: self.response_reader,
            event_reader: self.event_reader,
        }
    }
}

impl QueuesView {
    /// What waits for a reader.
    pub open spec fn queue(self, reader: FrameReader) -> Seq<Vec<u8>> {
        match reader {
            FrameReader::Response => self.responses,
            FrameReader::Event => self.events,
            FrameReader::Nobody => Seq::empty(),
        }
    }

    /// Whether the frames of a stream have lost their reader.
    pub open spec fn has_lost_reader(self, stream_id: u8) -> bool {
        match reader_of(stream_id) {
            FrameReader::Response => !self.response_reader,
            FrameReader::Event => !self.event_reader,
            FrameReader::Nobody => false,
        }
    }

    /// The same state, with something else waiting for a reader.
    pub open spec fn with_queue(self, reader: FrameReader, queue: Seq<Vec<u8>>) -> QueuesView {
        match reader {
            FrameReader::Response => QueuesView { responses: queue, ..self },
            FrameReader::Event => QueuesView { events: queue, ..self },
            FrameReader::Nobody => self,
        }
    }

    /// The state after an event.
    pub open spec fn after(self, event: QueueEvent) -> QueuesView {
        match event {
            QueueEvent::Frame { stream_id, buffer } => {
                let reader = reader_of(stream_id);
                self.with_queue(reader, self.queue(reader).push(buffer))
            },
            QueueEvent::Take(reader) => if self.queue(reader).len() > 0 {
                self.with_queue(reader, self.queue(reader).drop_first())
            } else {
                self
            },
        }
    }

    /// The state after a series of events.
    pub open spec fn after_all(self, events: Seq<QueueEvent>) -> QueuesView
        decreases events.len(),
    {
        if events.len() == 0 {
            self
        } else {
            self.after_all(events.drop_last()).after(events.last())
        }
    }

    /// What a reader took in the course of a series of events.
    pub open spec fn taken(self, events: Seq<QueueEvent>, reader: FrameReader) -> Seq<Vec<u8>>
        decreases events.len(),
    {
        if events.len() == 0 {
            Seq::empty()
        } else {
            let before = self.taken(events.drop_last(), reader);
            let queue = self.after_all(events.drop_last()).queue(reader);
            if events.last() == QueueEvent::Take(reader) && queue.len() > 0 {
                before.push(queue.first())
            } else {
                before
            }
        }
    }

    /// What a reader finds.
    pub open spec fn polled(self, reader: FrameReader) -> Polled {
        if self.queue(reader).len() > 0 {
            Polled::Buffer(self.queue(reader).first())
        } else if self.open {
            Polled::Pending
        } else {
            Polled::Closed
        }
    }
}

/// What was received for a reader in the course of a series of events, in the order in which it
/// was received.
pub open spec fn received_for(events: Seq<QueueEvent>, reader: FrameReader) -> Seq<Vec<u8>>
    decreases events.len(),
{
    if events.len() == 0 {
        Seq::empty()
    } else {
        let before = received_for(events.drop_last(), reader);
        match events.last() {
            QueueEvent::Frame { stream_id, buffer } => if reader_of(stream_id) == reader && reader
                != FrameReader::Nobody {
                before.push(buffer)
            } else {
                before
            },
            QueueEvent::Take(_) => before,
        }
    }
}

impl FrameQueues {
    /// The queues of a new connection.
    pub fn new() -> (res: FrameQueues)
        ensures
            res@ == (QueuesView {
                responses: Seq::empty(),
                events: Seq::empty(),
                open: true,
                response_reader: true,
                event_reader: true,
            }),
    {
        FrameQueues {
            responses: VecDeque::new(),
            events: VecDeque::new(),
            open: true,
            response_reader: true,
            event_reader: true,
        }
    }

    /// Puts a frame that was received in the queue of its reader. A frame that has no reader is
    /// dropped. It is an error that the reader of a frame is gone.
    pub fn deliver(&mut self, stream_id: u8, buffer: Vec<u8>) -> (res: IntResult<()>)
        ensures
            old(self)@.has_lost_reader(stream_id) ==> {
                &&& res matches Err(InterruptibleError::Other(cause)) && cause@
                    == READER_GONE_MESSAGE@
                &&& final(self)@ == old(self)@
            },
            !old(self)@.has_lost_reader(stream_id) ==> {
                &&& res is Ok
                &&& final(self)@ == old(self)@.after(QueueEvent::Frame { stream_id, buffer })
            },
    {
        match frame_reader(stream_id) {
            FrameReader::Response => {
                if !self.response_reader {
                    return Err(InterruptibleError::Other(READER_GONE_MESSAGE.to_owned()));
                }
                self.responses.push_back(buffer);
            },
            FrameReader::Event => {
                if !self.event_reader {
                    return Err(InterruptibleError::Other(READER_GONE_MESSAGE.to_owned()));
                }
                self.events.push_back(buffer);
            },
            FrameReader::Nobody => {},
        }
        Ok(())
    }

    /// Takes the response that has waited longest.
    pub fn next_response(&mut self) -> (res: Polled)
        ensures
            res == old(self)@.polled(FrameReader::Response),
            final(self)@ == old(self)@.after(QueueEvent::Take(FrameReader::Response)),
    {
        match self.responses.pop_front() {
            Some(buffer) => {
                assert(self.responses@ =~= old(self).responses@.drop_first());
                Polled::Buffer(buffer)
            },
            None => if self.open {
                Polled::Pending
            } else {
                Polled::Closed
            },
        }
    }

    /// Takes the event that has waited longest.
    pub fn next_event(&mut self) -> (res: Polled)
        ensures
            res == old(self)@.polled(FrameReader::Event),
            final(self)@ == old(self)@.after(QueueEvent::Take(FrameReader::Event)),
    {
        match self.events.pop_front() {
            Some(buffer) => {
                assert(self.events@ =~= old(self).events@.drop_first());
                Polled::Buffer(buffer)
            },
            None => if self.open {
                Polled::Pending
            } else {
                Polled::Closed
            },
        }
    }

    /// Notes that nothing more can be received. What waits can still be read.
    pub fn close(&mut self)
        ensures
            final(self)@ == (QueuesView { open: false, ..old(self)@ }),
    {
        self.open = false;
    }

    /// Notes that a reader is gone.
    pub fn leave(&mut self, reader: FrameReader)
        ensures
            final(self)@ == match reader {
                FrameReader::Response => QueuesView { response_reader: false, ..old(self)@ },
                FrameReader::Event => QueuesView { event_reader: false, ..old(self)@ },
                FrameReader::Nobody => old(self)@,
            },
    {
        match reader {
            FrameReader::Response => {
                self.response_reader = false;
            },
            FrameReader::Event => {
                self.event_reader = false;
            },
            FrameReader::Nobody => {},
        }
    }
}

/// What comes of a packet that was waited for: the packet, an error where it cannot be decoded,
/// and an interruption once the connection is closed.
pub open spec fn reception<T>(received: Option<Result<T, String>>) -> IntResult<T> {
    match received {
        Some(Ok(packet)) => Ok(packet),
        Some(Err(cause)) => Err(InterruptibleError::Other(cause)),
        None => Err(InterruptibleError::Interrupted),
    }
}

fn receive<T>(received: Option<Result<T, String>>) -> (res: IntResult<T>)
    ensures
        res == reception(received),
{
    match received {
        Some(Ok(packet)) => Ok(packet),
        Some(Err(cause)) => Err(InterruptibleError::Other(cause)),
        None => Err(InterruptibleError::Interrupted),
    }
}

/// Sends requests to the server and keeps the connection from falling silent.
#[derive(Clone, Copy, Debug, PartialEq, Eq, Structural)]
pub struct RequestSocket {
    pub last_socket_send: u64,
}

impl RequestSocket {
    /// Sends a request, given its encoding or why it cannot be encoded.
    pub fn request(&mut self, message: Result<Vec<u8>, String>, now: u64) -> (res: IntResult<
        ControlFrame,
    >)
        ensures
            match message {
                Ok(buffer) => {
                    &&& res == IntResult::<ControlFrame>::Ok(
                        ControlFrame { stream_id: REQUEST_STREAM, buffer },
                    )
                    &&& final(self).last_socket_send == now
                },
                Err(cause) => {
                    &&& res == IntResult::<ControlFrame>::Err(InterruptibleError::Other(cause))
                    &&& *final(self) == *old(self)
                },
            },
    {
        match message {
            Ok(buffer) => {
                self.last_socket_send = now;
                Ok(ControlFrame { stream_id: REQUEST_STREAM, buffer })
            },
            Err(cause) => Err(InterruptibleError::Other(cause)),
        }
    }

    /// The answer to a request, given what came for it: the decoded packet or why it cannot be
    /// decoded, and nothing once the connection is closed.
    pub fn response(&self, received: Option<Result<ResponsePacket, String>>) -> (res: IntResult<
        ResponsePacket,
    >)
        ensures
            res == reception(received),
    {
        receive(received)
    }

    /// Sends an empty frame if nothing was sent for longer than the keepalive interval, so that
    /// the silence so far is no longer than that.
    pub fn keepalive(&mut self, now: u64) -> (res: Option<ControlFrame>)
        ensures
            now - old(self).last_socket_send > KEEPALIVE_INTERVAL ==> {
                &&& res matches Some(frame) && frame.stream_id == HANDSHAKE_STREAM
                    && frame.buffer@.len() == 0
                &&& final(self).last_socket_send == now
            },
            now - old(self).last_socket_send <= KEEPALIVE_INTERVAL ==> {
                &&& res is None
                &&& *final(self) == *old(self)
            },
            now - final(self).last_socket_send <= KEEPALIVE_INTERVAL,
    {
        if now > self.last_socket_send && now - self.last_socket_send > KEEPALIVE_INTERVAL {
            self.last_socket_send = now;
            Some(ControlFrame { stream_id: HANDSHAKE_STREAM, buffer: Vec::new() })
        } else {
            None
        }
    }
}

/// Receives what the server sends on its own account.
#[derive(Clone, Copy, Debug, PartialEq, Eq, Structural)]
pub struct SseSocket {}

impl SseSocket {
    /// What the server sent, given what came: the decoded packet or why it cannot be decoded,
    /// and nothing once the connection is closed.
    pub fn recv(&mut self, received: Option<Result<SsePacket, String>>) -> (res: IntResult<
        SsePacket,
    >)
        ensures
            res == reception(received),
            *final(self) == *old(self),
    {
        receive(received)
    }
}

/// How the wait for a server on the control socket ended.
#[derive(Debug, PartialEq)]
pub enum AcceptOutcome {
    Accepted(IpAddr),
    WouldBlock,
    Interrupted,
    Failed(String),
}

/// What became of a peer that connected.
#[derive(Clone, Copy, Debug, PartialEq, Eq, Structural)]
pub enum ScanResult {
    Connected { server_ip: IpAddr, request_socket: RequestSocket, sse_socket: SseSocket },
    UnrelatedPeer,
    MismatchedVersion,
}

/// Whether the packet begins with the name.
pub open spec fn begins_with_name(packet: Seq<u8>) -> bool {
    packet.len() >= 4 && packet.take(4) == name_bytes()
}

/// Whether the field for the name holds the name, and nothing else.
pub open spec fn is_named(packet: Seq<u8>) -> bool {
    begins_with_name(packet) && packet.len() >= NAME_FIELD_BYTES && forall|i: int|
        4 <= i < NAME_FIELD_BYTES ==> packet[i] == 0
}

/// Whether the packet is long enough for the fields that have to be read: the name, the rest of
/// its field where the name is right, and the protocol identifier where the field is right.
pub open spec fn is_readable(packet: Seq<u8>) -> bool {
    &&& packet.len() >= 4
    &&& begins_with_name(packet) ==> packet.len() >= NAME_FIELD_BYTES
    &&& is_named(packet) ==> packet.len() >= HOSTNAME_OFFSET
}

/// Whether the packet names the given protocol.
pub open spec fn speaks(packet: Seq<u8>, protocol_id: u64) -> bool {
    packet.len() >= HOSTNAME_OFFSET && packet.subrange(
        NAME_FIELD_BYTES as int,
        HOSTNAME_OFFSET as int,
    ) == vstd::bytes::spec_u64_to_le_bytes(protocol_id)
}

fn region_equals(packet: &Vec<u8>, offset: usize, bytes: &[u8]) -> (res: bool)
    requires
        offset + bytes@.len() <= packet@.len(),
    ensures
        res == (packet@.subrange(offset as int, offset + bytes@.len()) == bytes@),
{
    let length: usize = packet.len();
    let mut k: usize = 0;
    while k < bytes.len()
        invariant
            k <= bytes@.len(),
            offset + bytes@.len() <= packet@.len(),
            length == packet@.len(),
            forall|i: int| 0 <= i < k ==> packet@[offset + i] == #[trigger] bytes@[i],
        decreases bytes@.len() - k,
    {
        if packet[offset + k] != bytes[k] {
            assert(packet@.subrange(offset as int, offset + bytes@.len())[k as int]
                != bytes@[k as int]);
            return false;
        }
        k = k + 1;
    }
    assert(packet@.subrange(offset as int, offset + bytes@.len()) =~= bytes@);
    true
}

fn region_is_zero(packet: &Vec<u8>, from: usize, to: usize) -> (res: bool)
    requires
        from <= to <= packet@.len(),
    ensures
        res == forall|i: int| from <= i < to ==> packet@[i] == 0,
{
    let mut k: usize = from;
    while k < to
        invariant
            from <= k <= to <= packet@.len(),
            forall|i: int| from <= i < k ==> packet@[i] == 0,
        decreases to - k,
    {
        if packet[k] != 0 {
            return false;
        }
        k = k + 1;
    }
    true
}

/// Waits for servers on the control socket.
#[derive(Clone, Copy, Debug, PartialEq, Eq, Structural)]
pub struct ControlListenerSocket {
    pub protocol_id: u64,
}

impl ControlListenerSocket {
    /// A listener for servers that speak the given protocol.
    pub fn new(protocol_id: u64) -> (res: ControlListenerSocket)
        ensures
            res.protocol_id == protocol_id,
    {
        ControlListenerSocket { protocol_id }
    }

    /// The address of a peer that connected. Where none did, the wait is interrupted.
    pub fn accept(&self, outcome: AcceptOutcome) -> (res: IntResult<IpAddr>)
        ensures
            res == match outcome {
                AcceptOutcome::Accepted(ip) => IntResult::<IpAddr>::Ok(ip),
                AcceptOutcome::WouldBlock => IntResult::<IpAddr>::Err(
                    InterruptibleError::Interrupted,
                ),
                AcceptOutcome::Interrupted => IntResult::<IpAddr>::Err(
                    InterruptibleError::Interrupted,
                ),
                AcceptOutcome::Failed(cause) => IntResult::<IpAddr>::Err(
                    InterruptibleError::Other(cause),
                ),
            },
    {
        match outcome {
            AcceptOutcome::Accepted(ip) => Ok(ip),
            AcceptOutcome::WouldBlock => Err(InterruptibleError::Interrupted),
            AcceptOutcome::Interrupted => Err(InterruptibleError::Interrupted),
            AcceptOutcome::Failed(cause) => Err(InterruptibleError::Other(cause)),
        }
    }

    /// Whether the first packet of a peer is long enough to be judged.
    pub fn can_judge(packet: &Vec<u8>) -> (res: bool)
        ensures
            res == is_readable(packet@),
    {
        proof {
            lemma_name_bytes();
        }
        if packet.len() < 4 {
            return false;
        }
        assert(packet@.take(4) =~= packet@.subrange(0, 4));
        if !region_equals(packet, 0, ALVR_NAME.as_bytes()) {
            return true;
        }
        if packet.len() < NAME_FIELD_BYTES {
            return false;
        }
        if !region_is_zero(packet, 4, NAME_FIELD_BYTES) {
            return true;
        }
        packet.len() >= HOSTNAME_OFFSET
    }

    /// Judges a peer by its first packet: it is a server if it gives the right name, and it is
    /// accepted if it also speaks the same protocol.
    pub fn scan(&self, server_ip: IpAddr, packet: &Vec<u8>, now: u64) -> (res: ScanResult)
        requires
            is_readable(packet@),
        ensures
            res == if !is_named(packet@) {
                ScanResult::UnrelatedPeer
            } else if !speaks(packet@, self.protocol_id) {
                ScanResult::MismatchedVersion
            } else {
                ScanResult::Connected {
                    server_ip,
                    request_socket: RequestSocket { last_socket_send: now },
                    sse_socket: SseSocket {  },
                }
            },
    {
        let id = vstd::bytes::u64_to_le_bytes(self.protocol_id);
        proof {
            lemma_name_bytes();
            vstd::bytes::lemma_auto_spec_u64_to_from_le_bytes();
        }
        assert(packet@.take(4) =~= packet@.subrange(0, 4));
        if !region_equals(packet, 0, ALVR_NAME.as_bytes()) || !region_is_zero(
            packet,
            4,
            NAME_FIELD_BYTES,
        ) {
            return ScanResult::UnrelatedPeer;
        }
        if !region_equals(packet, NAME_FIELD_BYTES, id.as_slice()) {
            return ScanResult::MismatchedVersion;
        }
        ScanResult::Connected {
            server_ip,
            request_socket: RequestSocket { last_socket_send: now },
            sse_socket: SseSocket {  },
        }
    }
}

/// A packet in the format of an announcement is judged by its protocol alone: its name is always
/// right, and it is accepted by those who speak the same protocol and by nobody else.
pub proof fn law_announcement_is_judged_by_protocol(
    protocol_id: u64,
    hostname: Seq<char>,
    expected: u64,
)
    ensures
        is_readable(announcement(protocol_id, hostname)),
        is_named(announcement(protocol_id, hostname)),
        speaks(announcement(protocol_id, hostname), expected) <==> protocol_id == expected,
{
    let packet = announcement(protocol_id, hostname);
    vstd::bytes::lemma_auto_spec_u64_to_from_le_bytes();
    assert(packet.take(4) =~= name_bytes());
    assert(packet.subrange(NAME_FIELD_BYTES as int, HOSTNAME_OFFSET as int)
        =~= vstd::bytes::spec_u64_to_le_bytes(protocol_id));
    if speaks(packet, expected) {
        assert(vstd::bytes::spec_u64_from_le_bytes(
            vstd::bytes::spec_u64_to_le_bytes(protocol_id),
        ) == vstd::bytes::spec_u64_from_le_bytes(vstd::bytes::spec_u64_to_le_bytes(expected)));
    }
}

/// Whether the encoding of a hostname ends in a zero byte, which cannot be told from what fills
/// an announcement up.
pub open spec fn ends_in_zero(hostname: Seq<char>) -> bool {
    let host = vstd::utf8::encode_utf8(hostname);
    host.len() > 0 && host.last() == 0
}

/// An announcement tells the protocol and the hostname of a client: no other protocol and no
/// other hostname give the same one.
pub proof fn law_announcement_tells_protocol_and_hostname(
    protocol_id: u64,
    hostname: Seq<char>,
    other_protocol_id: u64,
    other_hostname: Seq<char>,
)
    requires
        hostname_fits(hostname),
        hostname_fits(other_hostname),
        !ends_in_zero(hostname),
        !ends_in_zero(other_hostname),
        announcement(protocol_id, hostname) == announcement(other_protocol_id, other_hostname),
    ensures
        protocol_id == other_protocol_id,
        hostname == other_hostname,
{
    law_announcement_is_judged_by_protocol(protocol_id, hostname, protocol_id);
    law_announcement_is_judged_by_protocol(other_protocol_id, other_hostname, protocol_id);
    let host = vstd::utf8::encode_utf8(hostname);
    let other = vstd::utf8::encode_utf8(other_hostname);
    let packet = announcement(protocol_id, hostname);
    let same = announcement(other_protocol_id, other_hostname);
    if host.len() < other.len() {
        let end = HOSTNAME_OFFSET + other.len() - 1;
        assert(packet[end] == 0);
        assert(same[end] == other.last());
    }
    if other.len() < host.len() {
        let end = HOSTNAME_OFFSET + host.len() - 1;
        assert(same[end] == 0);
        assert(packet[end] == host.last());
    }
    assert forall|i: int| 0 <= i < host.len() implies host[i] == other[i] by {
        assert(packet[HOSTNAME_OFFSET + i] == host[i]);
        assert(same[HOSTNAME_OFFSET + i] == other[i]);
    }
    assert(host =~= other);
    vstd::utf8::encode_utf8_decode_utf8(hostname);
    vstd::utf8::encode_utf8_decode_utf8(other_hostname);
}

/// Keepalives are read by nobody.
pub proof fn law_keepalive_disturbs_no_reader()
    ensures
        reader_of(HANDSHAKE_STREAM) == FrameReader::Nobody,
{
}

/// Each reader gets the frames that were received for it, all of them, once and in the order in
/// which they were received, whatever else is received and however both readers take their turns:
/// what it took and what still waits for it make up what waited before and what was received.
pub proof fn law_reader_gets_its_frames(
    start: QueuesView,
    events: Seq<QueueEvent>,
    reader: FrameReader,
)
    ensures
        start.taken(events, reader) + start.after_all(events).queue(reader) == start.queue(reader)
            + received_for(events, reader),
    decreases events.len(),
{
    if events.len() == 0 {
        assert(start.taken(events, reader) + start.queue(reader) =~= start.queue(reader)
            + received_for(events, reader));
    } else {
        let front = events.drop_last();
        law_reader_gets_its_frames(start, front, reader);
        let taken = start.taken(front, reader);
        let queue = start.after_all(front).queue(reader);
        let all = start.queue(reader) + received_for(front, reader);
        match events.last() {
            QueueEvent::Frame { stream_id, buffer } => {
                if reader_of(stream_id) == reader && reader != FrameReader::Nobody {
                    assert(taken + queue.push(buffer) =~= (taken + queue).push(buffer));
                    assert(start.queue(reader) + received_for(front, reader).push(buffer)
                        =~= all.push(buffer));
                }
            },
            QueueEvent::Take(taker) => {
                if taker == reader && queue.len() > 0 {
                    assert(taken.push(queue.first()) + queue.drop_first() =~= taken + queue);
                }
            },
        }
    }
}

/// An event that nobody has read yet does not hold up a response: after any number of events a
/// response is there for its reader as soon as it is received, and the events wait in their order.
pub proof fn law_unread_events_do_not_hold_up_a_response(
    start: QueuesView,
    events: Seq<QueueEvent>,
    response: Vec<u8>,
)
    requires
        start.responses.len() == 0,
        forall|i: int|
            0 <= i < events.len() ==> ((#[trigger] events[i]) matches QueueEvent::Frame {
                stream_id,
                ..
            } && stream_id == EVENT_STREAM),
    ensures
        start.after_all(events).after(
            QueueEvent::Frame { stream_id: REQUEST_STREAM, buffer: response },
        ).polled(FrameReader::Response) == Polled::Buffer(response),
        start.after_all(events).after(
            QueueEvent::Frame { stream_id: REQUEST_STREAM, buffer: response },
        ).after(QueueEvent::Take(FrameReader::Response)).events == start.events + received_for(
            events,
            FrameReader::Event,
        ),
{
    lemma_events_leave_responses(start, events);
    law_reader_gets_its_frames(start, events, FrameReader::Event);
    let queue = start.after_all(events).events;
    assert(Seq::<Vec<u8>>::empty() + queue =~= queue);
}

proof fn lemma_events_leave_responses(start: QueuesView, events: Seq<QueueEvent>)
    requires
        forall|i: int|
            0 <= i < events.len() ==> ((#[trigger] events[i]) matches QueueEvent::Frame {
                stream_id,
                ..
            } && stream_id == EVENT_STREAM),
    ensures
        start.after_all(events).responses == start.responses,
        start.taken(events, FrameReader::Event) == Seq::<Vec<u8>>::empty(),
    decreases events.len(),
{
    if events.len() > 0 {
        let front = events.drop_last();
        assert forall|i: int| 0 <= i < front.len() implies ((#[trigger] front[i])
            matches QueueEvent::Frame { stream_id, .. } && stream_id == EVENT_STREAM) by {
            assert(front[i] == events[i]);
        }
        lemma_events_leave_responses(start, front);
        assert(events.last() == events[events.len() - 1]);
    }
}

/// A reader whose connection is closed and whose queue is empty is told so each time it asks.
pub proof fn law_closed_connection_stays_closed(state: QueuesView, reader: FrameReader)
    requires
        state.polled(reader) == Polled::Closed,
    ensures
        state.after(QueueEvent::Take(reader)) == state,
{
}

/// Packets come out as they went in: whatever the encoding, as long as decoding gives back what
/// was encoded, a reader that started with an empty queue takes the packets that were sent to it,
/// in the order in which they were sent.
pub proof fn law_packets_come_out_as_they_went_in<T>(
    encode: spec_fn(T) -> Seq<u8>,
    decode: spec_fn(Seq<u8>) -> Option<T>,
    packets: Seq<T>,
    start: QueuesView,
    events: Seq<QueueEvent>,
    reader: FrameReader,
    k: int,
)
    requires
        forall|packet: T| #[trigger] decode(encode(packet)) == Some(packet),
        start.queue(reader).len() == 0,
        received_for(events, reader).len() == packets.len(),
        forall|i: int|
            0 <= i < packets.len() ==> (#[trigger] received_for(events, reader)[i])@ == encode(
                packets[i],
            ),
        0 <= k < start.taken(events, reader).len(),
    ensures
        k < packets.len(),
        decode(start.taken(events, reader)[k]@) == Some(packets[k]),
{
    law_reader_gets_its_frames(start, events, reader);
    let taken = start.taken(events, reader);
    let rest = start.after_all(events).queue(reader);
    let received = received_for(events, reader);
    assert(start.queue(reader) + received =~= received);
    assert((taken + rest)[k] == taken[k]);
    assert(received[k]@ == encode(packets[k]));
}

/// The number that eight bytes stand for, the least significant one first.
pub open spec fn number_at(packet: Seq<u8>, at: int) -> int {
    packet[at] + 0x100 * packet[at + 1] + 0x1_0000 * packet[at + 2] + 0x100_0000 * packet[at + 3]
        + 0x1_0000_0000 * packet[at + 4] + 0x100_0000_0000 * packet[at + 5] + 0x1_0000_0000_0000
        * packet[at + 6] + 0x100_0000_0000_0000 * packet[at + 7]
}

proof fn lemma_le_bytes_are_the_number(x: u64)
    ensures
        vstd::bytes::spec_u64_to_le_bytes(x).len() == 8,
        number_at(vstd::bytes::spec_u64_to_le_bytes(x), 0) == x,
{
    vstd::bytes::spec_u64_to_le_bytes_to_open(x);
    assert(x == (x & 0xff) as u8 + 0x100 * ((x >> 8) & 0xff) as u8 + 0x1_0000 * ((x >> 16)
        & 0xff) as u8 + 0x100_0000 * ((x >> 24) & 0xff) as u8 + 0x1_0000_0000 * ((x >> 32)
        & 0xff) as u8 + 0x100_0000_0000 * ((x >> 40) & 0xff) as u8 + 0x1_0000_0000_0000 * ((x >> 48)
        & 0xff) as u8 + 0x100_0000_0000_0000 * ((x >> 56) & 0xff) as u8) by (bit_vector);
}

proof fn lemma_number_has_one_encoding(bytes: Seq<u8>, x: u64)
    requires
        bytes.len() == 8,
    ensures
        bytes == vstd::bytes::spec_u64_to_le_bytes(x) <==> number_at(bytes, 0) == x,
{
    let y = vstd::bytes::spec_u64_from_le_bytes(bytes);
    vstd::bytes::lemma_auto_spec_u64_to_from_le_bytes();
    assert(vstd::bytes::spec_u64_to_le_bytes(y) == bytes);
    lemma_le_bytes_are_the_number(x);
    lemma_le_bytes_are_the_number(y);
}

/// How an announcement is laid out: the four letters of the name, zeros up to place 16, the number of
/// the protocol in eight bytes, the hostname from place 24 on, and zeros after it, in 56 bytes.
pub proof fn law_announcement_is_laid_out(
    protocol_id: u64,
    hostname: &str,
    res: AnnouncerSocket,
    i: int,
)
    requires
        call_ensures(AnnouncerSocket::new, (protocol_id, hostname), res),
    ensures
        ({
            let packet = res.packet@;
            let host = vstd::utf8::encode_utf8(hostname@);
            &&& packet.len() == 56
            &&& packet[0] as char == 'A' && packet[1] as char == 'L' && packet[2] as char == 'V'
                && packet[3] as char == 'R'
            &&& 4 <= i < 16 ==> packet[i] == 0
            &&& number_at(packet, 16) == protocol_id
            &&& 0 <= i < host.len() && 24 + i < 56 ==> packet[24 + i] == host[i]
            &&& 24 + host.len() <= i < 56 ==> packet[i] == 0
        }),
{
    lemma_le_bytes_are_the_number(protocol_id);
    let packet = res.packet@;
    let id = vstd::bytes::spec_u64_to_le_bytes(protocol_id);
    assert(packet[16] == id[0]);
    assert(packet[17] == id[1]);
    assert(packet[18] == id[2]);
    assert(packet[19] == id[3]);
    assert(packet[20] == id[4]);
    assert(packet[21] == id[5]);
    assert(packet[22] == id[6]);
    assert(packet[23] == id[7]);
}

/// A hostname can be announced exactly where its encoding has no more than 32 bytes.
pub proof fn law_hostnames_up_to_32_bytes_fit(hostname: &str, res: bool)
    requires
        call_ensures(AnnouncerSocket::accepts_hostname, (hostname,), res),
    ensures
        res <==> vstd::utf8::encode_utf8(hostname@).len() <= 32,
{
}

/// An announcement goes as it is to the control port of every host: to the address 255.255.255.255, at
/// port 9943.
pub proof fn law_announcement_goes_to_everybody(socket: AnnouncerSocket, res: Datagram)
    requires
        call_ensures(AnnouncerSocket::broadcast, (&socket,), res),
    ensures
        res.destination matches IpAddr::V4(bits) && bits == 0xffff_ffff,
        res.port == 9943,
        res.payload == socket.packet,
{
}

/// Streams are told apart by their numbers: answers have the number 1, events the number 2, and no
/// other stream has a reader.
pub proof fn law_streams_are_told_apart(stream_id: u8, res: FrameReader)
    requires
        call_ensures(frame_reader, (stream_id,), res),
    ensures
        res == FrameReader::Response <==> stream_id == 1,
        res == FrameReader::Event <==> stream_id == 2,
        res == FrameReader::Nobody <==> stream_id != 1 && stream_id != 2,
{
}

/// New queues are empty and open, and both readers are there.
pub proof fn law_new_queues_are_empty(res: FrameQueues)
    requires
        call_ensures(FrameQueues::new, (), res),
    ensures
        res.responses@.len() == 0,
        res.events@.len() == 0,
        res.open,
        res.response_reader,
        res.event_reader,
{
}

/// A frame is put behind those that wait for the same reader, and nothing else changes. Where its
/// reader is gone it fails, with nothing changed, and a frame that nobody reads changes nothing.
pub proof fn law_frames_wait_for_their_own_reader(
    queues: &mut FrameQueues,
    stream_id: u8,
    buffer: Vec<u8>,
    res: IntResult<()>,
)
    requires
        call_ensures(FrameQueues::deliver, (queues, stream_id, buffer), res),
    ensures
        res is Err <==> stream_id == 1 && !old(queues).response_reader || stream_id == 2 && !old(queues).event_reader,
        res matches Err(cause) ==> (cause matches InterruptibleError::Other(text) && text@
            == "sending on a closed channel"@),
        stream_id == 1 && res is Ok ==> final(queues)@.responses =~= old(queues)@.responses.push(
            buffer,
        ),
        stream_id != 1 || res is Err ==> final(queues)@.responses == old(queues)@.responses,
        stream_id == 2 && res is Ok ==> final(queues)@.events =~= old(queues)@.events.push(buffer),
        stream_id != 2 || res is Err ==> final(queues)@.events == old(queues)@.events,
        final(queues)@.open == old(queues)@.open,
        final(queues)@.response_reader == old(queues)@.response_reader,
        final(queues)@.event_reader == old(queues)@.event_reader,
{
}

/// The reader of responses takes the one that has waited longest and leaves the rest in its order,
/// and the events too. Where there is none, it is told whether one can still come.
pub proof fn law_responses_are_taken_in_order(queues: &mut FrameQueues, res: Polled)
    requires
        call_ensures(FrameQueues::next_response, (queues,), res),
    ensures
        res matches Polled::Buffer(buffer) ==> old(queues)@.responses =~= seq![buffer] + final(queues)@.responses,
        !(res is Buffer) ==> old(queues)@.responses.len() == 0 && final(queues)@.responses.len() == 0,
        res is Pending ==> old(queues)@.open,
        res is Closed ==> !old(queues)@.open,
        final(queues)@.events == old(queues)@.events,
        final(queues)@.open == old(queues)@.open,
        final(queues)@.response_reader == old(queues)@.response_reader,
        final(queues)@.event_reader == old(queues)@.event_reader,
{
}

/// The reader of events takes the one that has waited longest and leaves the rest in its order, and
/// the responses too. Where there is none, it is told whether one can still come.
pub proof fn law_events_are_taken_in_order(queues: &mut FrameQueues, res: Polled)
    requires
        call_ensures(FrameQueues::next_event, (queues,), res),
    ensures
        res matches Polled::Buffer(buffer) ==> old(queues)@.events =~= seq![buffer] + final(queues)@.events,
        !(res is Buffer) ==> old(queues)@.events.len() == 0 && final(queues)@.events.len() == 0,
        res is Pending ==> old(queues)@.open,
        res is Closed ==> !old(queues)@.open,
        final(queues)@.responses == old(queues)@.responses,
        final(queues)@.open == old(queues)@.open,
        final(queues)@.response_reader == old(queues)@.response_reader,
        final(queues)@.event_reader == old(queues)@.event_reader,
{
}

/// A connection that is closed keeps what waits for its readers.
pub proof fn law_closing_keeps_what_waits(queues: &mut FrameQueues)
    requires
        call_ensures(FrameQueues::close, (queues,), ()),
    ensures
        !final(queues)@.open,
        final(queues)@.responses == old(queues)@.responses,
        final(queues)@.events == old(queues)@.events,
        final(queues)@.response_reader == old(queues)@.response_reader,
        final(queues)@.event_reader == old(queues)@.event_reader,
{
}

/// A reader that leaves is gone, and the other one stays.
pub proof fn law_readers_leave_alone(queues: &mut FrameQueues, reader: FrameReader)
    requires
        call_ensures(FrameQueues::leave, (queues, reader), ()),
    ensures
        final(queues)@.response_reader == (old(queues)@.response_reader && reader
            != FrameReader::Response),
        final(queues)@.event_reader == (old(queues)@.event_reader && reader != FrameReader::Event),
        final(queues)@.responses == old(queues)@.responses,
        final(queues)@.events == old(queues)@.events,
        final(queues)@.open == old(queues)@.open,
{
}

/// A request goes out as it was encoded, on the stream with the number 1, and breaks the silence. One
/// that could not be encoded fails by its cause, and the silence goes on.
pub proof fn law_requests_break_the_silence(
    socket: &mut RequestSocket,
    message: Result<Vec<u8>, String>,
    now: u64,
    res: IntResult<ControlFrame>,
)
    requires
        call_ensures(RequestSocket::request, (socket, message, now), res),
    ensures
        message matches Ok(buffer) ==> {
            &&& res matches Ok(frame) && frame.stream_id == 1 && frame.buffer == buffer
            &&& final(socket).last_socket_send == now
        },
        message matches Err(cause) ==> {
            &&& res matches Err(InterruptibleError::Other(text)) && text == cause
            &&& final(socket).last_socket_send == old(socket).last_socket_send
        },
{
}

/// A keepalive is an empty frame on the stream with the number 0. It goes out exactly where nothing
/// was sent for more than a second, and breaks the silence; otherwise nothing changes.
pub proof fn law_keepalives_go_out_after_a_second(
    socket: &mut RequestSocket,
    now: u64,
    res: Option<ControlFrame>,
)
    requires
        call_ensures(RequestSocket::keepalive, (socket, now), res),
    ensures
        res is Some <==> now - old(socket).last_socket_send > 1_000_000_000,
        res matches Some(frame) ==> frame.stream_id == 0 && frame.buffer@.len() == 0,
        final(socket).last_socket_send == if res is Some {
            now
        } else {
            old(socket).last_socket_send
        },
{
}

/// What comes for a request is handed on as it is: a packet as the packet, a cause as the cause, and
/// nothing as an interruption.
pub proof fn law_responses_are_handed_on(
    socket: RequestSocket,
    received: Option<Result<ResponsePacket, String>>,
    res: IntResult<ResponsePacket>,
)
    requires
        call_ensures(RequestSocket::response, (&socket, received), res),
    ensures
        received matches Some(Ok(packet)) ==> res == IntResult::<ResponsePacket>::Ok(packet),
        received matches Some(Err(cause)) ==> (res matches Err(InterruptibleError::Other(text)) && text
            == cause),
        received is None ==> (res matches Err(InterruptibleError::Interrupted)),
{
}

/// What the server sends on its own account is handed on as it is: a packet as the packet, a cause as
/// the cause, and nothing as an interruption.
pub proof fn law_events_are_handed_on(
    socket: &mut SseSocket,
    received: Option<Result<SsePacket, String>>,
    res: IntResult<SsePacket>,
)
    requires
        call_ensures(SseSocket::recv, (socket, received), res),
    ensures
        received matches Some(Ok(packet)) ==> res == IntResult::<SsePacket>::Ok(packet),
        received matches Some(Err(cause)) ==> (res matches Err(InterruptibleError::Other(text)) && text
            == cause),
        received is None ==> (res matches Err(InterruptibleError::Interrupted)),
{
}

/// A peer is accepted at its own address. A wait in which nobody connected is interrupted, and one
/// that failed fails by its cause.
pub proof fn law_peers_are_accepted_at_their_address(
    socket: ControlListenerSocket,
    outcome: AcceptOutcome,
    res: IntResult<IpAddr>,
)
    requires
        call_ensures(ControlListenerSocket::accept, (&socket, outcome), res),
    ensures
        outcome matches AcceptOutcome::Accepted(ip) ==> res == IntResult::<IpAddr>::Ok(ip),
        outcome is WouldBlock || outcome is Interrupted ==> (res
            matches Err(InterruptibleError::Interrupted)),
        outcome matches AcceptOutcome::Failed(cause) ==> (res matches Err(
            InterruptibleError::Other(text),
        ) && text == cause),
{
}

/// Whether a packet has the four letters of the name in its first four bytes.
pub open spec fn has_letters(packet: Seq<u8>) -> bool {
    packet.len() >= 4 && packet[0] as char == 'A' && packet[1] as char == 'L' && packet[2] as char
        == 'V' && packet[3] as char == 'R'
}

proof fn lemma_letters_are_the_name(packet: Seq<u8>)
    ensures
        begins_with_name(packet) <==> has_letters(packet),
{
    if has_letters(packet) {
        assert(packet.take(4) =~= name_bytes());
    }
    if begins_with_name(packet) {
        assert(packet.take(4)[0] == 65);
        assert(packet.take(4)[1] == 76);
        assert(packet.take(4)[2] == 86);
        assert(packet.take(4)[3] == 82);
    }
}

/// A peer is judged by the bytes of its first packet. It is a server of the same protocol exactly
/// where the four letters of the name come first, zeros follow up to place 16, and the next eight
/// bytes stand for the protocol that this listener speaks; it is then known by its own address, and
/// the silence begins now. Where only the protocol differs, it is said so. Everybody else is
/// unrelated.
pub proof fn law_peers_are_judged_by_their_bytes(
    socket: ControlListenerSocket,
    server_ip: IpAddr,
    packet: Vec<u8>,
    now: u64,
    res: ScanResult,
)
    requires
        call_ensures(ControlListenerSocket::scan, (&socket, server_ip, &packet, now), res),
        packet@.len() >= 24,
    ensures
        res is UnrelatedPeer <==> !has_letters(packet@) || exists|i: int|
            4 <= i < 16 && #[trigger] packet@[i] != 0,
        !(res is UnrelatedPeer) ==> (res is Connected <==> number_at(packet@, 16)
            == socket.protocol_id),
        res matches ScanResult::Connected { server_ip: ip, request_socket, sse_socket } ==> ip
            == server_ip && request_socket.last_socket_send == now,
{
    lemma_letters_are_the_name(packet@);
    let id = packet@.subrange(16, 24);
    lemma_number_has_one_encoding(id, socket.protocol_id);
    assert(id[0] == packet@[16]);
    assert(number_at(packet@, 16) == number_at(id, 0));
}

/// A packet can be judged exactly where it is as long as its own bytes ask for: the name has to be
/// there, the rest of its field where the name is right, and the protocol where the field is right.
pub proof fn law_short_packets_are_judged_where_they_can_be(packet: Vec<u8>, res: bool)
    requires
        call_ensures(ControlListenerSocket::can_judge, (&packet,), res),
    ensures
        packet@.len() < 4 ==> !res,
        packet@.len() >= 24 ==> res,
        packet@.len() >= 4 && !has_letters(packet@) ==> res,
        has_letters(packet@) && packet@.len() < 16 ==> !res,
        has_letters(packet@) && 16 <= packet@.len() < 24 ==> (res <==> exists|i: int|
            4 <= i < 16 && #[trigger] packet@[i] != 0),
{
    lemma_letters_are_the_name(packet@);
}

/// A listener speaks the protocol that it was made for.
pub proof fn law_listener_speaks_its_protocol(protocol_id: u64, res: ControlListenerSocket)
    requires
        call_ensures(ControlListenerSocket::new, (protocol_id,), res),
    ensures
        res.protocol_id == protocol_id,
{
}

} // verus!
