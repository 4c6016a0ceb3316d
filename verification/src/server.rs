//! What the server keeps of its clients, and how it answers their requests.

use crate::clients::{set_capabilities, ClientConnectionData, ClientTable};
use crate::error::{IntResult, InterruptibleError};
use crate::float32::F32;
use crate::net::IpAddr;
use crate::packets::{
    BatteryPacket, ButtonEvent, ButtonValue, RequestPacket, ResponsePacket, ViewsConfig,
};
use crate::table::Table;
use vstd::prelude::*;

verus! {

/// The encoding of 2.0, the least extent of the playspace in meters.
pub const LEAST_PLAYSPACE_BITS: u32 = 0x4000_0000;

/// The width of the identifier of a button in the log.
pub const BUTTON_ID_WIDTH: usize = 16;

/// Hostnames by address.
pub type AddressBook = Table<IpAddr, String>;

/// The connected clients, and the one that a stream is set up for.
#[derive(Debug)]
pub struct Server {
    pub clients: ClientTable,
    pub streaming_client: Option<String>,
}

/// The state of a [`Server`]: the connected clients by hostname, and the hostname of the one
/// that a stream is set up for.
#[verifier::ext_equal]
pub ghost struct ServerView {
    pub clients: Map<Seq<char>, ClientConnectionData>,
    pub streaming: Option<Seq<char>>,
}

/// The characters of a text that may be missing.
pub open spec fn text_of(text: Option<String>) -> Option<Seq<char>> {
    match text {
        Some(t) => Some(t@),
        None => None,
    }
}

impl View for Server {
    type V = ServerView;

    open spec fn view(&self) -> ServerView {
        ServerView { clients: self.clients@, streaming: text_of(self.streaming_client) }
    }
}

/// The answer to a request.
#[derive(Debug, PartialEq)]
pub enum Reply {
    /// This packet.
    Packet(ResponsePacket),
    /// The session, as a JSON text.
    Session,
}

impl Reply {
    /// The packet that is sent, given the session as a JSON text.
    pub open spec fn packet(self, session_json: String) -> ResponsePacket {
        match self {
            Reply::Packet(packet) => packet,
            Reply::Session => ResponsePacket::Session(session_json),
        }
    }

    /// The packet that is sent, given the session as a JSON text.
    pub fn into_packet(self, session_json: String) -> (res: ResponsePacket)
        ensures
            res == self.packet(session_json),
    {
        match self {
            Reply::Packet(packet) => packet,
            Reply::Session => ResponsePacket::Session(session_json),
        }
    }
}

/// What the server learns while it answers the requests of a client.
#[derive(Debug, PartialEq)]
pub enum RoundEvent {
    /// A round begins. Whether the program is to go on.
    Tick { alive: bool },
    /// A request was waited for, and answered where one came.
    Polled(IntResult<()>),
}

/// What the server does while it answers the requests of a client.
#[derive(Debug, PartialEq)]
pub enum RoundAction {
    /// Wait for a request, and answer it where one comes.
    Poll,
    /// Begin the next round.
    Again,
    /// End with this result.
    End(IntResult<()>),
}

/// How the server goes on with the requests of a client: it ends where the program is not to go
/// on and where the wait for a request fails, and nowhere else.
pub open spec fn round_after(event: RoundEvent) -> RoundAction {
    match event {
        RoundEvent::Tick { alive: true } => RoundAction::Poll,
        RoundEvent::Tick { alive: false } => RoundAction::End(Err(InterruptibleError::Interrupted)),
        RoundEvent::Polled(Ok(_)) => RoundAction::Again,
        RoundEvent::Polled(Err(cause)) => RoundAction::End(Err(cause)),
    }
}

/// Goes on with the requests of a client.
pub fn response_round(event: RoundEvent) -> (res: RoundAction)
    ensures
        res == round_after(event),
{
    match event {
        RoundEvent::Tick { alive } => {
            if alive {
                RoundAction::Poll
            } else {
                RoundAction::End(Err(InterruptibleError::Interrupted))
            }
        },
        RoundEvent::Polled(Ok(_)) => RoundAction::Again,
        RoundEvent::Polled(Err(cause)) => RoundAction::End(Err(cause)),
    }
}

/// The event that follows an action is the answer to it.
pub open spec fn round_answers(action: RoundAction, event: RoundEvent) -> bool {
    match action {
        RoundAction::Poll => event is Polled,
        RoundAction::Again => event is Tick,
        RoundAction::End(_) => false,
    }
}

/// The events of the rounds in which the server answers the requests of a client, from the first
/// round on.
pub open spec fn are_rounds(events: Seq<RoundEvent>) -> bool {
    &&& events.len() > 0 ==> events[0] is Tick
    &&& forall|i: int, j: int|
        0 <= i && j == i + 1 && j < events.len() ==> round_answers(
            round_after(#[trigger] events[i]),
            #[trigger] events[j],
        )
}

/// The rounds never end in success. They end by an interruption exactly where a round finds that
/// the program is not to go on, before anything is waited for in that round, or else by the very
/// error of the first wait that failed. What the requests hold ends nothing.
pub proof fn law_rounds_end_by_interruption_or_failure(events: Seq<RoundEvent>, k: int)
    requires
        are_rounds(events),
        0 <= k < events.len(),
        round_after(events[k]) is End,
    ensures
        k == events.len() - 1,
        events[k] == (RoundEvent::Tick { alive: false }) ==> round_after(events[k])
            == RoundAction::End(Err(InterruptibleError::Interrupted)),
        events[k] != (RoundEvent::Tick { alive: false }) ==> (events[k] matches RoundEvent::Polled(
            Err(cause),
        ) && round_after(events[k]) == RoundAction::End(Err(cause))),
        forall|i: int|
            0 <= i < k ==> (#[trigger] events[i]) == (RoundEvent::Tick { alive: true })
                || events[i] matches RoundEvent::Polled(Ok(_)),
{
    if k < events.len() - 1 {
        assert(round_answers(round_after(events[k]), events[k + 1]));
    }
    assert forall|i: int| 0 <= i < k implies (#[trigger] events[i]) == (RoundEvent::Tick {
        alive: true,
    }) || events[i] matches RoundEvent::Polled(Ok(_)) by {
        assert(round_answers(round_after(events[i]), events[i + 1]));
    }
}

/// What the server does about a request besides answering it.
#[derive(Clone, Copy, Debug, PartialEq)]
pub enum RequestEffect {
    Nothing,
    /// Find out whether the client can be sent video now.
    RequestVideoStreaming,
    /// Set up a stream for the client.
    StartStreaming,
    SetChaperone { width: F32, height: F32 },
    RequestIdr,
    SetViewsConfig(ViewsConfig),
    SetBattery(BatteryPacket),
    VideoErrorReport,
    /// Pass a button on, and report it as an event where `log` says so.
    SetButton { path_id: u64, value: ButtonValue, log: bool },
}

/// What happens to the server.
pub ghost enum ServerEvent {
    Connected { hostname: Seq<char>, sse_socket: u64 },
    Disconnected { hostname: Seq<char> },
    Request { hostname: Seq<char>, message: RequestPacket },
    StreamClosed,
}

/// Whether a request is one that the server leaves undone.
pub open spec fn is_unimplemented(message: RequestPacket) -> bool {
    match message {
        RequestPacket::StoreSession(_)
        | RequestPacket::StoreSettings(_)
        | RequestPacket::RegisterDriver
        | RequestPacket::UnregisterDriver
        | RequestPacket::RegisteredDrivers
        | RequestPacket::AudioDevices
        | RequestPacket::GraphicsDevice
        | RequestPacket::RestartSteamvr
        | RequestPacket::ClientListAction(_)
        | RequestPacket::ServerVersion
        | RequestPacket::ServerOs
        | RequestPacket::UpdateServer { .. }
        | RequestPacket::ActiveInteractionProfile { .. } => true,
        _ => false,
    }
}

/// Whether `reply` is the answer that a request is owed: the session to those who ask for it,
/// an empty JSON object to custom requests, a refusal to those that are not implemented, and
/// success to all others.
pub open spec fn is_reply_to(message: RequestPacket, reply: Reply) -> bool {
    if message is Session {
        reply == Reply::Session
    } else if message is Custom {
        reply matches Reply::Packet(ResponsePacket::Custom(text)) && text@ == "{}"@
    } else if is_unimplemented(message) {
        reply matches Reply::Packet(ResponsePacket::Failure(text)) && text@ == "unimplemented"@
    } else {
        reply == Reply::Packet(ResponsePacket::Success)
    }
}

/// What a request makes the server do.
pub open spec fn effect_of(
    state: ServerView,
    message: RequestPacket,
    log_button_presses: bool,
) -> RequestEffect {
    let least = F32 { bits: LEAST_PLAYSPACE_BITS };
    match message {
        RequestPacket::ClientCapabilities(_) => RequestEffect::RequestVideoStreaming,
        RequestPacket::ClientStreamSocketReady => if state.streaming is None {
            RequestEffect::StartStreaming
        } else {
            RequestEffect::Nothing
        },
        RequestPacket::PlayspaceSync(area) => RequestEffect::SetChaperone {
            width: area.x.max_spec(least),
            height: area.y.max_spec(least),
        },
        RequestPacket::RequestIdr => RequestEffect::RequestIdr,
        RequestPacket::ViewsConfig(config) => RequestEffect::SetViewsConfig(config),
        RequestPacket::Battery(packet) => RequestEffect::SetBattery(packet),
        RequestPacket::VideoErrorReport => RequestEffect::VideoErrorReport,
        RequestPacket::Button { path_id, value } => RequestEffect::SetButton {
            path_id,
            value,
            log: log_button_presses,
        },
        _ => RequestEffect::Nothing,
    }
}

impl ServerView {
    /// The state after an event.
    pub open spec fn after(self, event: ServerEvent) -> ServerView {
        match event {
            ServerEvent::Connected { hostname, sse_socket } => ServerView {
                clients: self.clients.insert(
                    hostname,
                    ClientConnectionData { sse_socket, capabilities: None },
                ),
                streaming: self.streaming,
            },
            ServerEvent::Disconnected { hostname } => ServerView {
                clients: self.clients.remove(hostname),
                streaming: self.streaming,
            },
            ServerEvent::Request {
                hostname,
                message: RequestPacket::ClientCapabilities(capabilities),
            } => ServerView {
                clients: self.clients.insert(
                    hostname,
                    ClientConnectionData {
                        sse_socket: self.clients[hostname].sse_socket,
                        capabilities,
                    },
                ),
                streaming: self.streaming,
            },
            ServerEvent::Request {
                hostname,
                message: RequestPacket::ClientStreamSocketReady,
            } => ServerView {
                clients: self.clients,
                streaming: if self.streaming is None {
                    Some(hostname)
                } else {
                    self.streaming
                },
            },
            ServerEvent::Request { .. } => self,
            ServerEvent::StreamClosed => ServerView { clients: self.clients, streaming: None },
        }
    }

    /// The state after a series of events.
    pub open spec fn after_all(self, events: Seq<ServerEvent>) -> ServerView
        decreases events.len(),
    {
        if events.len() == 0 {
            self
        } else {
            self.after_all(events.drop_last()).after(events.last())
        }
    }

    /// Whether an event makes the server set up a stream.
    pub open spec fn starts_stream(self, event: ServerEvent) -> bool {
        event matches ServerEvent::Request { message, .. } && effect_of(self, message, false)
            == RequestEffect::StartStreaming
    }

    /// The number of streams that a series of events sets up.
    pub open spec fn streams_started(self, events: Seq<ServerEvent>) -> nat
        decreases events.len(),
    {
        if events.len() == 0 {
            0
        } else if self.after_all(events.drop_last()).starts_stream(events.last()) {
            self.streams_started(events.drop_last()) + 1
        } else {
            self.streams_started(events.drop_last())
        }
    }
}

/// The number of events that close a stream.
pub open spec fn streams_closed(events: Seq<ServerEvent>) -> nat
    decreases events.len(),
{
    if events.len() == 0 {
        0
    } else if events.last() is StreamClosed {
        streams_closed(events.drop_last()) + 1
    } else {
        streams_closed(events.drop_last())
    }
}

impl Server {
    pub open spec fn wf(self) -> bool {
        self.clients.wf()
    }

    /// A server without clients.
    pub fn new() -> (res: Server)
        ensures
            res.wf(),
            res@ == (ServerView {
                clients: Map::<Seq<char>, ClientConnectionData>::empty(),
                streaming: None,
            }),
    {
        Server { clients: Table::new(), streaming_client: None }
    }

    /// Enters the client that was reached at one of the given addresses.
    pub fn connect(&mut self, client_ips: AddressBook, client_ip: IpAddr, sse_socket: u64) -> (res:
        String)
        requires
            old(self).wf(),
            client_ips.wf(),
            client_ips@.contains_key(client_ip),
        ensures
            final(self).wf(),
            res == client_ips@[client_ip],
            final(self)@ == old(self)@.after(
                ServerEvent::Connected { hostname: res@, sse_socket },
            ),
    {
        let mut client_ips = client_ips;
        let client_hostname = match client_ips.remove(&client_ip) {
            Some(hostname) => hostname,
            None => unreached(),
        };
        self.clients.insert(
            client_hostname.clone(),
            ClientConnectionData { sse_socket, capabilities: None },
        );
        client_hostname
    }

    /// Takes out a client whose connection has ended.
    pub fn disconnect(&mut self, hostname: &String)
        requires
            old(self).wf(),
        ensures
            final(self).wf(),
            final(self)@ == old(self)@.after(ServerEvent::Disconnected { hostname: hostname@ }),
    {
        let _ = self.clients.remove(hostname);
    }

    /// Answers one request of a connected client, and says what else is to be done about it.
    pub fn response_loop(
        &mut self,
        hostname: &String,
        message: RequestPacket,
        log_button_presses: bool,
    ) -> (res: (Reply, RequestEffect))
        requires
            old(self).wf(),
            message is ClientCapabilities ==> old(self)@.clients.contains_key(hostname@),
        ensures
            final(self).wf(),
            final(self)@ == old(self)@.after(
                ServerEvent::Request { hostname: hostname@, message },
            ),
            is_reply_to(message, res.0),
            res.1 == effect_of(old(self)@, message, log_button_presses),
    {
        let success = Reply::Packet(ResponsePacket::Success);
        match message {
            RequestPacket::Session => (Reply::Session, RequestEffect::Nothing),
            RequestPacket::ClientCapabilities(client_capabilities) => {
                set_capabilities(&mut self.clients, hostname, client_capabilities);
                (success, RequestEffect::RequestVideoStreaming)
            },
            RequestPacket::ClientStreamSocketReady => {
                if self.streaming_client.is_none() {
                    self.streaming_client = Some(hostname.clone());
                    (success, RequestEffect::StartStreaming)
                } else {
                    (success, RequestEffect::Nothing)
                }
            },
            RequestPacket::PlayspaceSync(area) => {
                let least = F32 { bits: LEAST_PLAYSPACE_BITS };
                (
                    success,
                    RequestEffect::SetChaperone {
                        width: area.x.max(least),
                        height: area.y.max(least),
                    },
                )
            },
            RequestPacket::RequestIdr => (success, RequestEffect::RequestIdr),
            RequestPacket::KeepAlive => (success, RequestEffect::Nothing),
            RequestPacket::ViewsConfig(config) => (success, RequestEffect::SetViewsConfig(config)),
            RequestPacket::Battery(packet) => (success, RequestEffect::SetBattery(packet)),
            RequestPacket::VideoErrorReport => (success, RequestEffect::VideoErrorReport),
            RequestPacket::Button { path_id, value } => (
                success,
                RequestEffect::SetButton { path_id, value, log: log_button_presses },
            ),
            RequestPacket::Custom(_) => (
                Reply::Packet(ResponsePacket::Custom("{}".to_owned())),
                RequestEffect::Nothing,
            ),
            RequestPacket::StoreSession(_)
            | RequestPacket::StoreSettings(_)
            | RequestPacket::RegisterDriver
            | RequestPacket::UnregisterDriver
            | RequestPacket::RegisteredDrivers
            | RequestPacket::AudioDevices
            | RequestPacket::GraphicsDevice
            | RequestPacket::RestartSteamvr
            | RequestPacket::ClientListAction(_)
            | RequestPacket::ServerVersion
            | RequestPacket::ServerOs
            | RequestPacket::UpdateServer { .. }
            | RequestPacket::ActiveInteractionProfile { .. } => (
                Reply::Packet(ResponsePacket::Failure("unimplemented".to_owned())),
                RequestEffect::Nothing,
            ),
        }
    }

    /// Notes that the stream has ended, so that another one can be set up.
    pub fn close_stream(&mut self)
        requires
            old(self).wf(),
        ensures
            final(self).wf(),
            final(self)@ == old(self)@.after(ServerEvent::StreamClosed),
    {
        self.streaming_client = None;
    }
}

/// The name of a button in the log: its path where that is known.
pub open spec fn button_name(path_id: u64, known_path: Option<Seq<char>>) -> Seq<char> {
    match known_path {
        Some(path) => path,
        None => "Unknown (ID: "@ + crate::text::padded(
            "0x"@ + crate::text::digits(path_id as nat, 16),
            BUTTON_ID_WIDTH as nat,
        ) + ")"@,
    }
}

/// The event that reports a button.
pub fn button_event(path_id: u64, known_path: Option<String>, value: ButtonValue) -> (res:
    ButtonEvent)
    ensures
        res.path@ == button_name(path_id, text_of(known_path)),
        res.value == value,
{
    let path = match known_path {
        Some(path) => path,
        None => {
            let id = "0x".to_owned().concat(crate::text::number_text(path_id, 16).as_str());
            let id = crate::text::padded_text(id.as_str(), BUTTON_ID_WIDTH);
            "Unknown (ID: ".to_owned().concat(id.as_str()).concat(")")
        },
    };
    ButtonEvent { path, value }
}

/// The playspace is never smaller than two meters, whatever the client reports.
pub proof fn law_playspace_has_a_least_extent(extent: F32)
    ensures
        !extent.max_spec(F32 { bits: LEAST_PLAYSPACE_BITS }).is_nan_spec(),
        !extent.max_spec(F32 { bits: LEAST_PLAYSPACE_BITS }).lt_spec(
            F32 { bits: LEAST_PLAYSPACE_BITS },
        ),
{
}

/// Streams do not overlap: over any series of events, at most one stream more is set up than is
/// closed, and none more where no stream is set up at the end.
pub proof fn law_streams_do_not_overlap(start: ServerView, events: Seq<ServerEvent>)
    requires
        start.streaming is None,
    ensures
        start.streams_started(events) <= streams_closed(events) + 1,
        start.after_all(events).streaming is None ==> start.streams_started(events)
            <= streams_closed(events),
    decreases events.len(),
{
    if events.len() > 0 {
        law_streams_do_not_overlap(start, events.drop_last());
    }
}

/// While a stream is set up, requests set up no other one, and it stays with its client until it
/// is closed.
pub proof fn law_stream_stays_with_its_client(state: ServerView, event: ServerEvent)
    requires
        state.streaming is Some,
        !(event is StreamClosed),
    ensures
        state.after(event).streaming == state.streaming,
        !state.starts_stream(event),
{
}

/// A client is in the table from its connection until its connection ends, whatever it requests
/// meanwhile and whatever the other clients do.
pub proof fn law_client_stays_until_disconnected(
    state: ServerView,
    hostname: Seq<char>,
    event: ServerEvent,
)
    requires
        state.clients.contains_key(hostname),
        event != (ServerEvent::Disconnected { hostname }),
    ensures
        state.after(event).clients.contains_key(hostname),
{
}

/// Connecting and disconnecting leaves no trace of a client that was not there before.
pub proof fn law_disconnect_undoes_connect(state: ServerView, hostname: Seq<char>, sse_socket: u64)
    requires
        !state.clients.contains_key(hostname),
    ensures
        state.after(ServerEvent::Connected { hostname, sse_socket }).after(
            ServerEvent::Disconnected { hostname },
        ) == state,
{
    let after = state.after(ServerEvent::Connected { hostname, sse_socket }).after(
        ServerEvent::Disconnected { hostname },
    );
    assert(after.clients =~= state.clients);
}

/// The views of a client reach the driver as they were sent: the distance of the eyes, and for each
/// eye its own four angles.
pub proof fn law_each_eye_keeps_its_own_view(
    server: &mut Server,
    hostname: String,
    config: ViewsConfig,
    log_button_presses: bool,
    eye: int,
    res: (Reply, RequestEffect),
)
    requires
        call_ensures(
            Server::response_loop,
            (server, &hostname, RequestPacket::ViewsConfig(config), log_button_presses),
            res,
        ),
        0 <= eye < 2,
    ensures
        res.1 matches RequestEffect::SetViewsConfig(set) && {
            &&& set.ipd_m.bits == config.ipd_m.bits
            &&& set.fov[eye].left.bits == config.fov[eye].left.bits
            &&& set.fov[eye].right.bits == config.fov[eye].right.bits
            &&& set.fov[eye].top.bits == config.fov[eye].top.bits
            &&& set.fov[eye].bottom.bits == config.fov[eye].bottom.bits
        },
{
}

/// The playspace is as wide and as deep as the client reports, each way by its own number, and two
/// meters where that is more or where the report is no number.
pub proof fn law_playspace_is_that_of_the_report(
    server: &mut Server,
    hostname: String,
    area: crate::packets::Vec2,
    log_button_presses: bool,
    res: (Reply, RequestEffect),
)
    requires
        call_ensures(
            Server::response_loop,
            (server, &hostname, RequestPacket::PlayspaceSync(area), log_button_presses),
            res,
        ),
    ensures
        res.1 matches RequestEffect::SetChaperone { width, height } && {
            &&& 0x4000_0000 <= area.x.bits <= 0x7f80_0000 ==> width.bits == area.x.bits
            &&& !(0x4000_0000 <= area.x.bits <= 0x7f80_0000) ==> width.bits == 0x4000_0000
            &&& 0x4000_0000 <= area.y.bits <= 0x7f80_0000 ==> height.bits == area.y.bits
            &&& !(0x4000_0000 <= area.y.bits <= 0x7f80_0000) ==> height.bits == 0x4000_0000
        },
{
}

/// What a client reports of a battery and of a button reaches the driver as it was reported. A button
/// is logged exactly where buttons are to be logged.
pub proof fn law_reports_are_passed_on(
    server: &mut Server,
    hostname: String,
    message: RequestPacket,
    log_button_presses: bool,
    res: (Reply, RequestEffect),
)
    requires
        call_ensures(Server::response_loop, (server, &hostname, message, log_button_presses), res),
    ensures
        message matches RequestPacket::Battery(battery) ==> (res.1 matches RequestEffect::SetBattery(
            set,
        ) && set.device_id == battery.device_id && set.gauge_value.bits == battery.gauge_value.bits
            && set.is_plugged == battery.is_plugged),
        message matches RequestPacket::Button { path_id, value } ==> (res.1
            matches RequestEffect::SetButton { path_id: set, value: pressed, log } && set == path_id
            && pressed == value && log == log_button_presses),
{
}

/// Each request has the one effect that it asks for, and those that ask for none have none. A stream
/// is started only for one who is ready for it while none is set up.
pub proof fn law_each_request_has_its_own_effect(
    server: &mut Server,
    hostname: String,
    message: RequestPacket,
    log_button_presses: bool,
    res: (Reply, RequestEffect),
)
    requires
        call_ensures(Server::response_loop, (server, &hostname, message, log_button_presses), res),
    ensures
        ({
            let effect = res.1;
            &&& effect is RequestVideoStreaming <==> message is ClientCapabilities
            &&& effect is StartStreaming <==> message is ClientStreamSocketReady && old(server)@.streaming
                is None
            &&& effect is SetChaperone <==> message is PlayspaceSync
            &&& effect is RequestIdr <==> message is RequestIdr
            &&& effect is SetViewsConfig <==> message is ViewsConfig
            &&& effect is SetBattery <==> message is Battery
            &&& effect is VideoErrorReport <==> message is VideoErrorReport
            &&& effect is SetButton <==> message is Button
        }),
{
}

/// Each request gets the answer that it is owed. Success is the answer to what the server does, and
/// the refusal is the answer to all that it does not do.
pub proof fn law_each_request_gets_its_answer(
    server: &mut Server,
    hostname: String,
    message: RequestPacket,
    log_button_presses: bool,
    res: (Reply, RequestEffect),
    reply: Reply,
)
    requires
        call_ensures(Server::response_loop, (server, &hostname, message, log_button_presses), res),
        reply == res.0,
    ensures
        reply is Session <==> message is Session,
        reply == Reply::Packet(ResponsePacket::Success) <==> message is ClientCapabilities
            || message is ClientStreamSocketReady || message is PlayspaceSync || message
            is RequestIdr || message is KeepAlive || message is ViewsConfig || message is Battery
            || message is VideoErrorReport || message is Button,
        message is Custom ==> (reply matches Reply::Packet(ResponsePacket::Custom(text)) && text@
            == "{}"@),
        message is StoreSession || message is StoreSettings || message is RegisterDriver || message
            is UnregisterDriver || message is RegisteredDrivers || message is AudioDevices || message
            is GraphicsDevice || message is RestartSteamvr || message is ClientListAction || message
            is ServerVersion || message is ServerOs || message is UpdateServer || message
            is ActiveInteractionProfile ==> (reply matches Reply::Packet(
            ResponsePacket::Failure(text),
        ) && text@ == "unimplemented"@),
{
}

/// The session is answered by its text, and every other answer is sent as it is.
pub proof fn law_answers_are_sent_as_they_are(
    reply: Reply,
    session_json: String,
    res: ResponsePacket,
)
    requires
        call_ensures(Reply::into_packet, (reply, session_json), res),
    ensures
        reply is Session ==> res == ResponsePacket::Session(session_json),
        reply matches Reply::Packet(packet) ==> res == packet,
{
}

/// A request changes nothing but what its own client reports of itself, and whose stream is set up.
/// The sockets of all clients stay, and so does everything about the other clients.
pub proof fn law_requests_change_their_own_client_only(
    server: &mut Server,
    name: String,
    message: RequestPacket,
    log_button_presses: bool,
    res: (Reply, RequestEffect),
    other: Seq<char>,
)
    requires
        call_ensures(Server::response_loop, (server, &name, message, log_button_presses), res),
        old(server)@.clients.contains_key(name@),
        old(server)@.clients.contains_key(other),
    ensures
        ({
            let hostname = name@;
            let state = old(server)@;
            let after = final(server)@;
            &&& after.clients.contains_key(other)
            &&& after.clients[other].sse_socket == state.clients[other].sse_socket
            &&& other != hostname ==> after.clients[other] == state.clients[other]
            &&& message matches RequestPacket::ClientCapabilities(capabilities) ==>
                after.clients[hostname].capabilities == capabilities
            &&& !(message is ClientCapabilities) ==> after.clients == state.clients
            &&& after.streaming != state.streaming ==> message is ClientStreamSocketReady
                && state.streaming is None && after.streaming == Some(hostname)
            &&& message is ClientStreamSocketReady && state.streaming is None ==> after.streaming
                == Some(hostname)
        }),
{
}

/// A client that connects is the one that is known at its address. It is in the table with its own
/// socket, and has reported nothing yet. Nothing else changes, neither for other clients nor for the
/// stream.
pub proof fn law_connecting_enters_the_client_of_the_address(
    server: &mut Server,
    client_ips: AddressBook,
    client_ip: IpAddr,
    sse_socket: u64,
    res: String,
    other: Seq<char>,
)
    requires
        call_ensures(Server::connect, (server, client_ips, client_ip, sse_socket), res),
    ensures
        res == client_ips@[client_ip],
        final(server)@.clients.contains_key(res@),
        final(server)@.clients[res@].sse_socket == sse_socket,
        final(server)@.clients[res@].capabilities is None,
        other != res@ ==> {
            &&& final(server)@.clients.contains_key(other) == old(server)@.clients.contains_key(other)
            &&& old(server)@.clients.contains_key(other) ==> final(server)@.clients[other]
                == old(server)@.clients[other]
        },
        final(server)@.streaming == old(server)@.streaming,
{
}

/// A client that disconnects is out of the table. Nothing else changes, neither for other clients nor
/// for the stream.
pub proof fn law_disconnecting_takes_out_one_client(
    server: &mut Server,
    hostname: String,
    other: Seq<char>,
)
    requires
        call_ensures(Server::disconnect, (server, &hostname), ()),
    ensures
        !final(server)@.clients.contains_key(hostname@),
        other != hostname@ ==> {
            &&& final(server)@.clients.contains_key(other) == old(server)@.clients.contains_key(other)
            &&& old(server)@.clients.contains_key(other) ==> final(server)@.clients[other]
                == old(server)@.clients[other]
        },
        final(server)@.streaming == old(server)@.streaming,
{
}

/// The end of a stream frees the server and changes nothing else. A new server is free and has no
/// clients.
pub proof fn law_server_is_free_without_a_stream(server: &mut Server, fresh: Server, other: Seq<char>)
    requires
        call_ensures(Server::close_stream, (server,), ()),
        call_ensures(Server::new, (), fresh),
    ensures
        final(server)@.streaming is None,
        final(server)@.clients == old(server)@.clients,
        fresh@.streaming is None,
        !fresh@.clients.contains_key(other),
{
}

/// The rounds in which requests are answered: a request is waited for while the program is to go on,
/// and the next round follows each one that came.
pub proof fn law_rounds_wait_for_requests(event: RoundEvent, res: RoundAction)
    requires
        call_ensures(response_round, (event,), res),
    ensures
        event == (RoundEvent::Tick { alive: true }) <==> res is Poll,
        event matches RoundEvent::Polled(Ok(_)) ==> res is Again,
        res is Again ==> (event matches RoundEvent::Polled(Ok(_))),
        event matches RoundEvent::Polled(Err(cause)) ==> res == RoundAction::End(Err(cause)),
        event == (RoundEvent::Tick { alive: false }) ==> res == RoundAction::End(
            Err(InterruptibleError::Interrupted),
        ),
{
}

/// A button is logged by its path where that is known. Otherwise it is logged by its number, in
/// hexadecimal digits that read back as the number, in a field of sixteen characters.
pub proof fn law_unknown_buttons_are_told_by_their_number(
    path_id: u64,
    known_path: Option<String>,
    value: ButtonValue,
    res: ButtonEvent,
)
    requires
        call_ensures(button_event, (path_id, known_path, value), res),
    ensures
        res.value == value,
        known_path matches Some(path) ==> res.path@ == path@,
        known_path is None ==> ({
            let name = res.path@;
            let hex = crate::text::digits(path_id as nat, 16);
            let end = name.len() - 1;
            &&& crate::text::read_number(name.subrange(end - hex.len(), end), 16) == path_id
            &&& name.subrange(end - hex.len() - 2, end - hex.len()) =~= seq!['0', 'x']
            &&& name.take(13) =~= seq![
                'U', 'n', 'k', 'n', 'o', 'w', 'n', ' ', '(', 'I', 'D', ':', ' ',
            ]
            &&& name[end] == ')'
            &&& forall|i: int| 13 <= i < end - hex.len() - 2 ==> #[trigger] name[i] == ' '
            &&& hex.len() <= 14 ==> name.len() == 30
        }),
{
    lemma_unknown_button_name(path_id);
}

#[verifier::spinoff_prover]
proof fn lemma_unknown_button_name(path_id: u64)
    ensures
        ({
            let name = button_name(path_id, None);
            let hex = crate::text::digits(path_id as nat, 16);
            let end = name.len() - 1;
            &&& crate::text::read_number(name.subrange(end - hex.len(), end), 16) == path_id
            &&& name.subrange(end - hex.len() - 2, end - hex.len()) =~= seq!['0', 'x']
            &&& name.take(13) =~= seq![
                'U', 'n', 'k', 'n', 'o', 'w', 'n', ' ', '(', 'I', 'D', ':', ' ',
            ]
            &&& name[end] == ')'
            &&& forall|i: int| 13 <= i < end - hex.len() - 2 ==> #[trigger] name[i] == ' '
            &&& hex.len() <= 14 ==> name.len() == 30
        }),
{
    reveal_strlit("Unknown (ID: ");
    reveal_strlit("0x");
    reveal_strlit(")");
    crate::text::law_digits_read_back(path_id as nat, 16);
    let hex = crate::text::digits(path_id as nat, 16);
    let id = "0x"@ + hex;
    let field = crate::text::padded(id, 16);
    let name = button_name(path_id, None);
    let end = name.len() - 1;
    let from = field.len() - id.len();
    assert(name == "Unknown (ID: "@ + field + ")"@);
    assert(name.len() == 13 + field.len() + 1);
    assert(name.subrange(13, end) =~= field);
    assert(field.skip(from) =~= id);
    assert(name.subrange(end - hex.len(), end) =~= hex) by {
        assert(name.subrange(end - hex.len(), end) =~= field.skip(from + 2));
        assert(field.skip(from + 2) =~= id.skip(2));
        assert(id.skip(2) =~= hex);
    }
    assert(name.take(13) =~= "Unknown (ID: "@);
    assert forall|i: int| 13 <= i < end - hex.len() - 2 implies #[trigger] name[i] == ' ' by {
        assert(name[i] == field[i - 13]);
    }
}

} // verus!
