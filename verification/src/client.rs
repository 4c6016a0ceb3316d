//! How a client finds its server, and what it does while it is connected.

use crate::error::{IntResult, InterruptibleError};
use crate::float32::F32;
use crate::lobby::{
    connection_error_message, INCOMPATIBLE_VERSIONS_MESSAGE, INITIAL_MESSAGE,
    NETWORK_UNREACHABLE_MESSAGE, SERVER_DISCONNECTED_MESSAGE, SERVER_RESTART_MESSAGE,
};
use crate::net::IpAddr;
use crate::packets::{
    RequestPacket, ResponsePacket, SsePacket, StreamConfigPacket, UVec2,
    VideoStreamingCapabilities,
};
use crate::sockets::{RequestSocket, ScanResult, SseSocket};
use vstd::prelude::*;

verus! {

/// How long a client waits between two announcements, in nanoseconds.
pub const DISCOVERY_RETRY_PAUSE: u64 = 500_000_000;

/// How long a client waits where the network cannot be reached, in nanoseconds.
pub const RETRY_CONNECT_MIN_INTERVAL: u64 = 1_000_000_000;

/// How long a client waits after a failed connection, in nanoseconds.
pub const CONNECTION_ERROR_PAUSE: u64 = 500_000_000;

/// Where a client stands between two connections.
#[derive(Clone, Copy, Debug, PartialEq, Eq, Structural)]
pub enum LifecyclePhase {
    /// Nothing has happened yet.
    Boot,
    /// At the top of the loop.
    Start,
    /// A connection is being made or used.
    Connected,
    /// Over.
    Over,
}

/// What a client learns between two connections.
#[derive(Debug, PartialEq)]
pub enum LifecycleEvent {
    /// The client comes up.
    Begin,
    /// Whether the program is to go on.
    Tick { alive: bool },
    /// How the connection ended.
    PipelineEnded(IntResult<()>),
}

/// What a client does between two connections.
#[derive(Debug, PartialEq)]
pub enum LifecycleAction {
    /// Show the first message of the lobby.
    ShowInitial,
    /// Find a server and serve it.
    RunPipeline,
    /// Show what went wrong, and wait for this many nanoseconds.
    ReportError { message: String, pause: u64 },
    /// Go on at the top of the loop.
    Again,
    /// End with this result.
    End(IntResult<()>),
}

/// Whether an event can be the answer to what is being done.
pub open spec fn lifecycle_answers(phase: LifecyclePhase, event: LifecycleEvent) -> bool {
    match phase {
        LifecyclePhase::Boot => event is Begin,
        LifecyclePhase::Start => event is Tick,
        LifecyclePhase::Connected => event is PipelineEnded,
        LifecyclePhase::Over => false,
    }
}

/// How a client goes on between two connections.
pub open spec fn lifecycle_goes_on(
    phase: LifecyclePhase,
    event: LifecycleEvent,
    next: LifecyclePhase,
    action: LifecycleAction,
) -> bool {
    match (phase, event) {
        (LifecyclePhase::Boot, LifecycleEvent::Begin) => next == LifecyclePhase::Start && action
            == LifecycleAction::ShowInitial,
        (LifecyclePhase::Start, LifecycleEvent::Tick { alive: true }) => next
            == LifecyclePhase::Connected && action == LifecycleAction::RunPipeline,
        (LifecyclePhase::Start, LifecycleEvent::Tick { alive: false }) => next
            == LifecyclePhase::Over && action == LifecycleAction::End(
            Err(InterruptibleError::Interrupted),
        ),
        (LifecyclePhase::Connected, LifecycleEvent::PipelineEnded(Ok(_))) => next
            == LifecyclePhase::Start && action == LifecycleAction::Again,
        (
            LifecyclePhase::Connected,
            LifecycleEvent::PipelineEnded(Err(InterruptibleError::Interrupted)),
        ) => next == LifecyclePhase::Over && action == LifecycleAction::End(Ok(())),
        (
            LifecyclePhase::Connected,
            LifecycleEvent::PipelineEnded(Err(InterruptibleError::Other(cause))),
        ) => {
            &&& next == LifecyclePhase::Start
            &&& action matches LifecycleAction::ReportError { message, pause } && message@
                == crate::lobby::connection_error_text(cause@) && pause == CONNECTION_ERROR_PAUSE
        },
        _ => false,
    }
}

/// Goes on between two connections.
pub fn connection_lifecycle_loop(phase: LifecyclePhase, event: LifecycleEvent) -> (res: (
    LifecyclePhase,
    LifecycleAction,
))
    requires
        lifecycle_answers(phase, event),
    ensures
        lifecycle_goes_on(phase, event, res.0, res.1),
{
    match event {
        LifecycleEvent::Begin => (LifecyclePhase::Start, LifecycleAction::ShowInitial),
        LifecycleEvent::Tick { alive } => {
            if alive {
                (LifecyclePhase::Connected, LifecycleAction::RunPipeline)
            } else {
                (
                    LifecyclePhase::Over,
                    LifecycleAction::End(Err(InterruptibleError::Interrupted)),
                )
            }
        },
        LifecycleEvent::PipelineEnded(Ok(_)) => (LifecyclePhase::Start, LifecycleAction::Again),
        LifecycleEvent::PipelineEnded(Err(InterruptibleError::Interrupted)) => {
            (LifecyclePhase::Over, LifecycleAction::End(Ok(())))
        },
        LifecycleEvent::PipelineEnded(Err(InterruptibleError::Other(cause))) => (
            LifecyclePhase::Start,
            LifecycleAction::ReportError {
                message: connection_error_message(cause.as_str()),
                pause: CONNECTION_ERROR_PAUSE,
            },
        ),
    }
}

/// A connection that fails does not end the client: it ends only where it is asked to stop.
pub proof fn law_errors_do_not_end_the_client(
    phase: LifecyclePhase,
    event: LifecycleEvent,
    next: LifecyclePhase,
    action: LifecycleAction,
)
    requires
        lifecycle_goes_on(phase, event, next, action),
    ensures
        next is Over <==> action is End,
        next is Over ==> event == (LifecycleEvent::Tick { alive: false }) || event
            == LifecycleEvent::PipelineEnded(Err(InterruptibleError::Interrupted)),
{
}

/// Where a client stands while it finds a server and serves it.
#[derive(Clone, Copy, Debug, PartialEq, Eq, Structural)]
pub enum PipelinePhase {
    /// About to announce the client.
    Discovery,
    /// Announcing the client.
    Announcing,
    /// Looking for a server that connected.
    Scanning,
    /// Connected, learning how the microphone is sampled.
    Preparing { server_ip: IpAddr },
    /// Telling the server what the headset can show.
    Advertising { server_ip: IpAddr },
    /// Doing what the server asks.
    Serving { server_ip: IpAddr },
    /// Over.
    Over,
}

/// What a client learns while it finds a server and serves it.
#[derive(Debug, PartialEq)]
pub enum PipelineEvent {
    /// Whether the program is to go on.
    Tick { alive: bool },
    /// Whether the announcement could be sent, or why not.
    Announced(Result<(), String>),
    /// What became of a peer that connected, if one did.
    Scanned(IntResult<ScanResult>),
    /// The sample rate of the microphone.
    MicrophoneRate(u32),
    /// How the server answered.
    Answered(IntResult<ResponsePacket>),
    /// What the server sent.
    Received(IntResult<SsePacket>),
}

/// What a client does while it finds a server and serves it.
#[derive(Debug, PartialEq)]
pub enum PipelineAction {
    /// Send the announcement.
    Announce,
    /// Look for a server that connected.
    Scan,
    /// Show a message in the lobby.
    Show(&'static str),
    /// Wait for this many nanoseconds.
    Pause(u64),
    /// Keep the sockets of the connection.
    Connect { request_socket: RequestSocket, sse_socket: SseSocket },
    /// Find out how the microphone is sampled.
    ReadMicrophoneRate,
    /// Send a request to the server.
    Request(RequestPacket),
    /// Wait for the server to send something.
    Receive,
    /// Note whether a stream is wanted, for those who take part in it.
    SetShouldStream(bool),
    /// End the stream, if there is one, and wait until it has ended.
    StopStream,
    /// Start a stream from the server at this address.
    StartStream { server_ip: IpAddr, config: StreamConfigPacket },
    /// End with this result.
    End(IntResult<()>),
}

/// Whether an event can be the answer to what is being done.
pub open spec fn pipeline_answers(phase: PipelinePhase, event: PipelineEvent) -> bool {
    match phase {
        PipelinePhase::Discovery => event is Tick,
        PipelinePhase::Announcing => event is Announced,
        PipelinePhase::Scanning => event is Scanned,
        PipelinePhase::Preparing { .. } => event is MicrophoneRate,
        PipelinePhase::Advertising { .. } => event is Answered,
        PipelinePhase::Serving { .. } => event is Received,
        PipelinePhase::Over => false,
    }
}

/// What a headset can do, as the server is told.
pub open spec fn is_capabilities_request(
    request: RequestPacket,
    default_view_resolution: UVec2,
    supported_refresh_rates: Seq<F32>,
    microphone_sample_rate: u32,
) -> bool {
    request matches RequestPacket::ClientCapabilities(Some(capabilities)) && {
        &&& capabilities.default_view_resolution == default_view_resolution
        &&& capabilities.supported_refresh_rates@ == supported_refresh_rates
        &&& capabilities.microphone_sample_rate == microphone_sample_rate
    }
}

/// How a client goes on with the discovery of a server.
pub open spec fn discovery_goes_on(
    phase: PipelinePhase,
    event: PipelineEvent,
    next: PipelinePhase,
    actions: Seq<PipelineAction>,
) -> bool {
    match (phase, event) {
        (PipelinePhase::Discovery, PipelineEvent::Tick { alive: true }) => {
            &&& next == PipelinePhase::Announcing
            &&& actions =~= seq![PipelineAction::Announce]
        },
        (PipelinePhase::Discovery, PipelineEvent::Tick { alive: false }) => {
            &&& next == PipelinePhase::Over
            &&& actions =~= seq![PipelineAction::End(Err(InterruptibleError::Interrupted))]
        },
        (PipelinePhase::Announcing, PipelineEvent::Announced(Ok(_))) => {
            &&& next == PipelinePhase::Scanning
            &&& actions =~= seq![PipelineAction::Scan]
        },
        (PipelinePhase::Announcing, PipelineEvent::Announced(Err(_))) => {
            &&& next == PipelinePhase::Over
            &&& actions =~= seq![
                PipelineAction::Show(NETWORK_UNREACHABLE_MESSAGE),
                PipelineAction::Pause(RETRY_CONNECT_MIN_INTERVAL),
                PipelineAction::Show(INITIAL_MESSAGE),
                PipelineAction::End(Ok(())),
            ]
        },
        (
            PipelinePhase::Scanning,
            PipelineEvent::Scanned(
                Ok(ScanResult::Connected { server_ip, request_socket, sse_socket }),
            ),
        ) => {
            &&& next == (PipelinePhase::Preparing { server_ip })
            &&& actions =~= seq![
                PipelineAction::Connect { request_socket, sse_socket },
                PipelineAction::ReadMicrophoneRate,
            ]
        },
        (PipelinePhase::Scanning, PipelineEvent::Scanned(Ok(ScanResult::MismatchedVersion))) => {
            &&& next == PipelinePhase::Discovery
            &&& actions =~= seq![
                PipelineAction::Show(INCOMPATIBLE_VERSIONS_MESSAGE),
                PipelineAction::Pause(DISCOVERY_RETRY_PAUSE),
            ]
        },
        (PipelinePhase::Scanning, PipelineEvent::Scanned(_)) => {
            &&& next == PipelinePhase::Discovery
            &&& actions =~= seq![PipelineAction::Pause(DISCOVERY_RETRY_PAUSE)]
        },
        _ => false,
    }
}

/// What a client does about something that the server sent. A stream that runs is ended before
/// another one is started, and where the connection ends.
pub open spec fn serving_actions(server_ip: IpAddr, packet: SsePacket) -> Seq<PipelineAction> {
    match packet {
        SsePacket::StartStreaming(config) => seq![
            PipelineAction::SetShouldStream(false),
            PipelineAction::StopStream,
            PipelineAction::SetShouldStream(true),
            PipelineAction::StartStream { server_ip, config },
            PipelineAction::Receive,
        ],
        SsePacket::StopStreaming => seq![
            PipelineAction::SetShouldStream(false),
            PipelineAction::StopStream,
            PipelineAction::Receive,
        ],
        SsePacket::ServerRestarting => seq![
            PipelineAction::Show(SERVER_RESTART_MESSAGE),
            PipelineAction::StopStream,
            PipelineAction::End(Ok(())),
        ],
        SsePacket::ServerDisconnecting => seq![
            PipelineAction::Show(SERVER_DISCONNECTED_MESSAGE),
            PipelineAction::StopStream,
            PipelineAction::End(Ok(())),
        ],
        _ => seq![PipelineAction::Receive],
    }
}

/// Whether the server ends the connection by what it sent.
pub open spec fn ends_connection(packet: SsePacket) -> bool {
    packet is ServerRestarting || packet is ServerDisconnecting
}

/// How a client goes on with something that the server sent.
pub open spec fn serving_goes_on(
    server_ip: IpAddr,
    packet: SsePacket,
    next: PipelinePhase,
    actions: Seq<PipelineAction>,
) -> bool {
    &&& next == if ends_connection(packet) {
        PipelinePhase::Over
    } else {
        PipelinePhase::Serving { server_ip }
    }
    &&& actions =~= serving_actions(server_ip, packet)
}

/// How a client goes on while it finds a server and serves it.
pub open spec fn pipeline_goes_on(
    phase: PipelinePhase,
    event: PipelineEvent,
    default_view_resolution: UVec2,
    supported_refresh_rates: Seq<F32>,
    next: PipelinePhase,
    actions: Seq<PipelineAction>,
) -> bool {
    match (phase, event) {
        (PipelinePhase::Preparing { server_ip }, PipelineEvent::MicrophoneRate(rate)) => {
            &&& next == (PipelinePhase::Advertising { server_ip })
            &&& actions.len() == 1
            &&& actions[0] matches PipelineAction::Request(request) && is_capabilities_request(
                request,
                default_view_resolution,
                supported_refresh_rates,
                rate,
            )
        },
        (PipelinePhase::Advertising { server_ip }, PipelineEvent::Answered(Ok(_))) => {
            &&& next == (PipelinePhase::Serving { server_ip })
            &&& actions =~= seq![PipelineAction::Receive]
        },
        (PipelinePhase::Advertising { .. }, PipelineEvent::Answered(Err(cause))) => {
            &&& next == PipelinePhase::Over
            &&& actions =~= seq![PipelineAction::End(Err(cause))]
        },
        (PipelinePhase::Serving { server_ip }, PipelineEvent::Received(Ok(packet))) => {
            serving_goes_on(server_ip, packet, next, actions)
        },
        (PipelinePhase::Serving { .. }, PipelineEvent::Received(Err(cause))) => {
            &&& next == PipelinePhase::Over
            &&& actions =~= seq![PipelineAction::StopStream, PipelineAction::End(Err(cause))]
        },
        _ => discovery_goes_on(phase, event, next, actions),
    }
}

fn copy_rates(rates: &Vec<F32>) -> (res: Vec<F32>)
    ensures
        res@ == rates@,
{
    let mut res: Vec<F32> = Vec::new();
    let mut i: usize = 0;
    while i < rates.len()
        invariant
            i <= rates.len(),
            res@ == rates@.take(i as int),
        decreases rates.len() - i,
    {
        res.push(rates[i]);
        assert(rates@.take(i + 1) =~= rates@.take(i as int).push(rates[i as int]));
        i = i + 1;
    }
    assert(rates@.take(i as int) =~= rates@);
    res
}

fn after_scan(scanned: IntResult<ScanResult>) -> (res: (PipelinePhase, Vec<PipelineAction>))
    ensures
        discovery_goes_on(
            PipelinePhase::Scanning,
            PipelineEvent::Scanned(scanned),
            res.0,
            res.1@,
        ),
{
    let mut actions: Vec<PipelineAction> = Vec::new();
    match scanned {
        Ok(ScanResult::Connected { server_ip, request_socket, sse_socket }) => {
            actions.push(PipelineAction::Connect { request_socket, sse_socket });
            actions.push(PipelineAction::ReadMicrophoneRate);
            (PipelinePhase::Preparing { server_ip }, actions)
        },
        Ok(ScanResult::MismatchedVersion) => {
            actions.push(PipelineAction::Show(INCOMPATIBLE_VERSIONS_MESSAGE));
            actions.push(PipelineAction::Pause(DISCOVERY_RETRY_PAUSE));
            (PipelinePhase::Discovery, actions)
        },
        _ => {
            actions.push(PipelineAction::Pause(DISCOVERY_RETRY_PAUSE));
            (PipelinePhase::Discovery, actions)
        },
    }
}

fn after_packet(server_ip: IpAddr, packet: SsePacket) -> (res: (
    PipelinePhase,
    Vec<PipelineAction>,
))
    ensures
        serving_goes_on(server_ip, packet, res.0, res.1@),
{
    let mut actions: Vec<PipelineAction> = Vec::new();
    match packet {
        SsePacket::StartStreaming(config) => {
            actions.push(PipelineAction::SetShouldStream(false));
            actions.push(PipelineAction::StopStream);
            actions.push(PipelineAction::SetShouldStream(true));
            actions.push(PipelineAction::StartStream { server_ip, config });
            actions.push(PipelineAction::Receive);
            (PipelinePhase::Serving { server_ip }, actions)
        },
        SsePacket::StopStreaming => {
            actions.push(PipelineAction::SetShouldStream(false));
            actions.push(PipelineAction::StopStream);
            actions.push(PipelineAction::Receive);
            (PipelinePhase::Serving { server_ip }, actions)
        },
        SsePacket::ServerRestarting => {
            actions.push(PipelineAction::Show(SERVER_RESTART_MESSAGE));
            actions.push(PipelineAction::StopStream);
            actions.push(PipelineAction::End(Ok(())));
            (PipelinePhase::Over, actions)
        },
        SsePacket::ServerDisconnecting => {
            actions.push(PipelineAction::Show(SERVER_DISCONNECTED_MESSAGE));
            actions.push(PipelineAction::StopStream);
            actions.push(PipelineAction::End(Ok(())));
            (PipelinePhase::Over, actions)
        },
        _ => {
            actions.push(PipelineAction::Receive);
            (PipelinePhase::Serving { server_ip }, actions)
        },
    }
}

/// Goes on while a client finds a server and serves it. The actions are taken in their order.
pub fn connection_pipeline(
    phase: PipelinePhase,
    event: PipelineEvent,
    default_view_resolution: UVec2,
    supported_refresh_rates: &Vec<F32>,
) -> (res: (PipelinePhase, Vec<PipelineAction>))
    requires
        pipeline_answers(phase, event),
    ensures
        pipeline_goes_on(
            phase,
            event,
            default_view_resolution,
            supported_refresh_rates@,
            res.0,
            res.1@,
        ),
{
    let mut actions: Vec<PipelineAction> = Vec::new();
    match event {
        PipelineEvent::Tick { alive } => {
            if alive {
                actions.push(PipelineAction::Announce);
                (PipelinePhase::Announcing, actions)
            } else {
                actions.push(PipelineAction::End(Err(InterruptibleError::Interrupted)));
                (PipelinePhase::Over, actions)
            }
        },
        PipelineEvent::Announced(Ok(_)) => {
            actions.push(PipelineAction::Scan);
            (PipelinePhase::Scanning, actions)
        },
        PipelineEvent::Announced(Err(_)) => {
            actions.push(PipelineAction::Show(NETWORK_UNREACHABLE_MESSAGE));
            actions.push(PipelineAction::Pause(RETRY_CONNECT_MIN_INTERVAL));
            actions.push(PipelineAction::Show(INITIAL_MESSAGE));
            actions.push(PipelineAction::End(Ok(())));
            (PipelinePhase::Over, actions)
        },
        PipelineEvent::Scanned(scanned) => after_scan(scanned),
        PipelineEvent::MicrophoneRate(microphone_sample_rate) => {
            let server_ip = match phase {
                PipelinePhase::Preparing { server_ip } => server_ip,
                _ => unreached(),
            };
            actions.push(
                PipelineAction::Request(
                    RequestPacket::ClientCapabilities(
                        Some(
                            VideoStreamingCapabilities {
                                default_view_resolution,
                                supported_refresh_rates: copy_rates(supported_refresh_rates),
                                microphone_sample_rate,
                            },
                        ),
                    ),
                ),
            );
            (PipelinePhase::Advertising { server_ip }, actions)
        },
        PipelineEvent::Answered(Ok(_)) => {
            let server_ip = match phase {
                PipelinePhase::Advertising { server_ip } => server_ip,
                _ => unreached(),
            };
            actions.push(PipelineAction::Receive);
            (PipelinePhase::Serving { server_ip }, actions)
        },
        PipelineEvent::Answered(Err(cause)) => {
            actions.push(PipelineAction::End(Err(cause)));
            (PipelinePhase::Over, actions)
        },
        PipelineEvent::Received(Ok(packet)) => {
            let server_ip = match phase {
                PipelinePhase::Serving { server_ip } => server_ip,
                _ => unreached(),
            };
            after_packet(server_ip, packet)
        },
        PipelineEvent::Received(Err(cause)) => {
            actions.push(PipelineAction::StopStream);
            actions.push(PipelineAction::End(Err(cause)));
            (PipelinePhase::Over, actions)
        },
    }
}

/// What is done when a stream has ended by itself.
pub fn stream_ended() -> (res: PipelineAction)
    ensures
        res == PipelineAction::SetShouldStream(false),
{
    PipelineAction::SetShouldStream(false)
}

/// The streams that a client runs, each with its server and its configuration, and whether one is
/// wanted.
#[verifier::ext_equal]
pub ghost struct StreamingView {
    pub running: Seq<(IpAddr, StreamConfigPacket)>,
    pub should_stream: bool,
}

/// What happens to the streams of a client while it serves a server.
pub ghost enum ServingEvent {
    /// The server sent something.
    Received(SsePacket),
    /// The stream ended by itself.
    StreamEnded,
}

impl StreamingView {
    /// The state after an action.
    pub open spec fn after(self, action: PipelineAction) -> StreamingView {
        match action {
            PipelineAction::SetShouldStream(value) => StreamingView {
                running: self.running,
                should_stream: value,
            },
            PipelineAction::StopStream => StreamingView {
                running: Seq::empty(),
                should_stream: self.should_stream,
            },
            PipelineAction::StartStream { server_ip, config } => StreamingView {
                running: self.running.push((server_ip, config)),
                should_stream: self.should_stream,
            },
            _ => self,
        }
    }

    /// The state after a series of actions.
    pub open spec fn after_all(self, actions: Seq<PipelineAction>) -> StreamingView
        decreases actions.len(),
    {
        if actions.len() == 0 {
            self
        } else {
            self.after_all(actions.drop_last()).after(actions.last())
        }
    }

    /// The state after something that happened while a server is served.
    pub open spec fn served(self, server_ip: IpAddr, event: ServingEvent) -> StreamingView {
        match event {
            ServingEvent::Received(packet) => self.after_all(serving_actions(server_ip, packet)),
            ServingEvent::StreamEnded => StreamingView {
                running: Seq::empty(),
                should_stream: self.should_stream,
            }.after(PipelineAction::SetShouldStream(false)),
        }
    }

    /// The state after a series of what happened while a server is served.
    pub open spec fn served_all(
        self,
        server_ip: IpAddr,
        events: Seq<ServingEvent>,
    ) -> StreamingView
        decreases events.len(),
    {
        if events.len() == 0 {
            self
        } else {
            self.served_all(server_ip, events.drop_last()).served(server_ip, events.last())
        }
    }
}

proof fn lemma_action_by_action(state: StreamingView, actions: Seq<PipelineAction>, k: int)
    requires
        0 <= k < actions.len(),
    ensures
        state.after_all(actions.take(k + 1)) == state.after_all(actions.take(k)).after(actions[k]),
{
    assert(actions.take(k + 1).drop_last() =~= actions.take(k));
}

/// A client runs at most one stream at any time, also between two actions: a stream is ended
/// before another one is started.
pub proof fn law_client_streams_do_not_overlap(
    phase: PipelinePhase,
    event: PipelineEvent,
    default_view_resolution: UVec2,
    supported_refresh_rates: Seq<F32>,
    next: PipelinePhase,
    actions: Seq<PipelineAction>,
    state: StreamingView,
    k: int,
)
    requires
        state.running.len() <= 1,
        pipeline_goes_on(
            phase,
            event,
            default_view_resolution,
            supported_refresh_rates,
            next,
            actions,
        ),
        0 <= k <= actions.len(),
    ensures
        state.after_all(actions.take(k)).running.len() <= 1,
{
    assert(actions.len() <= 5);
    assert(forall|i: int| 0 <= i < actions.len() && (#[trigger] actions[i]) is StartStream ==> i
        == 3 && actions.len() == 5 && actions[1] == PipelineAction::StopStream && actions[2]
        == PipelineAction::SetShouldStream(true));
    lemma_steps(state, actions, k);
}

proof fn lemma_steps(state: StreamingView, actions: Seq<PipelineAction>, k: int)
    requires
        state.running.len() <= 1,
        0 <= k <= actions.len() <= 5,
        forall|i: int|
            0 <= i < actions.len() && (#[trigger] actions[i]) is StartStream ==> i == 3
                && actions[1] == PipelineAction::StopStream && actions[2]
                == PipelineAction::SetShouldStream(true),
    ensures
        state.after_all(actions.take(k)).running.len() <= 1,
    decreases k,
{
    if k > 0 {
        lemma_steps(state, actions, k - 1);
        lemma_action_by_action(state, actions, k - 1);
        if actions[k - 1] is StartStream {
            lemma_action_by_action(state, actions, 1);
            lemma_action_by_action(state, actions, 2);
        }
    }
}

/// The streams follow the server. A request to start leaves exactly the stream that was asked for,
/// and it is wanted. A request to stop leaves none, whether one ran or not, and none is wanted. Where
/// the server ends the connection no stream runs any more. Everything else changes nothing.
pub proof fn law_streams_follow_the_server(
    state: StreamingView,
    server_ip: IpAddr,
    packet: SsePacket,
)
    ensures
        state.served(server_ip, ServingEvent::Received(packet)) == match packet {
            SsePacket::StartStreaming(config) => StreamingView {
                running: seq![(server_ip, config)],
                should_stream: true,
            },
            SsePacket::StopStreaming => StreamingView {
                running: Seq::empty(),
                should_stream: false,
            },
            _ => if ends_connection(packet) {
                StreamingView { running: Seq::empty(), should_stream: state.should_stream }
            } else {
                state
            },
        },
{
    let actions = serving_actions(server_ip, packet);
    assert(actions.len() <= 5);
    assert(actions.take(0) =~= Seq::empty());
    assert(actions.take(actions.len() as int) =~= actions);
    lemma_action_by_action(state, actions, 0);
    if actions.len() > 1 {
        lemma_action_by_action(state, actions, 1);
        lemma_action_by_action(state, actions, 2);
    }
    if actions.len() > 3 {
        lemma_action_by_action(state, actions, 3);
        lemma_action_by_action(state, actions, 4);
        assert(Seq::<(IpAddr, StreamConfigPacket)>::empty().push(
            (server_ip, packet->StartStreaming_0),
        ) =~= seq![(server_ip, packet->StartStreaming_0)]);
    }
}

/// Whatever a server sends and however streams end, at most one stream is alive, it is one of that
/// server, and it is wanted. After a stream has ended by itself none is wanted.
pub proof fn law_at_most_one_stream_is_alive(
    start: StreamingView,
    server_ip: IpAddr,
    events: Seq<ServingEvent>,
)
    requires
        start.running.len() == 0,
    ensures
        start.served_all(server_ip, events).running.len() <= 1,
        start.served_all(server_ip, events).running.len() == 1 ==> {
            &&& start.served_all(server_ip, events).running[0].0 == server_ip
            &&& start.served_all(server_ip, events).should_stream
        },
        events.len() > 0 && events.last() is StreamEnded ==> {
            &&& start.served_all(server_ip, events).running.len() == 0
            &&& !start.served_all(server_ip, events).should_stream
        },
    decreases events.len(),
{
    if events.len() > 0 {
        law_at_most_one_stream_is_alive(start, server_ip, events.drop_last());
        match events.last() {
            ServingEvent::Received(packet) => law_streams_follow_the_server(
                start.served_all(server_ip, events.drop_last()),
                server_ip,
                packet,
            ),
            ServingEvent::StreamEnded => {},
        }
    }
}

/// A client talks to a peer only after it accepted it: it leaves the discovery for a server only
/// where the scan says that a server of the same protocol connected.
pub proof fn law_only_accepted_servers_are_served(
    phase: PipelinePhase,
    event: PipelineEvent,
    default_view_resolution: UVec2,
    supported_refresh_rates: Seq<F32>,
    next: PipelinePhase,
    actions: Seq<PipelineAction>,
)
    requires
        pipeline_goes_on(
            phase,
            event,
            default_view_resolution,
            supported_refresh_rates,
            next,
            actions,
        ),
        phase is Discovery || phase is Announcing || phase is Scanning,
        next is Preparing || next is Advertising || next is Serving,
    ensures
        phase is Scanning,
        next is Preparing,
        event matches PipelineEvent::Scanned(Ok(ScanResult::Connected { server_ip, .. }))
            && next == (PipelinePhase::Preparing { server_ip }),
{
}

/// A client stays with the server it accepted until the connection is over.
pub proof fn law_client_stays_with_its_server(
    phase: PipelinePhase,
    event: PipelineEvent,
    default_view_resolution: UVec2,
    supported_refresh_rates: Seq<F32>,
    next: PipelinePhase,
    actions: Seq<PipelineAction>,
    server_ip: IpAddr,
)
    requires
        pipeline_goes_on(
            phase,
            event,
            default_view_resolution,
            supported_refresh_rates,
            next,
            actions,
        ),
        phase == (PipelinePhase::Preparing { server_ip }) || phase == (PipelinePhase::Advertising {
            server_ip,
        }) || phase == (PipelinePhase::Serving { server_ip }),
    ensures
        next == (PipelinePhase::Advertising { server_ip }) || next == (PipelinePhase::Serving {
            server_ip,
        }) || next == PipelinePhase::Over,
        forall|k: int|
            0 <= k < actions.len() && (#[trigger] actions[k]) is StartStream ==> actions[k]->server_ip
                == server_ip,
{
}

/// Every failed search for a server is followed by a pause.
pub proof fn law_discovery_pauses_between_trials(
    phase: PipelinePhase,
    event: PipelineEvent,
    default_view_resolution: UVec2,
    supported_refresh_rates: Seq<F32>,
    next: PipelinePhase,
    actions: Seq<PipelineAction>,
)
    requires
        pipeline_goes_on(
            phase,
            event,
            default_view_resolution,
            supported_refresh_rates,
            next,
            actions,
        ),
        next is Discovery,
    ensures
        actions.len() > 0,
        actions.last() == PipelineAction::Pause(DISCOVERY_RETRY_PAUSE),
{
}

/// The connection is over exactly where its last action is to end.
pub proof fn law_pipeline_ends_once(
    phase: PipelinePhase,
    event: PipelineEvent,
    default_view_resolution: UVec2,
    supported_refresh_rates: Seq<F32>,
    next: PipelinePhase,
    actions: Seq<PipelineAction>,
)
    requires
        pipeline_goes_on(
            phase,
            event,
            default_view_resolution,
            supported_refresh_rates,
            next,
            actions,
        ),
    ensures
        !(phase is Over),
        actions.len() > 0,
        next is Over <==> actions.last() is End,
        forall|k: int| 0 <= k < actions.len() - 1 ==> !((#[trigger] actions[k]) is End),
{
}

/// The client shows its first message when it comes up, runs a connection in each round, goes on at
/// once after one that ended well, and after one that failed shows why and waits for half a second.
pub proof fn law_rounds_of_the_client(
    phase: LifecyclePhase,
    event: LifecycleEvent,
    next: LifecyclePhase,
    action: LifecycleAction,
)
    requires
        call_ensures(connection_lifecycle_loop, (phase, event), (next, action)),
    ensures
        event is Begin <==> action is ShowInitial,
        event == (LifecycleEvent::Tick { alive: true }) <==> action is RunPipeline,
        action is RunPipeline <==> next is Connected,
        event == (LifecycleEvent::Tick { alive: false }) ==> action == LifecycleAction::End(
            Err(InterruptibleError::Interrupted),
        ),
        event matches LifecycleEvent::PipelineEnded(result) ==> {
            &&& result is Ok <==> action is Again
            &&& result == IntResult::<()>::Err(InterruptibleError::Interrupted) ==> action
                == LifecycleAction::End(Ok(()))
            &&& result matches Err(InterruptibleError::Other(cause)) ==> (action
                matches LifecycleAction::ReportError { message, pause } && pause == 500_000_000
                && message@.subrange(18, 18 + cause@.len() as int) =~= cause@ && next is Start)
        },
        action is ShowInitial || action is Again || action is ReportError ==> next is Start,
{
    if let LifecycleEvent::PipelineEnded(Err(InterruptibleError::Other(cause))) = event {
        crate::lobby::law_error_report_holds_its_cause(cause@);
    }
}

/// A client that was accepted by nobody goes on looking: it announces itself in each round, looks for
/// a server after that, and where the announcement cannot be sent says so for a second and gives the
/// connection up without an error.
pub proof fn law_rounds_of_the_discovery(
    phase: PipelinePhase,
    event: PipelineEvent,
    default_view_resolution: UVec2,
    rates: Vec<F32>,
    res: (PipelinePhase, Vec<PipelineAction>),
    next: PipelinePhase,
    actions: Seq<PipelineAction>,
)
    requires
        call_ensures(
            connection_pipeline,
            (phase, event, default_view_resolution, &rates),
            res,
        ),
        next == res.0,
        actions == res.1@,
    ensures
        event == (PipelineEvent::Tick { alive: true }) ==> next is Announcing && actions =~= seq![
            PipelineAction::Announce,
        ],
        event == (PipelineEvent::Tick { alive: false }) ==> next is Over && actions =~= seq![
            PipelineAction::End(Err(InterruptibleError::Interrupted)),
        ],
        event matches PipelineEvent::Announced(Ok(_)) ==> next is Scanning && actions =~= seq![
            PipelineAction::Scan,
        ],
        event matches PipelineEvent::Announced(Err(_)) ==> {
            &&& next is Over
            &&& actions.len() == 4
            &&& actions[0] matches PipelineAction::Show(message) && message@
                == "Cannot connect to the internet"@
            &&& actions[1] == PipelineAction::Pause(1_000_000_000)
            &&& actions[2] == PipelineAction::Show(INITIAL_MESSAGE)
            &&& actions[3] == PipelineAction::End(Ok(()))
        },
        event matches PipelineEvent::Scanned(Ok(ScanResult::MismatchedVersion)) ==> {
            &&& next is Discovery
            &&& actions.len() == 2
            &&& actions[0] == PipelineAction::Show(INCOMPATIBLE_VERSIONS_MESSAGE)
            &&& actions[1] == PipelineAction::Pause(500_000_000)
        },
        event matches PipelineEvent::Scanned(Ok(ScanResult::UnrelatedPeer)) ==> next is Discovery
            && actions =~= seq![PipelineAction::Pause(500_000_000)],
        event matches PipelineEvent::Scanned(Err(_)) ==> next is Discovery && actions =~= seq![
            PipelineAction::Pause(500_000_000),
        ],
        event matches PipelineEvent::Scanned(
            Ok(ScanResult::Connected { server_ip, request_socket, sse_socket }),
        ) ==> {
            &&& next == (PipelinePhase::Preparing { server_ip })
            &&& actions =~= seq![
                PipelineAction::Connect { request_socket, sse_socket },
                PipelineAction::ReadMicrophoneRate,
            ]
        },
{
}

/// The server is told what the headset can do: the resolution and the refresh rates that it was
/// started with, and the rate of the microphone that was read. Only after the server has answered
/// does the client serve it. An answer that fails ends the connection by its cause.
pub proof fn law_server_is_told_what_the_headset_can_do(
    phase: PipelinePhase,
    event: PipelineEvent,
    default_view_resolution: UVec2,
    rates: Vec<F32>,
    res: (PipelinePhase, Vec<PipelineAction>),
    next: PipelinePhase,
    actions: Seq<PipelineAction>,
)
    requires
        call_ensures(
            connection_pipeline,
            (phase, event, default_view_resolution, &rates),
            res,
        ),
        next == res.0,
        actions == res.1@,
    ensures
        event matches PipelineEvent::MicrophoneRate(rate) ==> {
            &&& next is Advertising
            &&& actions.len() == 1
            &&& actions[0] matches PipelineAction::Request(
                RequestPacket::ClientCapabilities(Some(capabilities)),
            ) && {
                &&& capabilities.default_view_resolution.x == default_view_resolution.x
                &&& capabilities.default_view_resolution.y == default_view_resolution.y
                &&& capabilities.supported_refresh_rates@ =~= rates@
                &&& capabilities.microphone_sample_rate == rate
            }
        },
        event matches PipelineEvent::Answered(Ok(_)) ==> next is Serving && actions =~= seq![
            PipelineAction::Receive,
        ],
        event matches PipelineEvent::Answered(Err(cause)) ==> next is Over && actions =~= seq![
            PipelineAction::End(Err(cause)),
        ],
        event matches PipelineEvent::Received(Err(cause)) ==> next is Over && actions =~= seq![
            PipelineAction::StopStream,
            PipelineAction::End(Err(cause)),
        ],
{
}

/// A client tells its user that the server restarts or leaves, ends the stream and the connection,
/// without an error, and waits for what the server sends next otherwise.
pub proof fn law_server_may_leave(
    server_ip: IpAddr,
    packet: SsePacket,
    default_view_resolution: UVec2,
    rates: Vec<F32>,
    res: (PipelinePhase, Vec<PipelineAction>),
)
    requires
        call_ensures(
            connection_pipeline,
            (
                PipelinePhase::Serving { server_ip },
                PipelineEvent::Received(Ok(packet)),
                default_view_resolution,
                &rates,
            ),
            res,
        ),
    ensures
        ({
            let actions = res.1@;
            let leaves = packet is ServerRestarting || packet is ServerDisconnecting;
            &&& leaves <==> res.0 is Over
            &&& !leaves ==> res.0 == (PipelinePhase::Serving { server_ip })
            &&& packet is ServerRestarting ==> (actions[0] matches PipelineAction::Show(message)
                && message@ == "The server is restarting\nPlease wait..."@)
            &&& packet is ServerDisconnecting ==> (actions[0] matches PipelineAction::Show(message)
                && message@ == "The server has disconnected."@)
            &&& leaves ==> actions.len() == 3 && actions[1] == PipelineAction::StopStream
                && actions[2] == PipelineAction::End(Ok(()))
            &&& !leaves ==> actions.last() == PipelineAction::Receive
            &&& !leaves && !(packet is StartStreaming) && !(packet is StopStreaming) ==>
                actions.len() == 1
        }),
{
}

/// A stream that the server starts is started after the last one was ended, from the server that the
/// client is connected to and by the configuration that it sent. A stream that the server stops is
/// ended. Whether a stream is wanted is noted before it ends and before it starts.
pub proof fn law_server_starts_and_stops_streams(
    server_ip: IpAddr,
    packet: SsePacket,
    default_view_resolution: UVec2,
    rates: Vec<F32>,
    res: (PipelinePhase, Vec<PipelineAction>),
)
    requires
        call_ensures(
            connection_pipeline,
            (
                PipelinePhase::Serving { server_ip },
                PipelineEvent::Received(Ok(packet)),
                default_view_resolution,
                &rates,
            ),
            res,
        ),
    ensures
        packet is StartStreaming || packet is StopStreaming ==> {
            &&& res.1@[0] == PipelineAction::SetShouldStream(false)
            &&& res.1@[1] == PipelineAction::StopStream
        },
        packet matches SsePacket::StartStreaming(config) ==> {
            &&& res.1@.len() == 5
            &&& res.1@[2] == PipelineAction::SetShouldStream(true)
            &&& res.1@[3] matches PipelineAction::StartStream { server_ip: from, config: by } && from
                == server_ip && by.view_resolution.x == config.view_resolution.x
                && by.view_resolution.y == config.view_resolution.y && by.fps.bits
                == config.fps.bits && by.game_audio_sample_rate == config.game_audio_sample_rate
        },
        packet is StopStreaming ==> res.1@.len() == 3,
{
}

/// Once a stream has ended by itself none is wanted.
pub proof fn law_ended_stream_is_not_wanted(res: PipelineAction)
    requires
        call_ensures(stream_ended, (), res),
    ensures
        res matches PipelineAction::SetShouldStream(wanted) && !wanted,
{
}

} // verus!
