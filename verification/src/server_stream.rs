//! How the server sets up a stream and takes part in it.

use crate::clients::ClientTable;
use crate::float32::F32;
use crate::net::IpAddr;
use crate::packets::{DeviceMotion, Quat, Tracking, Vec3};
use crate::session::{
    prediction_multiplier, AudioBufferingConfig, AudioDeviceId, LinuxAudioBackend, Settings,
    SocketProtocol, Switch,
};
use crate::time::Duration;
use crate::video_request::copy_device_id;
use vstd::prelude::*;

verus! {

/// How long the server waits for a client to take up a stream, in nanoseconds.
pub const STREAM_SETUP_TIMEOUT: u64 = 5_000_000_000;

/// What is said where a stream was not set up in time.
pub const SETUP_TIMEOUT_MESSAGE: &'static str = "Timeout while setting up streams";

/// What is said where the microphone is to be played and nobody knows how it is sampled.
pub const UNKNOWN_RATE_MESSAGE: &'static str = "The sample rate of the microphone is not known";

/// What a script is told when a stream begins.
pub const CONNECT_ACTION: &'static str = "connect";

/// What a script is told when a stream has ended.
pub const DISCONNECT_ACTION: &'static str = "disconnect";

/// The bytes in the given number of binary megabits, modulo 2 to the power 32.
pub open spec fn bytes_of_mbits(value: u64) -> int {
    (value * 1024 * 1024 / 8) % 0x1_0000_0000
}

/// The size of the send buffer that holds the given number of binary megabits, in bytes. Only the
/// lower 32 bits are kept.
pub fn mbits_to_bytes(value: u64) -> (res: u32)
    ensures
        res == bytes_of_mbits(value),
{
    let low: u64 = value % 0x8000;
    assert((value * 1024 * 1024 / 8) % 0x1_0000_0000 == (low * 131072) % 0x1_0000_0000) by {
        assert(value * 1024 * 1024 / 8 == value * 131072);
        assert(value == (value / 0x8000) * 0x8000 + low);
        assert(value * 131072 == (value / 0x8000) * 0x1_0000_0000 + low * 131072);
        vstd::arithmetic::div_mod::lemma_mod_multiples_vanish(
            (value / 0x8000) as int,
            low * 131072,
            0x1_0000_0000,
        );
    }
    ((low * 131072) % 0x1_0000_0000) as u32
}

/// The game audio that the server records.
#[derive(Debug, PartialEq)]
pub struct GameAudioCapture {
    pub backend: LinuxAudioBackend,
    pub device_id: AudioDeviceId,
    pub channels: u16,
    pub mute_when_streaming: bool,
}

/// The microphone of a client that the server plays.
#[derive(Debug, PartialEq)]
pub struct MicrophonePlayback {
    pub backend: LinuxAudioBackend,
    pub input_device_id: AudioDeviceId,
    pub output_device_id: AudioDeviceId,
    pub channels: u16,
    pub buffering: AudioBufferingConfig,
}

/// The audio of a stream.
#[derive(Debug, PartialEq)]
pub struct AudioPlan {
    pub game_audio: Option<GameAudioCapture>,
    pub microphone: Option<MicrophonePlayback>,
}

/// What the tasks of a stream need besides the audio devices. Video and haptics are always sent,
/// tracking and statistics are always received.
#[derive(Clone, Copy, Debug, PartialEq)]
pub struct TaskPlan {
    /// How the microphone is sampled, where it is played.
    pub microphone_rate: Option<u32>,
    pub controller_prediction_multiplier: F32,
}

/// How a connected client that can show video samples its microphone.
pub open spec fn microphone_rate_of(
    clients: Map<Seq<char>, crate::clients::ClientConnectionData>,
    hostname: Seq<char>,
) -> Option<u32> {
    if clients.contains_key(hostname) {
        match clients[hostname].capabilities {
            Some(capabilities) => Some(capabilities.microphone_sample_rate),
            None => None,
        }
    } else {
        None
    }
}

/// How a connected client that can show video samples its microphone.
pub fn microphone_sample_rate(clients: &ClientTable, hostname: &String) -> (res: Option<u32>)
    requires
        clients.wf(),
    ensures
        res == microphone_rate_of(clients@, hostname@),
{
    match clients.get(hostname) {
        Some(data) => match &data.capabilities {
            Some(capabilities) => Some(capabilities.microphone_sample_rate),
            None => None,
        },
        None => None,
    }
}

/// The audio of a stream.
pub open spec fn audio_plan(settings: Settings) -> AudioPlan {
    AudioPlan {
        game_audio: match settings.audio.game_audio {
            Switch::Enabled(desc) => Some(
                GameAudioCapture {
                    backend: settings.audio.linux_backend,
                    device_id: desc.device_id,
                    channels: 2,
                    mute_when_streaming: desc.mute_when_streaming,
                },
            ),
            Switch::Disabled => None,
        },
        microphone: match settings.audio.microphone {
            Switch::Enabled(desc) => Some(
                MicrophonePlayback {
                    backend: settings.audio.linux_backend,
                    input_device_id: desc.input_device_id,
                    output_device_id: desc.output_device_id,
                    channels: 1,
                    buffering: desc.buffering_config,
                },
            ),
            Switch::Disabled => None,
        },
    }
}

fn plan_audio(settings: &Settings) -> (res: AudioPlan)
    ensures
        res == audio_plan(*settings),
{
    AudioPlan {
        game_audio: match &settings.audio.game_audio {
            Switch::Enabled(desc) => Some(
                GameAudioCapture {
                    backend: settings.audio.linux_backend,
                    device_id: copy_device_id(&desc.device_id),
                    channels: 2,
                    mute_when_streaming: desc.mute_when_streaming,
                },
            ),
            Switch::Disabled => None,
        },
        microphone: match &settings.audio.microphone {
            Switch::Enabled(desc) => Some(
                MicrophonePlayback {
                    backend: settings.audio.linux_backend,
                    input_device_id: copy_device_id(&desc.input_device_id),
                    output_device_id: copy_device_id(&desc.output_device_id),
                    channels: 1,
                    buffering: desc.buffering_config,
                },
            ),
            Switch::Disabled => None,
        },
    }
}

/// What the tasks of a stream need besides the audio devices, or nothing where the microphone is
/// played and nobody knows how it is sampled.
pub open spec fn task_plan(settings: Settings, microphone_rate: Option<u32>) -> Option<TaskPlan> {
    let controller_prediction_multiplier = crate::session::prediction_multiplier_spec(
        settings.headset.controllers,
    );
    if settings.audio.microphone is Disabled {
        Some(TaskPlan { microphone_rate: None, controller_prediction_multiplier })
    } else if microphone_rate is Some {
        Some(TaskPlan { microphone_rate, controller_prediction_multiplier })
    } else {
        None
    }
}

fn plan_tasks(settings: &Settings, microphone_rate: Option<u32>) -> (res: Option<TaskPlan>)
    ensures
        res == task_plan(*settings, microphone_rate),
{
    let controller_prediction_multiplier = prediction_multiplier(&settings.headset.controllers);
    match &settings.audio.microphone {
        Switch::Disabled => Some(
            TaskPlan { microphone_rate: None, controller_prediction_multiplier },
        ),
        Switch::Enabled(_) => match microphone_rate {
            Some(rate) => Some(
                TaskPlan { microphone_rate: Some(rate), controller_prediction_multiplier },
            ),
            None => None,
        },
    }
}

/// The tasks of a stream. The stream is over when one of them ends.
#[derive(Clone, Copy, Debug, PartialEq, Eq, Structural)]
pub enum ServerTask {
    Receive,
    GameAudio,
    Microphone,
    VideoSend,
    StatisticsReceive,
    HapticsSend,
    TrackingReceive,
}

/// Why a stream failed.
#[derive(Debug, PartialEq)]
pub enum ServerStreamError {
    /// A socket or a task of the stream failed.
    Stream(String),
    /// The client did not take up the stream in time.
    SetupTimeout,
    /// The microphone is to be played, and nobody knows how it is sampled.
    UnknownMicrophoneRate,
}

impl ServerStreamError {
    /// What went wrong, in words.
    pub open spec fn text(self) -> Seq<char> {
        match self {
            ServerStreamError::Stream(cause) => cause@,
            ServerStreamError::SetupTimeout => SETUP_TIMEOUT_MESSAGE@,
            ServerStreamError::UnknownMicrophoneRate => UNKNOWN_RATE_MESSAGE@,
        }
    }

    /// What went wrong, in words.
    pub fn message(self) -> (res: String)
        ensures
            res@ == self.text(),
    {
        match self {
            ServerStreamError::Stream(cause) => cause,
            ServerStreamError::SetupTimeout => SETUP_TIMEOUT_MESSAGE.to_owned(),
            ServerStreamError::UnknownMicrophoneRate => UNKNOWN_RATE_MESSAGE.to_owned(),
        }
    }
}

/// Where the server stands with a stream.
#[derive(Debug, PartialEq)]
pub enum ServerStreamPhase {
    /// Nothing has happened yet.
    Start,
    /// Waiting for the client to take up the stream.
    AwaitClient { settings: Settings },
    /// Opening the audio devices and their streams.
    OpeningAudio { settings: Settings },
    /// Opening the other streams.
    OpeningStreams,
    /// Streaming.
    Streaming,
    /// Over.
    Over,
}

/// What the server learns about a stream.
#[derive(Debug, PartialEq)]
pub enum ServerStreamEvent {
    /// The stream is to be set up, with these settings.
    Begin(Settings),
    /// Whether the client took up the stream, or why not.
    Connected(Result<(), String>),
    /// The client did not take up the stream in time.
    TimedOut,
    /// Whether the audio devices and their streams could be opened, or why not.
    AudioOpened(Result<(), String>),
    /// Whether the other streams could be opened, or why not.
    StreamsOpened(Result<(), String>),
    /// A task ended, perhaps by an error.
    TaskEnded { task: ServerTask, result: Result<(), String> },
    /// The driver is about to restart.
    RestartRequested,
    /// The stream is to be given up.
    Cancelled,
}

/// What the server does about a stream.
#[derive(Debug, PartialEq)]
pub enum ServerStreamAction {
    /// Connect the stream to the client, within this many nanoseconds.
    Connect {
        client_ip: IpAddr,
        port: u16,
        protocol: SocketProtocol,
        send_buffer_bytes: u32,
        timeout: u64,
    },
    /// Begin to gather statistics, over this many frames.
    NewStatistics(u64),
    /// Report that a client connected.
    ReportConnected,
    /// Report that a client disconnected.
    ReportDisconnected,
    /// Run a command, with what it is about in the variable `ACTION`.
    RunScript { command: String, action: &'static str },
    /// Start the driver's side of the stream.
    InitializeStreaming,
    /// Open the audio devices and their streams.
    OpenAudio(AudioPlan),
    /// Open the other streams, for tasks that work by this plan.
    OpenStreams(TaskPlan),
    /// Run the tasks of the stream.
    RunTasks,
    /// Tell the client that the server restarts.
    TellRestart { sse_socket: u64 },
    /// End the driver's side of the stream.
    DeinitializeStreaming,
    /// Note that no stream is set up any more.
    ReleaseClient,
    /// End with this result.
    End(Result<(), ServerStreamError>),
}

/// Whether an event can be the answer to what is being done.
pub open spec fn server_stream_answers(
    phase: ServerStreamPhase,
    event: ServerStreamEvent,
) -> bool {
    match phase {
        ServerStreamPhase::Start => event is Begin,
        ServerStreamPhase::AwaitClient { .. } => event is Connected || event is TimedOut || event
            is Cancelled,
        ServerStreamPhase::OpeningAudio { .. } => event is AudioOpened || event is Cancelled,
        ServerStreamPhase::OpeningStreams => event is StreamsOpened || event is Cancelled,
        ServerStreamPhase::Streaming => event is TaskEnded || event is RestartRequested || event
            is Cancelled,
        ServerStreamPhase::Over => false,
    }
}

/// Whether the driver's side of the stream is started.
pub open spec fn is_open(phase: ServerStreamPhase) -> bool {
    phase is OpeningAudio || phase is OpeningStreams || phase is Streaming
}

/// The run of a script, where there is one.
pub open spec fn script_run(script: String, action: &'static str) -> Seq<ServerStreamAction> {
    if script@.len() == 0 {
        seq![]
    } else {
        seq![ServerStreamAction::RunScript { command: script, action }]
    }
}

/// What is done when a stream that was started ends, however it ends.
pub open spec fn closing(on_disconnect_script: String) -> Seq<ServerStreamAction> {
    seq![ServerStreamAction::DeinitializeStreaming] + script_run(
        on_disconnect_script,
        DISCONNECT_ACTION,
    ) + seq![ServerStreamAction::ReleaseClient]
}

/// What is done when the client takes up the stream.
pub open spec fn opening(settings: Settings) -> Seq<ServerStreamAction> {
    seq![
        ServerStreamAction::NewStatistics(settings.connection.statistics_history_size),
        ServerStreamAction::ReportConnected,
    ] + script_run(settings.connection.on_connect_script, CONNECT_ACTION) + seq![
        ServerStreamAction::InitializeStreaming,
        ServerStreamAction::OpenAudio(audio_plan(settings)),
    ]
}

/// A stream that was started is over: it is closed, and it ends with the given result.
pub open spec fn closes(
    on_disconnect_script: String,
    result: Result<(), ServerStreamError>,
    next: ServerStreamPhase,
    actions: Seq<ServerStreamAction>,
) -> bool {
    &&& next == ServerStreamPhase::Over
    &&& actions =~= closing(on_disconnect_script) + seq![ServerStreamAction::End(result)]
}

/// How the server goes on with a stream.
pub open spec fn server_stream_goes_on(
    phase: ServerStreamPhase,
    event: ServerStreamEvent,
    client_ip: IpAddr,
    hostname: Seq<char>,
    clients: Map<Seq<char>, crate::clients::ClientConnectionData>,
    on_disconnect_script: String,
    next: ServerStreamPhase,
    actions: Seq<ServerStreamAction>,
) -> bool {
    match (phase, event) {
        (ServerStreamPhase::Start, ServerStreamEvent::Begin(settings)) => {
            &&& next == (ServerStreamPhase::AwaitClient { settings })
            &&& actions =~= seq![
                ServerStreamAction::Connect {
                    client_ip,
                    port: settings.connection.stream_port,
                    protocol: settings.connection.stream_protocol,
                    send_buffer_bytes: bytes_of_mbits(settings.video.encode_bitrate_mbs) as u32,
                    timeout: STREAM_SETUP_TIMEOUT,
                },
            ]
        },
        (
            ServerStreamPhase::AwaitClient { settings },
            ServerStreamEvent::Connected(Ok(_)),
        ) => {
            &&& next == (ServerStreamPhase::OpeningAudio { settings })
            &&& actions =~= opening(settings)
        },
        (
            ServerStreamPhase::OpeningAudio { settings },
            ServerStreamEvent::AudioOpened(Ok(_)),
        ) => match task_plan(settings, microphone_rate_of(clients, hostname)) {
            Some(plan) => {
                &&& next == ServerStreamPhase::OpeningStreams
                &&& actions =~= seq![ServerStreamAction::OpenStreams(plan)]
            },
            None => closes(
                on_disconnect_script,
                Err(ServerStreamError::UnknownMicrophoneRate),
                next,
                actions,
            ),
        },
        (ServerStreamPhase::OpeningStreams, ServerStreamEvent::StreamsOpened(Ok(_))) => {
            &&& next == ServerStreamPhase::Streaming
            &&& actions =~= seq![ServerStreamAction::RunTasks]
        },
        (
            ServerStreamPhase::OpeningAudio { .. },
            ServerStreamEvent::AudioOpened(Err(cause)),
        ) => closes(on_disconnect_script, Err(ServerStreamError::Stream(cause)), next, actions),
        (ServerStreamPhase::OpeningStreams, ServerStreamEvent::StreamsOpened(Err(cause))) => closes(
            on_disconnect_script,
            Err(ServerStreamError::Stream(cause)),
            next,
            actions,
        ),
        (ServerStreamPhase::OpeningAudio { .. }, ServerStreamEvent::Cancelled) => closes(
            on_disconnect_script,
            Ok(()),
            next,
            actions,
        ),
        (ServerStreamPhase::OpeningStreams, ServerStreamEvent::Cancelled) => closes(
            on_disconnect_script,
            Ok(()),
            next,
            actions,
        ),
        (
            ServerStreamPhase::AwaitClient { .. },
            ServerStreamEvent::Connected(Err(cause)),
        ) => {
            &&& next == ServerStreamPhase::Over
            &&& actions =~= seq![ServerStreamAction::End(Err(ServerStreamError::Stream(cause)))]
        },
        (ServerStreamPhase::AwaitClient { .. }, ServerStreamEvent::TimedOut) => {
            &&& next == ServerStreamPhase::Over
            &&& actions =~= seq![ServerStreamAction::End(Err(ServerStreamError::SetupTimeout))]
        },
        (ServerStreamPhase::AwaitClient { .. }, ServerStreamEvent::Cancelled) => {
            &&& next == ServerStreamPhase::Over
            &&& actions =~= seq![ServerStreamAction::End(Ok(()))]
        },
        (
            ServerStreamPhase::Streaming,
            ServerStreamEvent::TaskEnded { task: ServerTask::Receive, .. },
        ) => {
            &&& next == ServerStreamPhase::Over
            &&& actions =~= seq![ServerStreamAction::ReportDisconnected] + closing(
                on_disconnect_script,
            ) + seq![ServerStreamAction::End(Ok(()))]
        },
        (ServerStreamPhase::Streaming, ServerStreamEvent::TaskEnded { result, .. }) => closes(
            on_disconnect_script,
            match result {
                Ok(_) => Ok(()),
                Err(cause) => Err(ServerStreamError::Stream(cause)),
            },
            next,
            actions,
        ),
        (ServerStreamPhase::Streaming, ServerStreamEvent::RestartRequested) => {
            &&& next == ServerStreamPhase::Over
            &&& actions =~= (if clients.contains_key(hostname) {
                seq![
                    ServerStreamAction::TellRestart { sse_socket: clients[hostname].sse_socket },
                ]
            } else {
                seq![]
            }) + closing(on_disconnect_script) + seq![ServerStreamAction::End(Ok(()))]
        },
        (ServerStreamPhase::Streaming, ServerStreamEvent::Cancelled) => closes(
            on_disconnect_script,
            Ok(()),
            next,
            actions,
        ),
        _ => false,
    }
}

fn push_script(actions: &mut Vec<ServerStreamAction>, script: &String, action: &'static str)
    ensures
        final(actions)@ == old(actions)@ + script_run(*script, action),
{
    if !script.as_str().is_empty() {
        actions.push(ServerStreamAction::RunScript { command: script.clone(), action });
    }
    assert(actions@ =~= old(actions)@ + script_run(*script, action));
}

/// What is done when a stream that was started ends, after what is to be done already.
fn push_closing(actions: &mut Vec<ServerStreamAction>, on_disconnect_script: &String)
    ensures
        final(actions)@ == old(actions)@ + closing(*on_disconnect_script),
{
    actions.push(ServerStreamAction::DeinitializeStreaming);
    push_script(actions, on_disconnect_script, DISCONNECT_ACTION);
    actions.push(ServerStreamAction::ReleaseClient);
    assert(actions@ =~= old(actions)@ + closing(*on_disconnect_script));
}

fn close_stream(on_disconnect_script: &String, result: Result<(), ServerStreamError>) -> (res: (
    ServerStreamPhase,
    Vec<ServerStreamAction>,
))
    ensures
        closes(*on_disconnect_script, result, res.0, res.1@),
{
    let mut actions: Vec<ServerStreamAction> = Vec::new();
    push_closing(&mut actions, on_disconnect_script);
    actions.push(ServerStreamAction::End(result));
    assert(actions@ =~= closing(*on_disconnect_script) + seq![ServerStreamAction::End(result)]);
    (ServerStreamPhase::Over, actions)
}

fn open_stream(settings: &Settings) -> (res: Vec<ServerStreamAction>)
    ensures
        res@ == opening(*settings),
{
    let mut actions: Vec<ServerStreamAction> = Vec::new();
    actions.push(ServerStreamAction::NewStatistics(settings.connection.statistics_history_size));
    actions.push(ServerStreamAction::ReportConnected);
    push_script(&mut actions, &settings.connection.on_connect_script, CONNECT_ACTION);
    actions.push(ServerStreamAction::InitializeStreaming);
    actions.push(ServerStreamAction::OpenAudio(plan_audio(settings)));
    assert(actions@ =~= opening(*settings));
    actions
}

/// Goes on with a stream. The actions are taken in their order.
pub fn streaming_loop(
    phase: ServerStreamPhase,
    event: ServerStreamEvent,
    client_ip: IpAddr,
    hostname: &String,
    clients: &ClientTable,
    on_disconnect_script: &String,
) -> (res: (ServerStreamPhase, Vec<ServerStreamAction>))
    requires
        clients.wf(),
        server_stream_answers(phase, event),
    ensures
        server_stream_goes_on(
            phase,
            event,
            client_ip,
            hostname@,
            clients@,
            *on_disconnect_script,
            res.0,
            res.1@,
        ),
{
    let mut actions: Vec<ServerStreamAction> = Vec::new();
    match (phase, event) {
        (ServerStreamPhase::Start, ServerStreamEvent::Begin(settings)) => {
            actions.push(
                ServerStreamAction::Connect {
                    client_ip,
                    port: settings.connection.stream_port,
                    protocol: settings.connection.stream_protocol,
                    send_buffer_bytes: mbits_to_bytes(settings.video.encode_bitrate_mbs),
                    timeout: STREAM_SETUP_TIMEOUT,
                },
            );
            (ServerStreamPhase::AwaitClient { settings }, actions)
        },
        (
            ServerStreamPhase::AwaitClient { settings },
            ServerStreamEvent::Connected(Ok(_)),
        ) => {
            let opening_actions = open_stream(&settings);
            (ServerStreamPhase::OpeningAudio { settings }, opening_actions)
        },
        (
            ServerStreamPhase::OpeningAudio { settings },
            ServerStreamEvent::AudioOpened(Ok(_)),
        ) => match plan_tasks(&settings, microphone_sample_rate(clients, hostname)) {
            Some(plan) => {
                actions.push(ServerStreamAction::OpenStreams(plan));
                (ServerStreamPhase::OpeningStreams, actions)
            },
            None => close_stream(
                on_disconnect_script,
                Err(ServerStreamError::UnknownMicrophoneRate),
            ),
        },
        (ServerStreamPhase::OpeningStreams, ServerStreamEvent::StreamsOpened(Ok(_))) => {
            actions.push(ServerStreamAction::RunTasks);
            (ServerStreamPhase::Streaming, actions)
        },
        (
            ServerStreamPhase::OpeningAudio { .. },
            ServerStreamEvent::AudioOpened(Err(cause)),
        ) => close_stream(on_disconnect_script, Err(ServerStreamError::Stream(cause))),
        (ServerStreamPhase::OpeningStreams, ServerStreamEvent::StreamsOpened(Err(cause))) => {
            close_stream(on_disconnect_script, Err(ServerStreamError::Stream(cause)))
        },
        (ServerStreamPhase::OpeningAudio { .. }, ServerStreamEvent::Cancelled) => {
            close_stream(on_disconnect_script, Ok(()))
        },
        (ServerStreamPhase::OpeningStreams, ServerStreamEvent::Cancelled) => {
            close_stream(on_disconnect_script, Ok(()))
        },
        (ServerStreamPhase::AwaitClient { .. }, ServerStreamEvent::Connected(Err(cause))) => {
            actions.push(ServerStreamAction::End(Err(ServerStreamError::Stream(cause))));
            (ServerStreamPhase::Over, actions)
        },
        (ServerStreamPhase::AwaitClient { .. }, ServerStreamEvent::TimedOut) => {
            actions.push(ServerStreamAction::End(Err(ServerStreamError::SetupTimeout)));
            (ServerStreamPhase::Over, actions)
        },
        (ServerStreamPhase::AwaitClient { .. }, ServerStreamEvent::Cancelled) => {
            actions.push(ServerStreamAction::End(Ok(())));
            (ServerStreamPhase::Over, actions)
        },
        (ServerStreamPhase::Streaming, ServerStreamEvent::TaskEnded { task, result }) => {
            match task {
                ServerTask::Receive => {
                    actions.push(ServerStreamAction::ReportDisconnected);
                    push_closing(&mut actions, on_disconnect_script);
                    actions.push(ServerStreamAction::End(Ok(())));
                    (ServerStreamPhase::Over, actions)
                },
                _ => close_stream(
                    on_disconnect_script,
                    match result {
                        Ok(_) => Ok(()),
                        Err(cause) => Err(ServerStreamError::Stream(cause)),
                    },
                ),
            }
        },
        (ServerStreamPhase::Streaming, ServerStreamEvent::RestartRequested) => {
            match clients.get(hostname) {
                Some(data) => {
                    actions.push(ServerStreamAction::TellRestart { sse_socket: data.sse_socket });
                },
                None => {},
            }
            push_closing(&mut actions, on_disconnect_script);
            actions.push(ServerStreamAction::End(Ok(())));
            (ServerStreamPhase::Over, actions)
        },
        (ServerStreamPhase::Streaming, ServerStreamEvent::Cancelled) => {
            close_stream(on_disconnect_script, Ok(()))
        },
        _ => unreached(),
    }
}

/// How many actions of a series are of the wanted kind.
pub open spec fn count_of(
    actions: Seq<ServerStreamAction>,
    wanted: spec_fn(ServerStreamAction) -> bool,
) -> nat
    decreases actions.len(),
{
    if actions.len() == 0 {
        0
    } else if wanted(actions.last()) {
        count_of(actions.drop_last(), wanted) + 1
    } else {
        count_of(actions.drop_last(), wanted)
    }
}

/// How often a series of actions starts the driver's side of a stream.
pub open spec fn starts(actions: Seq<ServerStreamAction>) -> nat {
    count_of(actions, |action: ServerStreamAction| action is InitializeStreaming)
}

/// How often a series of actions ends the driver's side of a stream.
pub open spec fn stops(actions: Seq<ServerStreamAction>) -> nat {
    count_of(actions, |action: ServerStreamAction| action is DeinitializeStreaming)
}

/// How often a series of actions frees the server for another stream.
pub open spec fn releases(actions: Seq<ServerStreamAction>) -> nat {
    count_of(actions, |action: ServerStreamAction| action is ReleaseClient)
}

proof fn lemma_count_concat(
    a: Seq<ServerStreamAction>,
    b: Seq<ServerStreamAction>,
    wanted: spec_fn(ServerStreamAction) -> bool,
)
    ensures
        count_of(a + b, wanted) == count_of(a, wanted) + count_of(b, wanted),
    decreases b.len(),
{
    if b.len() == 0 {
        assert(a + b =~= a);
    } else {
        assert((a + b).drop_last() =~= a + b.drop_last());
        lemma_count_concat(a, b.drop_last(), wanted);
    }
}

proof fn lemma_count_short(
    actions: Seq<ServerStreamAction>,
    wanted: spec_fn(ServerStreamAction) -> bool,
)
    requires
        actions.len() <= 2,
    ensures
        actions.len() == 0 ==> count_of(actions, wanted) == 0,
        actions.len() == 1 ==> count_of(actions, wanted) == if wanted(actions[0]) {
            1nat
        } else {
            0
        },
        actions.len() == 2 ==> count_of(actions, wanted) == (if wanted(actions[0]) {
            1nat
        } else {
            0
        }) + (if wanted(actions[1]) {
            1nat
        } else {
            0
        }),
{
    reveal_with_fuel(count_of, 3);
    if actions.len() == 2 {
        assert(actions.drop_last()[0] == actions[0]);
    }
}

/// Counts a series that consists of three short ones.
proof fn lemma_count_parts(
    actions: Seq<ServerStreamAction>,
    a: Seq<ServerStreamAction>,
    b: Seq<ServerStreamAction>,
    c: Seq<ServerStreamAction>,
    wanted: spec_fn(ServerStreamAction) -> bool,
)
    requires
        actions == a + b + c,
        a.len() <= 2,
        b.len() <= 2,
        c.len() <= 2,
    ensures
        count_of(actions, wanted) == count_of(a, wanted) + count_of(b, wanted) + count_of(
            c,
            wanted,
        ),
{
    lemma_count_concat(a + b, c, wanted);
    lemma_count_concat(a, b, wanted);
}

/// The stream is closed however it ends, also while it is being opened: what was started when the
/// client took up the stream is ended once, and the server is free for another stream then and not
/// before.
pub proof fn law_started_stream_is_closed(
    phase: ServerStreamPhase,
    event: ServerStreamEvent,
    client_ip: IpAddr,
    hostname: Seq<char>,
    clients: Map<Seq<char>, crate::clients::ClientConnectionData>,
    on_disconnect_script: String,
    next: ServerStreamPhase,
    actions: Seq<ServerStreamAction>,
)
    requires
        server_stream_goes_on(
            phase,
            event,
            client_ip,
            hostname,
            clients,
            on_disconnect_script,
            next,
            actions,
        ),
    ensures
        starts(actions) == if !is_open(phase) && is_open(next) {
            1nat
        } else {
            0
        },
        stops(actions) == if is_open(phase) && next is Over {
            1nat
        } else {
            0
        },
        releases(actions) == stops(actions),
        is_open(phase) ==> is_open(next) || next is Over,
        event is Cancelled || event is RestartRequested || event is TaskEnded ==> next is Over,
        next is Over <==> actions.last() is End,
{
    let is_start = |action: ServerStreamAction| action is InitializeStreaming;
    let is_stop = |action: ServerStreamAction| action is DeinitializeStreaming;
    let is_release = |action: ServerStreamAction| action is ReleaseClient;
    // The series falls into what comes before the script, the script, and the rest.
    let (front, script, back) = if is_open(phase) && next is Over {
        let script = script_run(on_disconnect_script, DISCONNECT_ACTION);
        let back = actions.skip(actions.len() - 2);
        (actions.take(actions.len() - 2 - script.len()), script, back)
    } else if next is OpeningAudio {
        let script = script_run(
            next->OpeningAudio_settings.connection.on_connect_script,
            CONNECT_ACTION,
        );
        (actions.take(2), script, actions.skip(2 + script.len() as int))
    } else {
        (actions, seq![], seq![])
    };
    assert(actions =~= front + script + back);
    lemma_count_parts(actions, front, script, back, is_start);
    lemma_count_parts(actions, front, script, back, is_stop);
    lemma_count_parts(actions, front, script, back, is_release);
    lemma_count_short(front, is_start);
    lemma_count_short(front, is_stop);
    lemma_count_short(front, is_release);
    lemma_count_short(script, is_start);
    lemma_count_short(script, is_stop);
    lemma_count_short(script, is_release);
    lemma_count_short(back, is_start);
    lemma_count_short(back, is_stop);
    lemma_count_short(back, is_release);
}

/// One step of a stream: what happened, what was known then, and how the server went on.
pub ghost struct StreamStep {
    pub phase: ServerStreamPhase,
    pub event: ServerStreamEvent,
    pub clients: Map<Seq<char>, crate::clients::ClientConnectionData>,
    pub on_disconnect_script: String,
    pub next: ServerStreamPhase,
    pub actions: Seq<ServerStreamAction>,
}

/// Whether steps make up a stream from its beginning on: the first one finds that nothing has
/// happened yet, and each of the others finds what the one before it left.
pub open spec fn is_stream_run(
    steps: Seq<StreamStep>,
    client_ip: IpAddr,
    hostname: Seq<char>,
) -> bool {
    &&& steps.len() > 0 ==> steps[0].phase is Start
    &&& forall|i: int, j: int|
        0 <= i && j == i + 1 && j < steps.len() ==> (#[trigger] steps[i]).next == (
        #[trigger] steps[j]).phase
    &&& forall|i: int|
        0 <= i < steps.len() ==> is_stream_step(#[trigger] steps[i], client_ip, hostname)
}

/// Whether a step is one that the server takes.
pub open spec fn is_stream_step(step: StreamStep, client_ip: IpAddr, hostname: Seq<char>) -> bool {
    server_stream_goes_on(
        step.phase,
        step.event,
        client_ip,
        hostname,
        step.clients,
        step.on_disconnect_script,
        step.next,
        step.actions,
    )
}

/// The actions of a series of steps, in their order.
pub open spec fn run_actions(steps: Seq<StreamStep>) -> Seq<ServerStreamAction>
    decreases steps.len(),
{
    if steps.len() == 0 {
        Seq::empty()
    } else {
        run_actions(steps.drop_last()) + steps.last().actions
    }
}

/// Over a whole stream the driver's side is started at most once. It is ended, and the server is
/// free for another stream, exactly once where it was started and the stream is over, however that
/// came, and not at all before that or where it was never started.
pub proof fn law_stream_is_closed_once_over_its_run(
    steps: Seq<StreamStep>,
    client_ip: IpAddr,
    hostname: Seq<char>,
)
    requires
        is_stream_run(steps, client_ip, hostname),
        steps.len() > 0,
    ensures
        starts(run_actions(steps)) <= 1,
        stops(run_actions(steps)) == releases(run_actions(steps)),
        starts(run_actions(steps)) == stops(run_actions(steps)) + if is_open(steps.last().next) {
            1nat
        } else {
            0
        },
        steps.last().next is Over ==> stops(run_actions(steps)) == starts(run_actions(steps)),
        steps.last().next is AwaitClient ==> starts(run_actions(steps)) == 0,
    decreases steps.len(),
{
    let front = steps.drop_last();
    let last = steps.last();
    let before = run_actions(front);
    let is_start = |action: ServerStreamAction| action is InitializeStreaming;
    let is_stop = |action: ServerStreamAction| action is DeinitializeStreaming;
    let is_release = |action: ServerStreamAction| action is ReleaseClient;
    assert(last == steps[steps.len() - 1]);
    assert(is_stream_step(last, client_ip, hostname));
    law_started_stream_is_closed(
        last.phase,
        last.event,
        client_ip,
        hostname,
        last.clients,
        last.on_disconnect_script,
        last.next,
        last.actions,
    );
    lemma_count_concat(before, last.actions, is_start);
    lemma_count_concat(before, last.actions, is_stop);
    lemma_count_concat(before, last.actions, is_release);
    if front.len() > 0 {
        assert forall|i: int, j: int|
            0 <= i && j == i + 1 && j < front.len() implies (#[trigger] front[i]).next == (
        #[trigger] front[j]).phase by {
            assert(steps[i].next == steps[j].phase);
        }
        assert forall|i: int| 0 <= i < front.len() implies is_stream_step(
            #[trigger] front[i],
            client_ip,
            hostname,
        ) by {
            assert(is_stream_step(steps[i], client_ip, hostname));
        }
        assert(front[0] == steps[0]);
        law_stream_is_closed_once_over_its_run(front, client_ip, hostname);
        assert(steps[steps.len() - 2].next == last.phase);
        assert(front.last() == steps[steps.len() - 2]);
    } else {
        lemma_count_short(before, is_start);
        lemma_count_short(before, is_stop);
        lemma_count_short(before, is_release);
    }
}

/// What a device that is tracked is.
#[derive(Clone, Copy, Debug, PartialEq, Eq, Structural)]
pub enum TrackedRole {
    Head,
    Controller,
}

/// What a device that is tracked is: the head, or else a controller.
pub fn tracked_role(device_id: u64, head_id: u64) -> (res: TrackedRole)
    ensures
        res == if device_id == head_id {
            TrackedRole::Head
        } else {
            TrackedRole::Controller
        },
{
    if device_id == head_id {
        TrackedRole::Head
    } else {
        TrackedRole::Controller
    }
}

/// A motion as the driver reads it.
#[derive(Clone, Copy, Debug, PartialEq)]
pub struct AlvrDeviceMotion {
    pub device_id: u64,
    pub orientation: Quat,
    pub position: [F32; 3],
    pub linear_velocity: [F32; 3],
    pub angular_velocity: [F32; 3],
}

/// Whether an array holds the coordinates of a vector in order.
pub open spec fn is_array_of(array: [F32; 3], vector: Vec3) -> bool {
    array@ =~= seq![vector.x, vector.y, vector.z]
}

/// Whether `raw` is the motion of a device as the driver reads it.
pub open spec fn is_raw_motion(device_id: u64, motion: DeviceMotion, raw: AlvrDeviceMotion) -> bool {
    &&& raw.device_id == device_id
    &&& raw.orientation == motion.orientation
    &&& is_array_of(raw.position, motion.position)
    &&& is_array_of(raw.linear_velocity, motion.linear_velocity)
    &&& is_array_of(raw.angular_velocity, motion.angular_velocity)
}

/// The motions that remain of those that were mapped.
pub open spec fn mapped_motions(mapped: Seq<(u64, Option<DeviceMotion>)>) -> Seq<
    (u64, Option<DeviceMotion>),
> {
    mapped.filter(|m: (u64, Option<DeviceMotion>)| m.1 is Some)
}

/// Whether `raw` are the motions that remain, in their order, as the driver reads them.
pub open spec fn are_raw_motions(
    mapped: Seq<(u64, Option<DeviceMotion>)>,
    raw: Seq<AlvrDeviceMotion>,
) -> bool {
    &&& raw.len() == mapped_motions(mapped).len()
    &&& forall|k: int|
        0 <= k < raw.len() ==> is_raw_motion(
            mapped_motions(mapped)[k].0,
            mapped_motions(mapped)[k].1->0,
            #[trigger] raw[k],
        )
}

fn coordinates(vector: Vec3) -> (res: [F32; 3])
    ensures
        is_array_of(res, vector),
{
    [vector.x, vector.y, vector.z]
}

/// The motions that the driver is told, in the order in which they came. Devices whose motion
/// could not be mapped are left out.
pub fn raw_motions(mapped: &Vec<(u64, Option<DeviceMotion>)>) -> (res: Vec<AlvrDeviceMotion>)
    ensures
        are_raw_motions(mapped@, res@),
{
    let mut res: Vec<AlvrDeviceMotion> = Vec::new();
    let mut i: usize = 0;
    proof {
        reveal(Seq::filter);
    }
    assert(mapped_motions(mapped@.take(0)) =~= seq![]);
    while i < mapped.len()
        invariant
            i <= mapped.len(),
            are_raw_motions(mapped@.take(i as int), res@),
        decreases mapped.len() - i,
    {
        let (device_id, motion) = mapped[i];
        proof {
            reveal(Seq::filter);
            let now = mapped@.take(i + 1);
            assert(now.drop_last() =~= mapped@.take(i as int));
            assert(now.last() == mapped[i as int]);
        }
        match motion {
            Some(motion) => {
                res.push(
                    AlvrDeviceMotion {
                        device_id,
                        orientation: motion.orientation,
                        position: coordinates(motion.position),
                        linear_velocity: coordinates(motion.linear_velocity),
                        angular_velocity: coordinates(motion.angular_velocity),
                    },
                );
            },
            None => {},
        }
        i = i + 1;
    }
    assert(mapped@.take(i as int) =~= mapped@);
    res
}

/// The skeleton of a hand as the driver reads it.
#[derive(Clone, Copy, Debug, PartialEq)]
pub struct OculusHand {
    pub enabled: bool,
    pub bone_rotations: [Quat; 19],
}

/// The rotation whose four numbers are 0.
pub open spec fn zero_rotation() -> Quat {
    Quat {
        x: F32 { bits: 0 },
        y: F32 { bits: 0 },
        z: F32 { bits: 0 },
        w: F32 { bits: 0 },
    }
}

/// Whether `hand` is the skeleton of a hand as the driver reads it: switched off, with zeros,
/// where there is none.
pub open spec fn is_hand_of(skeleton: Option<[Quat; 19]>, hand: OculusHand) -> bool {
    match skeleton {
        Some(rotations) => hand.enabled && hand.bone_rotations == rotations,
        None => !hand.enabled && forall|k: int|
            0 <= k < 19 ==> (#[trigger] hand.bone_rotations[k]) == zero_rotation(),
    }
}

/// The skeleton of a hand as the driver reads it.
pub fn oculus_hand(skeleton: Option<[Quat; 19]>) -> (res: OculusHand)
    ensures
        is_hand_of(skeleton, res),
{
    match skeleton {
        Some(rotations) => OculusHand { enabled: true, bone_rotations: rotations },
        None => {
            let zero = Quat {
                x: F32 { bits: 0 },
                y: F32 { bits: 0 },
                z: F32 { bits: 0 },
                w: F32 { bits: 0 },
            };
            OculusHand { enabled: false, bone_rotations: [zero; 19] }
        },
    }
}

/// A moment in nanoseconds. Only the lower 64 bits are kept.
pub fn timestamp_nanos(timestamp: Duration) -> (res: u64)
    ensures
        res == timestamp.total() % 0x1_0000_0000_0000_0000,
{
    (timestamp.as_nanos() % 0x1_0000_0000_0000_0000) as u64
}

/// What the driver is told of the headset and its controllers at one moment.
#[derive(Debug, PartialEq)]
pub struct DriverTracking {
    pub target_timestamp_ns: u64,
    pub motions: Vec<AlvrDeviceMotion>,
    pub left_hand: OculusHand,
    pub right_hand: OculusHand,
}

/// What a motion was mapped to. The motion of the head is always mapped, that of a controller need
/// not be.
#[derive(Clone, Copy, Debug, PartialEq)]
pub enum MappedMotion {
    Head(DeviceMotion),
    Controller(Option<DeviceMotion>),
}

impl MappedMotion {
    /// The motion, where there is one.
    pub open spec fn motion(self) -> Option<DeviceMotion> {
        match self {
            MappedMotion::Head(motion) => Some(motion),
            MappedMotion::Controller(motion) => motion,
        }
    }
}

/// The devices that were tracked, each with its motion as it was mapped.
pub open spec fn with_devices(
    motions: Seq<(u64, DeviceMotion)>,
    mapped: Seq<MappedMotion>,
) -> Seq<(u64, Option<DeviceMotion>)> {
    Seq::new(motions.len(), |i: int| (motions[i].0, mapped[i].motion()))
}

/// Whether each motion was mapped by the role of its device.
pub open spec fn are_mapped_by_role(
    motions: Seq<(u64, DeviceMotion)>,
    head_id: u64,
    mapped: Seq<MappedMotion>,
) -> bool {
    &&& mapped.len() == motions.len()
    &&& forall|i: int|
        0 <= i < motions.len() ==> ((#[trigger] mapped[i]) is Head <==> motions[i].0 == head_id)
}

/// What the driver is told about what was tracked, given what each motion was mapped to: those
/// that could be mapped, in their order, the head among them, and the skeletons of both hands.
pub fn driver_tracking(tracking: &Tracking, head_id: u64, mapped: &Vec<MappedMotion>) -> (res:
    DriverTracking)
    requires
        are_mapped_by_role(tracking.device_motions@, head_id, mapped@),
    ensures
        res.target_timestamp_ns == tracking.target_timestamp.total() % 0x1_0000_0000_0000_0000,
        are_raw_motions(with_devices(tracking.device_motions@, mapped@), res.motions@),
        forall|i: int|
            0 <= i < mapped.len() && tracking.device_motions[i].0 == head_id ==> holds_motion(
                res.motions@,
                head_id,
                (#[trigger] mapped[i])->Head_0,
            ),
        is_hand_of(tracking.left_hand_skeleton, res.left_hand),
        is_hand_of(tracking.right_hand_skeleton, res.right_hand),
{
    let mut pairs: Vec<(u64, Option<DeviceMotion>)> = Vec::new();
    let mut i: usize = 0;
    while i < mapped.len()
        invariant
            i <= mapped.len(),
            tracking.device_motions.len() == mapped.len(),
            pairs@ == with_devices(tracking.device_motions@, mapped@).take(i as int),
        decreases mapped.len() - i,
    {
        let motion = match mapped[i] {
            MappedMotion::Head(motion) => Some(motion),
            MappedMotion::Controller(motion) => motion,
        };
        pairs.push((tracking.device_motions[i].0, motion));
        assert(pairs@ =~= with_devices(tracking.device_motions@, mapped@).take(i + 1));
        i = i + 1;
    }
    assert(pairs@ =~= with_devices(tracking.device_motions@, mapped@));
    let motions = raw_motions(&pairs);
    proof {
        assert forall|k: int|
            0 <= k < mapped.len() && tracking.device_motions[k].0 == head_id implies holds_motion(
            motions@,
            head_id,
            (#[trigger] mapped[k])->Head_0,
        ) by {
            law_head_is_always_told(
                tracking.device_motions@,
                head_id,
                mapped@,
                motions@,
                k,
            );
        }
    }
    DriverTracking {
        target_timestamp_ns: timestamp_nanos(tracking.target_timestamp),
        motions,
        left_hand: oculus_hand(tracking.left_hand_skeleton),
        right_hand: oculus_hand(tracking.right_hand_skeleton),
    }
}

/// Whether the motion of a device is among those that the driver is told.
pub open spec fn holds_motion(
    raw: Seq<AlvrDeviceMotion>,
    device_id: u64,
    motion: DeviceMotion,
) -> bool {
    exists|k: int| 0 <= k < raw.len() && is_raw_motion(device_id, motion, #[trigger] raw[k])
}

/// Every motion of the head that was tracked is told to the driver.
pub proof fn law_head_is_always_told(
    motions: Seq<(u64, DeviceMotion)>,
    head_id: u64,
    mapped: Seq<MappedMotion>,
    raw: Seq<AlvrDeviceMotion>,
    i: int,
)
    requires
        are_mapped_by_role(motions, head_id, mapped),
        are_raw_motions(with_devices(motions, mapped), raw),
        0 <= i < motions.len(),
        motions[i].0 == head_id,
    ensures
        mapped[i] is Head,
        holds_motion(raw, head_id, mapped[i]->Head_0),
{
    broadcast use vstd::seq_lib::group_filter_ensures;

    let pairs = with_devices(motions, mapped);
    let kept = mapped_motions(pairs);
    assert(mapped[i] is Head);
    assert(pairs[i] == (head_id, Some(mapped[i]->Head_0)));
    assert(kept.contains(pairs[i]));
    let k = choose|k: int| 0 <= k < kept.len() && kept[k] == pairs[i];
    assert(is_raw_motion(kept[k].0, kept[k].1->0, raw[k]));
}

/// A latency in microseconds. Only the lower 64 bits are kept.
pub fn latency_micros(latency: Duration) -> (res: u64)
    ensures
        res == (latency.total() / 1000) % 0x1_0000_0000_0000_0000,
{
    (latency.as_micros() % 0x1_0000_0000_0000_0000) as u64
}

/// A buffer for a number of megabits has 131072 bytes for each of them, counted modulo 2 to the
/// power 32: eight bits make a byte, and a megabit has 1024 times 1024 bits.
pub proof fn law_megabits_fill_their_bytes(
    value: u64,
    res: u32,
)
    requires
        call_ensures(mbits_to_bytes, (value,), res),
    ensures
        (value * 1024 * 1024 - res * 8) % 0x8_0000_0000 == 0,
        value < 32768 ==> res * 8 == value * 1024 * 1024,
{
    let bytes = value * 131072;
    assert(value * 1024 * 1024 / 8 == bytes);
    let wraps = bytes / 0x1_0000_0000;
    assert(bytes == wraps * 0x1_0000_0000 + bytes_of_mbits(value)) by {
        vstd::arithmetic::div_mod::lemma_fundamental_div_mod(bytes, 0x1_0000_0000);
    }
    assert(value * 1024 * 1024 - bytes_of_mbits(value) * 8 == wraps * 0x8_0000_0000);
    vstd::arithmetic::div_mod::lemma_mod_multiples_basic(wraps, 0x8_0000_0000);
}

/// The server records game audio exactly where it is enabled, and plays the microphone exactly where
/// that is enabled: from and to the devices that are set for each, by the backend that is set, on two
/// channels and on one, with the options that are set for each.
pub proof fn law_server_audio_is_that_of_the_settings(settings: Settings)
    ensures
        ({
            let plan = audio_plan(settings);
            &&& plan.game_audio is Some <==> settings.audio.game_audio is Enabled
            &&& plan.game_audio matches Some(capture) ==> (settings.audio.game_audio
                matches Switch::Enabled(desc) && {
                &&& capture.backend == settings.audio.linux_backend
                &&& capture.device_id == desc.device_id
                &&& capture.channels == 2
                &&& capture.mute_when_streaming == desc.mute_when_streaming
            })
            &&& plan.microphone is Some <==> settings.audio.microphone is Enabled
            &&& plan.microphone matches Some(playback) ==> (settings.audio.microphone
                matches Switch::Enabled(desc) && {
                &&& playback.backend == settings.audio.linux_backend
                &&& playback.input_device_id == desc.input_device_id
                &&& playback.output_device_id == desc.output_device_id
                &&& playback.channels == 1
                &&& playback.buffering == desc.buffering_config
            })
        }),
{
}

/// The microphone is played at the rate that this very client reported, and there is no plan without
/// it. Where no microphone is played no rate is needed. Poses are predicted by the factor of the
/// controllers.
pub proof fn law_microphone_is_played_at_its_own_rate(
    clients: Map<Seq<char>, crate::clients::ClientConnectionData>,
    hostname: Seq<char>,
    settings: Settings,
)
    ensures
        ({
            let rate = microphone_rate_of(clients, hostname);
            let plan = task_plan(settings, rate);
            &&& rate is Some <==> clients.contains_key(hostname) && clients[hostname].capabilities
                is Some
            &&& rate matches Some(r) ==> r
                == clients[hostname].capabilities->0.microphone_sample_rate
            &&& plan is None <==> settings.audio.microphone is Enabled && rate is None
            &&& plan matches Some(p) ==> {
                &&& settings.audio.microphone is Enabled ==> p.microphone_rate == rate
                &&& settings.audio.microphone is Disabled ==> p.microphone_rate is None
                &&& settings.headset.controllers matches Switch::Enabled(desc) ==>
                    p.controller_prediction_multiplier.bits == desc.prediction_multiplier.bits
                &&& settings.headset.controllers is Disabled ==>
                    p.controller_prediction_multiplier.bits == 0
            }
        }),
{
}

/// Both ends of a stream use one port and one protocol: those that the settings name. The server
/// connects to the client at its address with a buffer for the bitrate that is set, and both ends
/// give up after the same five seconds.
pub proof fn law_both_ends_use_one_port_and_one_protocol(
    settings: Settings,
    client_ip: IpAddr,
    hostname: Seq<char>,
    clients: Map<Seq<char>, crate::clients::ClientConnectionData>,
    on_disconnect_script: String,
    name: String,
    table: ClientTable,
    res: (ServerStreamPhase, Vec<ServerStreamAction>),
    next: ServerStreamPhase,
    actions: Seq<ServerStreamAction>,
    server_ip: IpAddr,
    config: crate::packets::StreamConfigPacket,
    client_res: (crate::client_stream::StreamPhase, Vec<crate::client_stream::StreamAction>),
    client_actions: Seq<crate::client_stream::StreamAction>,
)
    requires
        call_ensures(
            streaming_loop,
            (
                ServerStreamPhase::Start,
                ServerStreamEvent::Begin(settings),
                client_ip,
                &name,
                &table,
                &on_disconnect_script,
            ),
            res,
        ),
        hostname == name@,
        clients == table@,
        next == res.0,
        actions == res.1@,
        call_ensures(
            crate::client_stream::streaming_pipeline,
            (
                crate::client_stream::StreamPhase::AwaitSettings,
                crate::client_stream::StreamEvent::SettingsReady(Ok(settings)),
                server_ip,
                config,
            ),
            client_res,
        ),
        client_actions == client_res.1@,
    ensures
        actions.len() == 1,
        next == (ServerStreamPhase::AwaitClient { settings }),
        actions[0] matches ServerStreamAction::Connect {
            client_ip: ip,
            port,
            protocol,
            send_buffer_bytes,
            timeout,
        } && {
            &&& ip == client_ip
            &&& port == settings.connection.stream_port
            &&& protocol == settings.connection.stream_protocol
            &&& client_actions.last() == (crate::client_stream::StreamAction::Listen {
                port,
                protocol,
            })
            &&& send_buffer_bytes == bytes_of_mbits(settings.video.encode_bitrate_mbs)
            &&& settings.video.encode_bitrate_mbs < 32768 ==> send_buffer_bytes * 8
                == settings.video.encode_bitrate_mbs * 1024 * 1024
            &&& timeout == 5_000_000_000
            &&& timeout == crate::client_stream::STREAM_SETUP_TIMEOUT
        },
{
}

/// When a client takes up a stream, statistics are begun as far back as set, the connection is
/// reported, the script for it is run if there is one, and the driver is started before any audio
/// device is opened.
pub proof fn law_stream_is_opened_in_order(
    settings: Settings,
    client_ip: IpAddr,
    hostname: Seq<char>,
    clients: Map<Seq<char>, crate::clients::ClientConnectionData>,
    on_disconnect_script: String,
    name: String,
    table: ClientTable,
    res: (ServerStreamPhase, Vec<ServerStreamAction>),
    next: ServerStreamPhase,
    actions: Seq<ServerStreamAction>,
)
    requires
        call_ensures(
            streaming_loop,
            (
                ServerStreamPhase::AwaitClient { settings },
                ServerStreamEvent::Connected(Ok(())),
                client_ip,
                &name,
                &table,
                &on_disconnect_script,
            ),
            res,
        ),
        hostname == name@,
        clients == table@,
        next == res.0,
        actions == res.1@,
    ensures
        next == (ServerStreamPhase::OpeningAudio { settings }),
        actions[0] == ServerStreamAction::NewStatistics(
            settings.connection.statistics_history_size,
        ),
        actions[1] == ServerStreamAction::ReportConnected,
        settings.connection.on_connect_script@.len() > 0 ==> {
            &&& actions.len() == 5
            &&& actions[2] matches ServerStreamAction::RunScript { command, action } && command
                == settings.connection.on_connect_script && action@ == "connect"@
        },
        settings.connection.on_connect_script@.len() == 0 ==> actions.len() == 4,
        actions[actions.len() - 2] == ServerStreamAction::InitializeStreaming,
        actions.last() == ServerStreamAction::OpenAudio(audio_plan(settings)),
{
}

/// A stream that was started is closed in this order: the driver is stopped, the script for it is run
/// if there is one, the server is free, and the stream ends. What goes before that is a report where
/// the client left, and word to the client where the driver restarts and the client is there.
pub proof fn law_stream_is_closed_in_order(
    phase: ServerStreamPhase,
    event: ServerStreamEvent,
    client_ip: IpAddr,
    hostname: Seq<char>,
    clients: Map<Seq<char>, crate::clients::ClientConnectionData>,
    on_disconnect_script: String,
    name: String,
    table: ClientTable,
    res: (ServerStreamPhase, Vec<ServerStreamAction>),
    next: ServerStreamPhase,
    actions: Seq<ServerStreamAction>,
)
    requires
        is_open(phase),
        next is Over,
        call_ensures(
            streaming_loop,
            (phase, event, client_ip, &name, &table, &on_disconnect_script),
            res,
        ),
        hostname == name@,
        clients == table@,
        next == res.0,
        actions == res.1@,
    ensures
        ({
            let lead: int = if event matches ServerStreamEvent::TaskEnded {
                task: ServerTask::Receive,
                ..
            } {
                1
            } else if event is RestartRequested && clients.contains_key(hostname) {
                1
            } else {
                0
            };
            &&& actions.len() == lead + if on_disconnect_script@.len() > 0 {
                4int
            } else {
                3
            }
            &&& event is TaskEnded && lead == 1 ==> actions[0]
                == ServerStreamAction::ReportDisconnected
            &&& event is RestartRequested && lead == 1 ==> actions[0] == (
            ServerStreamAction::TellRestart { sse_socket: clients[hostname].sse_socket })
            &&& actions[lead] == ServerStreamAction::DeinitializeStreaming
            &&& on_disconnect_script@.len() > 0 ==> (actions[lead + 1]
                matches ServerStreamAction::RunScript { command, action } && command
                == on_disconnect_script && action@ == "disconnect"@)
            &&& actions[actions.len() - 2] == ServerStreamAction::ReleaseClient
            &&& actions.last() is End
        }),
{
}

/// How a stream ends on the server. Before it was started it fails by the cause of what went wrong
/// or by a timeout, and nothing else is done. After that it fails by the error of what could not be
/// opened or of the task that ended, or because nobody knows how the microphone is sampled. It ends
/// well where the client leaves, where the driver restarts and where it is given up.
pub proof fn law_server_stream_ends_by_its_cause(
    phase: ServerStreamPhase,
    event: ServerStreamEvent,
    client_ip: IpAddr,
    hostname: Seq<char>,
    clients: Map<Seq<char>, crate::clients::ClientConnectionData>,
    on_disconnect_script: String,
    name: String,
    table: ClientTable,
    res: (ServerStreamPhase, Vec<ServerStreamAction>),
    next: ServerStreamPhase,
    actions: Seq<ServerStreamAction>,
)
    requires
        next is Over,
        call_ensures(
            streaming_loop,
            (phase, event, client_ip, &name, &table, &on_disconnect_script),
            res,
        ),
        hostname == name@,
        clients == table@,
        next == res.0,
        actions == res.1@,
    ensures
        !is_open(phase) ==> actions.len() == 1,
        actions.last() matches ServerStreamAction::End(result) && {
            &&& event matches ServerStreamEvent::Connected(outcome) ==> (outcome matches Err(cause)
                && result == Err::<(), ServerStreamError>(ServerStreamError::Stream(cause)))
            &&& event is TimedOut ==> result == Err::<(), ServerStreamError>(
                ServerStreamError::SetupTimeout,
            )
            &&& event is Cancelled || event is RestartRequested ==> result is Ok
            &&& event matches ServerStreamEvent::AudioOpened(Err(cause)) ==> result == Err::<
                (),
                ServerStreamError,
            >(ServerStreamError::Stream(cause))
            &&& event matches ServerStreamEvent::AudioOpened(Ok(_)) ==> {
                &&& result == Err::<(), ServerStreamError>(
                    ServerStreamError::UnknownMicrophoneRate,
                )
                &&& phase->OpeningAudio_settings.audio.microphone is Enabled
                &&& !(clients.contains_key(hostname) && clients[hostname].capabilities is Some)
            }
            &&& event matches ServerStreamEvent::StreamsOpened(outcome) ==> (outcome
                matches Err(cause) && result == Err::<(), ServerStreamError>(
                ServerStreamError::Stream(cause),
            ))
            &&& event matches ServerStreamEvent::TaskEnded { task, result: outcome } ==> {
                &&& task == ServerTask::Receive || outcome is Ok ==> result is Ok
                &&& task != ServerTask::Receive ==> (outcome matches Err(cause) ==> result == Err::<
                    (),
                    ServerStreamError,
                >(ServerStreamError::Stream(cause)))
            }
        },
{
}

/// Streams are opened after the audio devices, by the plan for this client, and the tasks are run
/// after that.
pub proof fn law_tasks_run_after_everything_is_open(
    phase: ServerStreamPhase,
    event: ServerStreamEvent,
    client_ip: IpAddr,
    hostname: Seq<char>,
    clients: Map<Seq<char>, crate::clients::ClientConnectionData>,
    on_disconnect_script: String,
    name: String,
    table: ClientTable,
    res: (ServerStreamPhase, Vec<ServerStreamAction>),
    next: ServerStreamPhase,
    actions: Seq<ServerStreamAction>,
)
    requires
        call_ensures(
            streaming_loop,
            (phase, event, client_ip, &name, &table, &on_disconnect_script),
            res,
        ),
        hostname == name@,
        clients == table@,
        next == res.0,
        actions == res.1@,
    ensures
        next is OpeningStreams ==> {
            &&& phase is OpeningAudio
            &&& event matches ServerStreamEvent::AudioOpened(Ok(_))
            &&& actions.len() == 1
            &&& actions[0] matches ServerStreamAction::OpenStreams(plan) && task_plan(
                phase->OpeningAudio_settings,
                microphone_rate_of(clients, hostname),
            ) == Some(plan)
        },
        next is Streaming ==> {
            &&& phase is OpeningStreams
            &&& event matches ServerStreamEvent::StreamsOpened(Ok(_))
            &&& actions.len() == 1
            &&& actions[0] == ServerStreamAction::RunTasks
        },
        (event matches ServerStreamEvent::StreamsOpened(Ok(_))) ==> next is Streaming,
{
}

/// What a stream is said to have failed by.
pub proof fn law_server_stream_errors_name_their_cause(error: ServerStreamError, res: String)
    requires
        call_ensures(ServerStreamError::message, (error,), res),
    ensures
        error matches ServerStreamError::Stream(cause) ==> res@ == cause@,
        error is SetupTimeout ==> res@ == "Timeout while setting up streams"@,
        error is UnknownMicrophoneRate ==> res@
            == "The sample rate of the microphone is not known"@,
{
}

/// A motion keeps every number on its way to the driver, each in its own place.
pub proof fn law_driver_gets_each_number_of_a_motion(
    device_id: u64,
    motion: DeviceMotion,
    raw: AlvrDeviceMotion,
)
    requires
        is_raw_motion(device_id, motion, raw),
    ensures
        raw.device_id == device_id,
        raw.orientation.x.bits == motion.orientation.x.bits,
        raw.orientation.y.bits == motion.orientation.y.bits,
        raw.orientation.z.bits == motion.orientation.z.bits,
        raw.orientation.w.bits == motion.orientation.w.bits,
        raw.position[0].bits == motion.position.x.bits,
        raw.position[1].bits == motion.position.y.bits,
        raw.position[2].bits == motion.position.z.bits,
        raw.linear_velocity[0].bits == motion.linear_velocity.x.bits,
        raw.linear_velocity[1].bits == motion.linear_velocity.y.bits,
        raw.linear_velocity[2].bits == motion.linear_velocity.z.bits,
        raw.angular_velocity[0].bits == motion.angular_velocity.x.bits,
        raw.angular_velocity[1].bits == motion.angular_velocity.y.bits,
        raw.angular_velocity[2].bits == motion.angular_velocity.z.bits,
{
    assert(raw.position@[0] == motion.position.x);
    assert(raw.position@[1] == motion.position.y);
    assert(raw.position@[2] == motion.position.z);
    assert(raw.linear_velocity@[0] == motion.linear_velocity.x);
    assert(raw.linear_velocity@[1] == motion.linear_velocity.y);
    assert(raw.linear_velocity@[2] == motion.linear_velocity.z);
    assert(raw.angular_velocity@[0] == motion.angular_velocity.x);
    assert(raw.angular_velocity@[1] == motion.angular_velocity.y);
    assert(raw.angular_velocity@[2] == motion.angular_velocity.z);
}

/// The driver is told exactly those devices whose motion was mapped, in the order in which they were
/// tracked: one more device is told after all others where its motion was mapped, and nothing
/// changes where it was not.
pub proof fn law_mapped_devices_are_told_in_order(
    mapped: Seq<(u64, Option<DeviceMotion>)>,
    device_id: u64,
    motion: Option<DeviceMotion>,
)
    ensures
        mapped_motions(Seq::<(u64, Option<DeviceMotion>)>::empty()).len() == 0,
        motion is Some ==> mapped_motions(mapped.push((device_id, motion))) =~= mapped_motions(
            mapped,
        ).push((device_id, motion)),
        motion is None ==> mapped_motions(mapped.push((device_id, motion))) =~= mapped_motions(
            mapped,
        ),
{
    reveal(Seq::filter);
    assert(mapped.push((device_id, motion)).drop_last() =~= mapped);
}

/// A motion that was tracked is told as what it was mapped to, under the device that it was tracked
/// for.
pub proof fn law_motions_stay_with_their_devices(
    motions: Seq<(u64, DeviceMotion)>,
    mapped: Seq<MappedMotion>,
    i: int,
)
    requires
        motions.len() == mapped.len(),
        0 <= i < motions.len(),
    ensures
        with_devices(motions, mapped).len() == motions.len(),
        with_devices(motions, mapped)[i].0 == motions[i].0,
        mapped[i] matches MappedMotion::Head(motion) ==> with_devices(motions, mapped)[i].1 == Some(
            motion,
        ),
        mapped[i] matches MappedMotion::Controller(motion) ==> with_devices(motions, mapped)[i].1
            == motion,
{
}

/// A hand is enabled exactly where its skeleton was tracked. Every bone is turned as it was tracked,
/// and by zeros where nothing was.
pub proof fn law_hand_is_that_of_its_skeleton(
    skeleton: Option<[Quat; 19]>,
    hand: OculusHand,
    bone: int,
)
    requires
        call_ensures(oculus_hand, (skeleton,), hand),
        0 <= bone < 19,
    ensures
        hand.enabled <==> skeleton is Some,
        skeleton matches Some(rotations) ==> hand.bone_rotations[bone] == rotations[bone],
        skeleton is None ==> hand.bone_rotations[bone].x.bits == 0 && hand.bone_rotations[bone].y.bits
            == 0 && hand.bone_rotations[bone].z.bits == 0 && hand.bone_rotations[bone].w.bits == 0,
{
}

/// The driver gets each hand from the skeleton of that hand, and the moment that was tracked for, in
/// nanoseconds.
pub proof fn law_driver_gets_each_hand_from_its_own_skeleton(
    tracking: Tracking,
    head_id: u64,
    mapped: Vec<MappedMotion>,
    told: DriverTracking,
    bone: int,
)
    requires
        call_ensures(driver_tracking, (&tracking, head_id, &mapped), told),
        0 <= bone < 19,
    ensures
        told.left_hand.enabled <==> tracking.left_hand_skeleton is Some,
        told.right_hand.enabled <==> tracking.right_hand_skeleton is Some,
        tracking.left_hand_skeleton matches Some(left) ==> told.left_hand.bone_rotations[bone]
            == left[bone],
        tracking.right_hand_skeleton matches Some(right) ==> told.right_hand.bone_rotations[bone]
            == right[bone],
        tracking.target_timestamp.secs < 0x1_0000_0000 ==> told.target_timestamp_ns
            == tracking.target_timestamp.secs * 1_000_000_000 + tracking.target_timestamp.nanos,
{
}

/// The microphone of a client is sampled as this very client reported, and not at all where it is not
/// connected or reported nothing.
pub proof fn law_microphone_rate_is_that_of_the_client(
    clients: ClientTable,
    hostname: String,
    res: Option<u32>,
)
    requires
        call_ensures(microphone_sample_rate, (&clients, &hostname), res),
    ensures
        res is Some <==> clients@.contains_key(hostname@) && clients@[hostname@].capabilities is Some,
        res matches Some(rate) ==> (clients@[hostname@].capabilities matches Some(capabilities)
            && capabilities.microphone_sample_rate == rate),
{
}

/// A tracked device is the head exactly where it has the identifier of the head.
pub proof fn law_only_the_head_is_the_head(device_id: u64, head_id: u64, res: TrackedRole)
    requires
        call_ensures(tracked_role, (device_id, head_id), res),
    ensures
        res == TrackedRole::Head <==> device_id == head_id,
        res == TrackedRole::Controller <==> device_id != head_id,
{
}

/// Every motion that is handed to the driver keeps its device and its numbers: the motion at a place
/// is the one at that place among those that were mapped, and none is left out.
pub proof fn law_driver_gets_the_mapped_motions(
    mapped: Vec<(u64, Option<DeviceMotion>)>,
    res: Vec<AlvrDeviceMotion>,
    k: int,
)
    requires
        call_ensures(raw_motions, (&mapped,), res),
        0 <= k < res@.len(),
    ensures
        res@.len() == mapped_motions(mapped@).len(),
        mapped_motions(mapped@)[k].1 is Some,
        ({
            let device_id = mapped_motions(mapped@)[k].0;
            let motion = mapped_motions(mapped@)[k].1->0;
            &&& res@[k].device_id == device_id
            &&& res@[k].orientation == motion.orientation
            &&& res@[k].position[0] == motion.position.x
            &&& res@[k].position[1] == motion.position.y
            &&& res@[k].position[2] == motion.position.z
            &&& res@[k].linear_velocity[0] == motion.linear_velocity.x
            &&& res@[k].linear_velocity[1] == motion.linear_velocity.y
            &&& res@[k].linear_velocity[2] == motion.linear_velocity.z
            &&& res@[k].angular_velocity[0] == motion.angular_velocity.x
            &&& res@[k].angular_velocity[1] == motion.angular_velocity.y
            &&& res@[k].angular_velocity[2] == motion.angular_velocity.z
        }),
{
    broadcast use vstd::seq_lib::group_filter_ensures;

    let raw = res@[k];
    let motions = mapped_motions(mapped@);
    assert(motions.contains(motions[k]));
    law_driver_gets_each_number_of_a_motion(motions[k].0, motions[k].1->0, raw);
}

/// A moment is told in nanoseconds and a latency in whole microseconds, as long as they fit in 64 bits.
pub proof fn law_times_are_told_in_their_units(
    timestamp: Duration,
    nanos: u64,
    latency: Duration,
    micros: u64,
)
    requires
        call_ensures(timestamp_nanos, (timestamp,), nanos),
        call_ensures(latency_micros, (latency,), micros),
    ensures
        timestamp.secs < 0x1_0000_0000 ==> nanos == timestamp.secs * 1_000_000_000
            + timestamp.nanos,
        latency.secs < 0x1_0000_0000 ==> 1000 * micros <= latency.secs * 1_000_000_000
            + latency.nanos < 1000 * micros + 1000,
{
}

} // verus!
