//! How a client sets up a stream and takes part in it.

use crate::error::InterruptibleError;
use crate::float32::F32;
use crate::lobby::{SERVER_DISCONNECTED_MESSAGE, STREAM_STARTING_MESSAGE};
use crate::net::IpAddr;
use crate::packets::{
    Haptics, RequestPacket, ResponsePacket, StreamConfigPacket, VideoFrameHeaderPacket,
};
use crate::server_stream::SETUP_TIMEOUT_MESSAGE;
use crate::session::{
    prediction_multiplier, AudioBufferingConfig, CodecType, FoveatedRenderingDesc,
    OculusFovetionLevel, Settings, SocketProtocol, Switch,
};
use crate::time::Duration;
use vstd::prelude::*;

verus! {

/// How long a client waits for the server to open the stream, in nanoseconds.
pub const STREAM_SETUP_TIMEOUT: u64 = 5_000_000_000;

/// How long a client waits for an IDR frame before it asks for one, in nanoseconds.
pub const IDR_REQUEST_INTERVAL: u64 = 2_000_000_000;

/// The encoding of 0.6, the width of the foveation center where nothing else is set.
pub const CENTER_SIZE_X_BITS: u32 = 0x3f19_999a;

/// The encoding of 0.4, the height of the foveation center where nothing else is set.
pub const CENTER_SIZE_Y_BITS: u32 = 0x3ecc_cccd;

/// The encoding of 0.4, the horizontal shift of the foveation center where nothing else is set.
pub const CENTER_SHIFT_X_BITS: u32 = 0x3ecc_cccd;

/// The encoding of 0.1, the vertical shift of the foveation center where nothing else is set.
pub const CENTER_SHIFT_Y_BITS: u32 = 0x3dcc_cccd;

/// The encoding of 2.0, the foveation ratio at the edges where nothing else is set.
pub const EDGE_RATIO_BITS: u32 = 0x4000_0000;

/// The type of `serde_json` for any JSON document.
#[verifier::external_type_specification]
#[verifier::external_body]
pub struct ExJsonValue(serde_json::Value);

/// The error type of `serde_json`.
#[verifier::external_type_specification]
#[verifier::external_body]
pub struct ExJsonError(serde_json::Error);

/// The document that `serde_json::from_str` reads in a text, if the text is JSON.
pub uninterp spec fn json_document(text: Seq<char>) -> Option<serde_json::Value>;

/// Calls `serde_json::from_str`, which reads a text as one JSON document. Whether it succeeds and
/// which document it gives depend on the text alone. Which texts are JSON is left unsaid, and so is
/// what an error holds.
#[verifier::external_body]
fn parse_json(text: &str) -> (res: Result<serde_json::Value, serde_json::Error>)
    ensures
        match res {
            Ok(document) => json_document(text@) == Some(document),
            Err(_) => json_document(text@) is None,
        },
{
    serde_json::from_str(text)
}

/// Why a stream came to an end.
#[derive(Debug)]
pub enum StreamError {
    /// A request failed or was interrupted.
    Link(InterruptibleError),
    /// The server answered with something else than the session.
    UnexpectedResponse(ResponsePacket),
    /// The session is no JSON document.
    InvalidSession(serde_json::Error),
    /// The settings could not be had from the session.
    InvalidSettings(String),
    /// A socket or a task of the stream failed.
    Stream(String),
    /// The server did not open the stream in time.
    SetupTimeout,
}

impl StreamError {
    /// What went wrong, in words. `detail` is what the answer of the server or the error of the
    /// parser shows of itself, where the error holds one.
    pub open spec fn text(self, detail: Seq<char>) -> Seq<char> {
        match self {
            StreamError::Link(InterruptibleError::Interrupted) => "Interrupted"@,
            StreamError::Link(InterruptibleError::Other(cause)) => cause@,
            StreamError::UnexpectedResponse(_) => "Unexpected response: "@ + detail,
            StreamError::InvalidSession(_) => detail,
            StreamError::InvalidSettings(cause) => cause@,
            StreamError::Stream(cause) => cause@,
            StreamError::SetupTimeout => SETUP_TIMEOUT_MESSAGE@,
        }
    }

    /// What went wrong, in words.
    pub fn message(self, detail: &str) -> (res: String)
        ensures
            res@ == self.text(detail@),
    {
        match self {
            StreamError::Link(InterruptibleError::Interrupted) => "Interrupted".to_owned(),
            StreamError::Link(InterruptibleError::Other(cause)) => cause,
            StreamError::UnexpectedResponse(_) => {
                "Unexpected response: ".to_owned().concat(detail)
            },
            StreamError::InvalidSession(_) => detail.to_owned(),
            StreamError::InvalidSettings(cause) => cause,
            StreamError::Stream(cause) => cause,
            StreamError::SetupTimeout => SETUP_TIMEOUT_MESSAGE.to_owned(),
        }
    }

    /// How the stream ends by this error: it is interrupted where a request was, and it fails
    /// with the words for the error otherwise.
    pub fn into_interruptible(self, detail: &str) -> (res: InterruptibleError)
        ensures
            self == StreamError::Link(InterruptibleError::Interrupted) ==> res
                == InterruptibleError::Interrupted,
            self != StreamError::Link(InterruptibleError::Interrupted) ==> (res
                matches InterruptibleError::Other(text) && text@ == self.text(detail@)),
    {
        match self {
            StreamError::Link(InterruptibleError::Interrupted) => InterruptibleError::Interrupted,
            other => InterruptibleError::Other(other.message(detail)),
        }
    }
}

/// What the renderer is told about a stream.
#[derive(Clone, Copy, Debug, PartialEq, Eq, Structural)]
pub struct StreamConfigInput {
    pub eye_width: u32,
    pub eye_height: u32,
    pub enable_foveation: bool,
    pub foveation_center_size_x: F32,
    pub foveation_center_size_y: F32,
    pub foveation_center_shift_x: F32,
    pub foveation_center_shift_y: F32,
    pub foveation_edge_ratio_x: F32,
    pub foveation_edge_ratio_y: F32,
}

/// What the renderer is told about a stream: its resolution, and the foveation in force or
/// that which stands in for it.
pub open spec fn stream_config_input_spec(
    config: StreamConfigPacket,
    foveated_rendering: Switch<FoveatedRenderingDesc>,
) -> StreamConfigInput {
    match foveated_rendering {
        Switch::Enabled(desc) => StreamConfigInput {
            eye_width: config.view_resolution.x,
            eye_height: config.view_resolution.y,
            enable_foveation: true,
            foveation_center_size_x: desc.center_size_x,
            foveation_center_size_y: desc.center_size_y,
            foveation_center_shift_x: desc.center_shift_x,
            foveation_center_shift_y: desc.center_shift_y,
            foveation_edge_ratio_x: desc.edge_ratio_x,
            foveation_edge_ratio_y: desc.edge_ratio_y,
        },
        Switch::Disabled => StreamConfigInput {
            eye_width: config.view_resolution.x,
            eye_height: config.view_resolution.y,
            enable_foveation: false,
            foveation_center_size_x: F32 { bits: CENTER_SIZE_X_BITS },
            foveation_center_size_y: F32 { bits: CENTER_SIZE_Y_BITS },
            foveation_center_shift_x: F32 { bits: CENTER_SHIFT_X_BITS },
            foveation_center_shift_y: F32 { bits: CENTER_SHIFT_Y_BITS },
            foveation_edge_ratio_x: F32 { bits: EDGE_RATIO_BITS },
            foveation_edge_ratio_y: F32 { bits: EDGE_RATIO_BITS },
        },
    }
}

/// What the renderer is told about a stream.
pub fn stream_config_input(
    config: StreamConfigPacket,
    foveated_rendering: &Switch<FoveatedRenderingDesc>,
) -> (res: StreamConfigInput)
    ensures
        res == stream_config_input_spec(config, *foveated_rendering),
{
    let (enable_foveation, desc) = match foveated_rendering {
        Switch::Enabled(desc) => (true, *desc),
        Switch::Disabled => (
            false,
            FoveatedRenderingDesc {
                center_size_x: F32 { bits: CENTER_SIZE_X_BITS },
                center_size_y: F32 { bits: CENTER_SIZE_Y_BITS },
                center_shift_x: F32 { bits: CENTER_SHIFT_X_BITS },
                center_shift_y: F32 { bits: CENTER_SHIFT_Y_BITS },
                edge_ratio_x: F32 { bits: EDGE_RATIO_BITS },
                edge_ratio_y: F32 { bits: EDGE_RATIO_BITS },
                oculus_foveation_level: OculusFovetionLevel::Off,
                dynamic_oculus_foveation: false,
            },
        ),
    };
    StreamConfigInput {
        eye_width: config.view_resolution.x,
        eye_height: config.view_resolution.y,
        enable_foveation,
        foveation_center_size_x: desc.center_size_x,
        foveation_center_size_y: desc.center_size_y,
        foveation_center_shift_x: desc.center_shift_x,
        foveation_center_shift_y: desc.center_shift_y,
        foveation_edge_ratio_x: desc.edge_ratio_x,
        foveation_edge_ratio_y: desc.edge_ratio_y,
    }
}

/// What the activity of the headset is told about a stream.
#[derive(Clone, Copy, Debug, PartialEq, Eq, Structural)]
pub struct ServerConnectedArgs {
    pub eye_width: i32,
    pub eye_height: i32,
    pub fps: F32,
    pub codec: i32,
    pub realtime_decoder: bool,
    pub oculus_foveation_level: i32,
    pub dynamic_oculus_foveation: bool,
    pub extra_latency: bool,
    pub controller_prediction_multiplier: F32,
}

/// The number that has the same 32 bits in two's complement.
pub open spec fn as_signed(value: u32) -> int {
    if value <= i32::MAX {
        value as int
    } else {
        value - 0x1_0000_0000
    }
}

/// The place of a level in the order from none to the strongest.
pub open spec fn foveation_level_number(level: OculusFovetionLevel) -> int {
    match level {
        OculusFovetionLevel::Off => 0,
        OculusFovetionLevel::Low => 1,
        OculusFovetionLevel::Medium => 2,
        OculusFovetionLevel::High => 3,
        OculusFovetionLevel::HighTop => 4,
    }
}

/// The foveation of the display in force: its level, and whether it adapts.
pub open spec fn display_foveation(foveated_rendering: Switch<FoveatedRenderingDesc>) -> (
    OculusFovetionLevel,
    bool,
) {
    match foveated_rendering {
        Switch::Enabled(desc) => (desc.oculus_foveation_level, desc.dynamic_oculus_foveation),
        Switch::Disabled => (OculusFovetionLevel::Off, false),
    }
}

/// Whether `args` are what the activity of the headset is told about a stream.
pub open spec fn are_connected_args(
    config: StreamConfigPacket,
    settings: Settings,
    args: ServerConnectedArgs,
) -> bool {
    &&& args.eye_width == as_signed(config.view_resolution.x)
    &&& args.eye_height == as_signed(config.view_resolution.y)
    &&& args.fps == config.fps
    &&& args.codec == crate::openvr::codec_number(settings.video.codec)
    &&& args.realtime_decoder == settings.video.client_request_realtime_decoder
    &&& args.oculus_foveation_level == foveation_level_number(
        display_foveation(settings.video.foveated_rendering).0,
    )
    &&& args.dynamic_oculus_foveation == display_foveation(settings.video.foveated_rendering).1
    &&& args.extra_latency == settings.headset.extra_latency_mode
    &&& args.controller_prediction_multiplier == crate::session::prediction_multiplier_spec(
        settings.headset.controllers,
    )
}

fn signed(value: u32) -> (res: i32)
    ensures
        res == as_signed(value),
{
    if value <= 0x7fff_ffff {
        value as i32
    } else {
        (value as i64 - 0x1_0000_0000) as i32
    }
}

/// What the activity of the headset is told about a stream.
pub fn on_server_connected(config: StreamConfigPacket, settings: &Settings) -> (res:
    ServerConnectedArgs)
    ensures
        are_connected_args(config, *settings, res),
{
    let (level, dynamic_oculus_foveation) = match &settings.video.foveated_rendering {
        Switch::Enabled(desc) => (desc.oculus_foveation_level, desc.dynamic_oculus_foveation),
        Switch::Disabled => (OculusFovetionLevel::Off, false),
    };
    let oculus_foveation_level: i32 = match level {
        OculusFovetionLevel::Off => 0,
        OculusFovetionLevel::Low => 1,
        OculusFovetionLevel::Medium => 2,
        OculusFovetionLevel::High => 3,
        OculusFovetionLevel::HighTop => 4,
    };
    let codec: i32 = match settings.video.codec {
        CodecType::HEVC => 1,
        CodecType::H264 => 0,
    };
    ServerConnectedArgs {
        eye_width: signed(config.view_resolution.x),
        eye_height: signed(config.view_resolution.y),
        fps: config.fps,
        codec,
        realtime_decoder: settings.video.client_request_realtime_decoder,
        oculus_foveation_level,
        dynamic_oculus_foveation,
        extra_latency: settings.headset.extra_latency_mode,
        controller_prediction_multiplier: prediction_multiplier(&settings.headset.controllers),
    }
}

/// The audio that a client plays.
#[derive(Clone, Copy, Debug, PartialEq, Eq, Structural)]
pub struct GameAudioPlayback {
    pub channels: u16,
    pub sample_rate: u32,
    pub buffering: AudioBufferingConfig,
}

/// The parts of a stream that depend on the settings. Tracking and statistics are always sent,
/// video and haptics are always received.
#[derive(Clone, Copy, Debug, PartialEq)]
pub struct ClientStreamPlan {
    /// The game audio that is played, if it is enabled.
    pub game_audio: Option<GameAudioPlayback>,
    /// The number of microphone channels that are recorded, if the microphone is enabled.
    pub microphone_channels: Option<u16>,
    /// Whether video is HEVC rather than H.264.
    pub hevc: bool,
    /// Whether video is protected by error correction.
    pub enable_fec: bool,
}

/// The parts of a stream that depend on the settings.
pub open spec fn client_plan(config: StreamConfigPacket, settings: Settings) -> ClientStreamPlan {
    ClientStreamPlan {
        game_audio: match settings.audio.game_audio {
            Switch::Enabled(desc) => Some(
                GameAudioPlayback {
                    channels: 2,
                    sample_rate: config.game_audio_sample_rate,
                    buffering: desc.buffering_config,
                },
            ),
            Switch::Disabled => None,
        },
        microphone_channels: if settings.audio.microphone is Enabled {
            Some(1u16)
        } else {
            None
        },
        hevc: settings.video.codec == CodecType::HEVC,
        enable_fec: settings.connection.enable_fec,
    }
}

fn plan_streams(config: StreamConfigPacket, settings: &Settings) -> (res: ClientStreamPlan)
    ensures
        res == client_plan(config, *settings),
{
    ClientStreamPlan {
        game_audio: match &settings.audio.game_audio {
            Switch::Enabled(desc) => Some(
                GameAudioPlayback {
                    channels: 2,
                    sample_rate: config.game_audio_sample_rate,
                    buffering: desc.buffering_config,
                },
            ),
            Switch::Disabled => None,
        },
        microphone_channels: match &settings.audio.microphone {
            Switch::Enabled(_) => Some(1),
            Switch::Disabled => None,
        },
        hevc: match settings.video.codec {
            CodecType::HEVC => true,
            CodecType::H264 => false,
        },
        enable_fec: settings.connection.enable_fec,
    }
}

/// The tasks of a stream. The stream is over when one of them ends.
#[derive(Clone, Copy, Debug, PartialEq, Eq, Structural)]
pub enum ClientTask {
    Receive,
    GameAudio,
    Microphone,
    TrackingSend,
    StatisticsSend,
    VideoReceive,
    HapticsReceive,
    Decoder,
}

/// Where a client stands with a stream.
#[derive(Debug)]
pub enum StreamPhase {
    /// Nothing has happened yet.
    Start,
    /// Asking for the session.
    AwaitSession,
    /// Working the settings out of the session.
    AwaitSettings,
    /// Opening the socket of the stream.
    AwaitSocket { settings: Settings },
    /// Telling the server that the socket is open.
    AwaitReady { settings: Settings },
    /// Waiting for the server to open the stream.
    AwaitServer { settings: Settings },
    /// Streaming.
    Streaming,
    /// Over.
    Over,
}

/// What a client learns about a stream.
#[derive(Debug)]
pub enum StreamEvent {
    /// The stream is to be set up.
    Begin,
    /// How the server answered a request.
    Answered(Result<ResponsePacket, InterruptibleError>),
    /// The settings in the session, or why they could not be had.
    SettingsReady(Result<Settings, String>),
    /// Whether the socket could be opened, or why not.
    Listening(Result<(), String>),
    /// Whether the server opened the stream, or why not.
    Accepted(Result<(), String>),
    /// The server did not open the stream in time.
    TimedOut,
    /// A task ended, perhaps by an error.
    TaskEnded { task: ClientTask, result: Result<(), String> },
}

/// What a client does about a stream.
#[derive(Debug)]
pub enum StreamAction {
    /// Send a request to the server.
    Request(RequestPacket),
    /// Work the settings out of the session.
    MergeSession(serde_json::Value),
    /// Keep whether the lobby is dark.
    StoreDarkMode(bool),
    /// Begin to gather statistics, over this many frames.
    NewStatistics(u64),
    /// Open the socket of the stream.
    Listen { port: u16, protocol: SocketProtocol },
    /// Wait for the server to open the stream, for this many nanoseconds.
    Accept { server_ip: IpAddr, port: u16, timeout: u64 },
    /// Show a message in the lobby.
    Show(&'static str),
    /// Tell the renderer about the stream.
    SetStreamConfig(StreamConfigInput),
    /// Tell the activity of the headset about the stream.
    ServerConnected(ServerConnectedArgs),
    /// Run the tasks of the stream.
    RunTasks(ClientStreamPlan),
    /// End with this result.
    End(Result<(), StreamError>),
}

/// Whether an event can be the answer to what is being done.
pub open spec fn stream_answers(phase: StreamPhase, event: StreamEvent) -> bool {
    match phase {
        StreamPhase::Start => event is Begin,
        StreamPhase::AwaitSession => event is Answered,
        StreamPhase::AwaitSettings => event is SettingsReady,
        StreamPhase::AwaitSocket { .. } => event is Listening,
        StreamPhase::AwaitReady { .. } => event is Answered,
        StreamPhase::AwaitServer { .. } => event is Accepted || event is TimedOut,
        StreamPhase::Streaming => event is TaskEnded,
        StreamPhase::Over => false,
    }
}

/// The stream is over, with an error.
pub open spec fn fails(next: StreamPhase, actions: Seq<StreamAction>, cause: StreamError) -> bool {
    next == StreamPhase::Over && actions =~= seq![StreamAction::End(Err(cause))]
}

/// How a client goes on with the session that it asked for.
pub open spec fn session_goes_on(
    answer: Result<ResponsePacket, InterruptibleError>,
    next: StreamPhase,
    actions: Seq<StreamAction>,
) -> bool {
    match answer {
        Err(cause) => fails(next, actions, StreamError::Link(cause)),
        Ok(ResponsePacket::Session(text)) => match json_document(text@) {
            Some(document) => {
                &&& next == StreamPhase::AwaitSettings
                &&& actions =~= seq![StreamAction::MergeSession(document)]
            },
            None => {
                &&& next == StreamPhase::Over
                &&& actions.len() == 1
                &&& actions[0] matches StreamAction::End(Err(StreamError::InvalidSession(_)))
            },
        },
        Ok(other) => fails(next, actions, StreamError::UnexpectedResponse(other)),
    }
}

/// How a client goes on when the server has opened the stream.
pub open spec fn acceptance_goes_on(
    config: StreamConfigPacket,
    settings: Settings,
    next: StreamPhase,
    actions: Seq<StreamAction>,
) -> bool {
    &&& next == StreamPhase::Streaming
    &&& actions.len() == 4
    &&& actions[0] == StreamAction::Show(STREAM_STARTING_MESSAGE)
    &&& actions[1] == StreamAction::SetStreamConfig(
        stream_config_input_spec(config, settings.video.foveated_rendering),
    )
    &&& actions[2] matches StreamAction::ServerConnected(args) && are_connected_args(
        config,
        settings,
        args,
    )
    &&& actions[3] == StreamAction::RunTasks(client_plan(config, settings))
}

/// How a client goes on with a stream.
pub open spec fn stream_goes_on(
    phase: StreamPhase,
    event: StreamEvent,
    server_ip: IpAddr,
    config: StreamConfigPacket,
    next: StreamPhase,
    actions: Seq<StreamAction>,
) -> bool {
    match (phase, event) {
        (StreamPhase::Start, StreamEvent::Begin) => {
            &&& next == StreamPhase::AwaitSession
            &&& actions =~= seq![StreamAction::Request(RequestPacket::Session)]
        },
        (StreamPhase::AwaitSession, StreamEvent::Answered(answer)) => session_goes_on(
            answer,
            next,
            actions,
        ),
        (StreamPhase::AwaitSettings, StreamEvent::SettingsReady(Ok(settings))) => {
            &&& next == (StreamPhase::AwaitSocket { settings })
            &&& actions =~= seq![
                StreamAction::StoreDarkMode(settings.extra.client_dark_mode),
                StreamAction::NewStatistics(settings.connection.statistics_history_size),
                StreamAction::Listen {
                    port: settings.connection.stream_port,
                    protocol: settings.connection.stream_protocol,
                },
            ]
        },
        (StreamPhase::AwaitSettings, StreamEvent::SettingsReady(Err(cause))) => fails(
            next,
            actions,
            StreamError::InvalidSettings(cause),
        ),
        (StreamPhase::AwaitSocket { settings }, StreamEvent::Listening(Ok(_))) => {
            &&& next == (StreamPhase::AwaitReady { settings })
            &&& actions =~= seq![StreamAction::Request(RequestPacket::ClientStreamSocketReady)]
        },
        (StreamPhase::AwaitSocket { .. }, StreamEvent::Listening(Err(cause))) => fails(
            next,
            actions,
            StreamError::Stream(cause),
        ),
        (StreamPhase::AwaitReady { settings }, StreamEvent::Answered(Ok(_))) => {
            &&& next == (StreamPhase::AwaitServer { settings })
            &&& actions =~= seq![
                StreamAction::Accept {
                    server_ip,
                    port: settings.connection.stream_port,
                    timeout: STREAM_SETUP_TIMEOUT,
                },
            ]
        },
        (StreamPhase::AwaitReady { .. }, StreamEvent::Answered(Err(cause))) => fails(
            next,
            actions,
            StreamError::Link(cause),
        ),
        (StreamPhase::AwaitServer { settings }, StreamEvent::Accepted(Ok(_))) => acceptance_goes_on(
            config,
            settings,
            next,
            actions,
        ),
        (StreamPhase::AwaitServer { .. }, StreamEvent::Accepted(Err(cause))) => fails(
            next,
            actions,
            StreamError::Stream(cause),
        ),
        (StreamPhase::AwaitServer { .. }, StreamEvent::TimedOut) => fails(
            next,
            actions,
            StreamError::SetupTimeout,
        ),
        (
            StreamPhase::Streaming,
            StreamEvent::TaskEnded { task: ClientTask::Receive, .. },
        ) => {
            &&& next == StreamPhase::Over
            &&& actions =~= seq![
                StreamAction::Show(SERVER_DISCONNECTED_MESSAGE),
                StreamAction::End(Ok(())),
            ]
        },
        (StreamPhase::Streaming, StreamEvent::TaskEnded { result: Ok(_), .. }) => {
            &&& next == StreamPhase::Over
            &&& actions =~= seq![StreamAction::End(Ok(()))]
        },
        (StreamPhase::Streaming, StreamEvent::TaskEnded { result: Err(cause), .. }) => fails(
            next,
            actions,
            StreamError::Stream(cause),
        ),
        _ => false,
    }
}

fn failure(cause: StreamError) -> (res: (StreamPhase, Vec<StreamAction>))
    ensures
        fails(res.0, res.1@, cause),
{
    let mut actions: Vec<StreamAction> = Vec::new();
    actions.push(StreamAction::End(Err(cause)));
    (StreamPhase::Over, actions)
}

/// How a client goes on with what the parser made of the session.
pub open spec fn parsed_goes_on(
    parsed: Result<serde_json::Value, serde_json::Error>,
    next: StreamPhase,
    actions: Seq<StreamAction>,
) -> bool {
    match parsed {
        Ok(document) => {
            &&& next == StreamPhase::AwaitSettings
            &&& actions =~= seq![StreamAction::MergeSession(document)]
        },
        Err(cause) => fails(next, actions, StreamError::InvalidSession(cause)),
    }
}

/// Goes on with what the parser made of the session: works the settings out of the document, or
/// fails by the error of the parser.
pub fn session_parsed(parsed: Result<serde_json::Value, serde_json::Error>) -> (res: (
    StreamPhase,
    Vec<StreamAction>,
))
    ensures
        parsed_goes_on(parsed, res.0, res.1@),
{
    match parsed {
        Ok(document) => {
            let mut actions: Vec<StreamAction> = Vec::new();
            actions.push(StreamAction::MergeSession(document));
            (StreamPhase::AwaitSettings, actions)
        },
        Err(cause) => failure(StreamError::InvalidSession(cause)),
    }
}

/// Goes on with the answer of the server to the request for the session.
pub fn session_answered(answer: Result<ResponsePacket, InterruptibleError>) -> (res: (
    StreamPhase,
    Vec<StreamAction>,
))
    ensures
        session_goes_on(answer, res.0, res.1@),
{
    match answer {
        Err(cause) => failure(StreamError::Link(cause)),
        Ok(ResponsePacket::Session(text)) => session_parsed(parse_json(text.as_str())),
        Ok(other) => failure(StreamError::UnexpectedResponse(other)),
    }
}

fn after_acceptance(config: StreamConfigPacket, settings: &Settings) -> (res: (
    StreamPhase,
    Vec<StreamAction>,
))
    ensures
        acceptance_goes_on(config, *settings, res.0, res.1@),
{
    let mut actions: Vec<StreamAction> = Vec::new();
    actions.push(StreamAction::Show(STREAM_STARTING_MESSAGE));
    actions.push(
        StreamAction::SetStreamConfig(
            stream_config_input(config, &settings.video.foveated_rendering),
        ),
    );
    actions.push(StreamAction::ServerConnected(on_server_connected(config, settings)));
    actions.push(StreamAction::RunTasks(plan_streams(config, settings)));
    (StreamPhase::Streaming, actions)
}

/// Goes on with a stream. The actions are taken in their order.
pub fn streaming_pipeline(
    phase: StreamPhase,
    event: StreamEvent,
    server_ip: IpAddr,
    config: StreamConfigPacket,
) -> (res: (StreamPhase, Vec<StreamAction>))
    requires
        stream_answers(phase, event),
    ensures
        stream_goes_on(phase, event, server_ip, config, res.0, res.1@),
{
    let mut actions: Vec<StreamAction> = Vec::new();
    match (phase, event) {
        (StreamPhase::Start, StreamEvent::Begin) => {
            actions.push(StreamAction::Request(RequestPacket::Session));
            (StreamPhase::AwaitSession, actions)
        },
        (StreamPhase::AwaitSession, StreamEvent::Answered(answer)) => session_answered(answer),
        (StreamPhase::AwaitSettings, StreamEvent::SettingsReady(Ok(settings))) => {
            actions.push(StreamAction::StoreDarkMode(settings.extra.client_dark_mode));
            actions.push(StreamAction::NewStatistics(settings.connection.statistics_history_size));
            actions.push(
                StreamAction::Listen {
                    port: settings.connection.stream_port,
                    protocol: settings.connection.stream_protocol,
                },
            );
            (StreamPhase::AwaitSocket { settings }, actions)
        },
        (StreamPhase::AwaitSettings, StreamEvent::SettingsReady(Err(cause))) => failure(
            StreamError::InvalidSettings(cause),
        ),
        (StreamPhase::AwaitSocket { settings }, StreamEvent::Listening(Ok(_))) => {
            actions.push(StreamAction::Request(RequestPacket::ClientStreamSocketReady));
            (StreamPhase::AwaitReady { settings }, actions)
        },
        (StreamPhase::AwaitSocket { .. }, StreamEvent::Listening(Err(cause))) => failure(
            StreamError::Stream(cause),
        ),
        (StreamPhase::AwaitReady { settings }, StreamEvent::Answered(Ok(_))) => {
            actions.push(
                StreamAction::Accept {
                    server_ip,
                    port: settings.connection.stream_port,
                    timeout: STREAM_SETUP_TIMEOUT,
                },
            );
            (StreamPhase::AwaitServer { settings }, actions)
        },
        (StreamPhase::AwaitReady { .. }, StreamEvent::Answered(Err(cause))) => failure(
            StreamError::Link(cause),
        ),
        (StreamPhase::AwaitServer { settings }, StreamEvent::Accepted(Ok(_))) => {
            after_acceptance(config, &settings)
        },
        (StreamPhase::AwaitServer { .. }, StreamEvent::Accepted(Err(cause))) => failure(
            StreamError::Stream(cause),
        ),
        (StreamPhase::AwaitServer { .. }, StreamEvent::TimedOut) => failure(
            StreamError::SetupTimeout,
        ),
        (StreamPhase::Streaming, StreamEvent::TaskEnded { task, result }) => {
            match task {
                ClientTask::Receive => {
                    actions.push(StreamAction::Show(SERVER_DISCONNECTED_MESSAGE));
                    actions.push(StreamAction::End(Ok(())));
                    (StreamPhase::Over, actions)
                },
                _ => match result {
                    Ok(_) => {
                        actions.push(StreamAction::End(Ok(())));
                        (StreamPhase::Over, actions)
                    },
                    Err(cause) => failure(StreamError::Stream(cause)),
                },
            }
        },
        _ => unreached(),
    }
}

/// The header of a video packet, as the decoder reads it.
#[derive(Clone, Copy, Debug, PartialEq, Eq, Structural)]
pub struct VideoFrame {
    pub packet_counter: u32,
    pub tracking_frame_index: u64,
    pub video_frame_index: u64,
    pub sent_time: u64,
    pub frame_byte_size: u32,
    pub fec_index: u32,
    pub fec_percentage: u16,
}

/// The header that the decoder reads, with all that the server sent.
pub fn video_frame(header: VideoFrameHeaderPacket) -> (res: VideoFrame)
    ensures
        res == (VideoFrame {
            packet_counter: header.packet_counter,
            tracking_frame_index: header.tracking_frame_index,
            video_frame_index: header.video_frame_index,
            sent_time: header.sent_time,
            frame_byte_size: header.frame_byte_size,
            fec_index: header.fec_index,
            fec_percentage: header.fec_percentage,
        }),
{
    VideoFrame {
        packet_counter: header.packet_counter,
        tracking_frame_index: header.tracking_frame_index,
        video_frame_index: header.video_frame_index,
        sent_time: header.sent_time,
        frame_byte_size: header.frame_byte_size,
        fec_index: header.fec_index,
        fec_percentage: header.fec_percentage,
    }
}

/// What the decoder is handed for a video packet: its header in memory, and the payload.
pub fn decoder_buffer(frame_bytes: &Vec<u8>, payload: &Vec<u8>) -> (res: Vec<u8>)
    ensures
        res@ == frame_bytes@ + payload@,
{
    let mut buffer: Vec<u8> = Vec::new();
    let mut i: usize = 0;
    while i < frame_bytes.len()
        invariant
            i <= frame_bytes.len(),
            buffer@ == frame_bytes@.take(i as int),
        decreases frame_bytes.len() - i,
    {
        buffer.push(frame_bytes[i]);
        assert(frame_bytes@.take(i + 1) =~= frame_bytes@.take(i as int).push(
            frame_bytes[i as int],
        ));
        i = i + 1;
    }
    assert(frame_bytes@.take(i as int) =~= frame_bytes@);
    let mut k: usize = 0;
    while k < payload.len()
        invariant
            k <= payload.len(),
            buffer@ == frame_bytes@ + payload@.take(k as int),
        decreases payload.len() - k,
    {
        buffer.push(payload[k]);
        assert(frame_bytes@ + payload@.take(k + 1) =~= (frame_bytes@ + payload@.take(
            k as int,
        )).push(payload[k as int]));
        k = k + 1;
    }
    assert(payload@.take(k as int) =~= payload@);
    buffer
}

/// The moment that a video packet belongs to.
pub fn video_timestamp(header: &VideoFrameHeaderPacket) -> (res: Duration)
    ensures
        res.total() == header.tracking_frame_index,
        res.wf(),
{
    Duration::from_nanos(header.tracking_frame_index)
}

/// A vibration of a controller.
#[derive(Clone, Copy, Debug, PartialEq, Eq, Structural)]
pub struct HapticsEvent {
    pub device_id: u64,
    pub duration: Duration,
    pub frequency: F32,
    pub amplitude: F32,
}

/// The vibration that the server asks for.
pub fn haptics_event(packet: Haptics) -> (res: HapticsEvent)
    ensures
        res == (HapticsEvent {
            device_id: packet.path,
            duration: packet.duration,
            frequency: packet.frequency,
            amplitude: packet.amplitude,
        }),
{
    HapticsEvent {
        device_id: packet.path,
        duration: packet.duration,
        frequency: packet.frequency,
        amplitude: packet.amplitude,
    }
}

/// Watches for the IDR frame that the decoder needs to begin with, and asks for it again when it
/// stays away.
#[derive(Clone, Copy, Debug, PartialEq)]
pub struct IdrWatch {
    pub deadline: Option<u64>,
}

/// What is done about a video packet.
#[derive(Clone, Copy, Debug, PartialEq, Eq, Structural)]
pub enum PacketAction {
    /// Leave the loop that feeds the decoder.
    Leave,
    /// Ask the server for an IDR frame, and decode the packet.
    RequestIdrAndDecode,
    /// Decode the packet.
    Decode,
}

impl IdrWatch {
    /// Nothing is awaited yet.
    pub fn new() -> (res: IdrWatch)
        ensures
            res.deadline is None,
    {
        IdrWatch { deadline: None }
    }

    /// The state after a packet, while the stream goes on.
    pub open spec fn after(self, idr_parsed: bool, now: int) -> Option<int> {
        match self.deadline {
            None => if idr_parsed {
                None
            } else {
                Some(now + IDR_REQUEST_INTERVAL)
            },
            Some(deadline) => if !idr_parsed && deadline < now {
                None
            } else {
                Some(deadline as int)
            },
        }
    }

    /// Whether a packet makes the client ask for an IDR frame.
    pub open spec fn asks(self, idr_parsed: bool, now: int) -> bool {
        !idr_parsed && (self.deadline matches Some(deadline) && deadline < now)
    }

    /// Says what is done about a video packet: nothing once streaming is off or the headset
    /// is paused. While no IDR frame has been parsed, a request for one is due as soon as
    /// the deadline is past, and the next packet sets the next deadline.
    pub fn on_packet(&mut self, should_stream: bool, is_resumed: bool, idr_parsed: bool, now: u64)
        -> (res: PacketAction)
        requires
            now <= u64::MAX - IDR_REQUEST_INTERVAL,
        ensures
            !should_stream || !is_resumed ==> res == PacketAction::Leave && *final(self) == *old(
                self,
            ),
            should_stream && is_resumed ==> {
                &&& res == if old(self).asks(idr_parsed, now as int) {
                    PacketAction::RequestIdrAndDecode
                } else {
                    PacketAction::Decode
                }
                &&& match old(self).after(idr_parsed, now as int) {
                    Some(deadline) => final(self).deadline matches Some(d) && d == deadline,
                    None => final(self).deadline is None,
                }
            },
    {
        if !should_stream || !is_resumed {
            return PacketAction::Leave;
        }
        if !idr_parsed {
            match self.deadline {
                Some(deadline) => {
                    if deadline < now {
                        self.deadline = None;
                        return PacketAction::RequestIdrAndDecode;
                    }
                },
                None => {
                    self.deadline = Some(now + IDR_REQUEST_INTERVAL);
                },
            }
        }
        PacketAction::Decode
    }
}

/// What happens when no more packets are decoded.
#[derive(Clone, Copy, Debug, PartialEq, Eq, Structural)]
pub enum DecoderEvent {
    /// The last packet was decoded.
    FeedEnded,
    /// The socket that the decoder reads from is closed. Whether there is a decoder then.
    SocketClosed { has_decoder: bool },
}

/// What is done about the decoder when no more packets are decoded.
#[derive(Clone, Copy, Debug, PartialEq, Eq, Structural)]
pub enum DecoderAction {
    /// Close the socket that the decoder reads from, and look for a decoder.
    CloseSocket,
    /// Tell the decoder that the stream is over.
    Disconnect,
    /// Stop the decoder, and wait until it has stopped.
    StopAndWait,
    /// Drop the decoder.
    Forget,
}

/// What is done about the decoder when no more packets are decoded. The socket is closed first.
/// The decoder is told and stopped where there is one after that.
pub fn decoder_shutdown(event: DecoderEvent) -> (res: Vec<DecoderAction>)
    ensures
        res@ == match event {
            DecoderEvent::FeedEnded => seq![DecoderAction::CloseSocket],
            DecoderEvent::SocketClosed { has_decoder: true } => seq![
                DecoderAction::Disconnect,
                DecoderAction::StopAndWait,
                DecoderAction::Forget,
            ],
            DecoderEvent::SocketClosed { has_decoder: false } => seq![DecoderAction::Forget],
        },
{
    let mut actions: Vec<DecoderAction> = Vec::new();
    match event {
        DecoderEvent::FeedEnded => {
            actions.push(DecoderAction::CloseSocket);
        },
        DecoderEvent::SocketClosed { has_decoder } => {
            if has_decoder {
                actions.push(DecoderAction::Disconnect);
                actions.push(DecoderAction::StopAndWait);
            }
            actions.push(DecoderAction::Forget);
        },
    }
    actions
}

/// A run of the watch: the states before each packet, and when the packets come. No IDR frame is
/// parsed in between.
pub open spec fn is_watch_run(states: Seq<IdrWatch>, times: Seq<int>) -> bool {
    &&& states.len() == times.len()
    &&& forall|i: int, j: int| 0 <= i <= j < times.len() ==> times[i] <= times[j]
    &&& forall|i: int| 0 <= i < states.len() - 1 ==> #[trigger] is_watch_step(states, times, i)
}

/// Whether a state follows the one before it.
pub open spec fn is_watch_step(states: Seq<IdrWatch>, times: Seq<int>, i: int) -> bool {
    match states[i].after(false, times[i]) {
        Some(deadline) => states[i + 1].deadline matches Some(d) && d == deadline,
        None => states[i + 1].deadline is None,
    }
}

/// Between two requests for an IDR frame there are more than two seconds.
pub proof fn law_idr_requests_are_spaced(states: Seq<IdrWatch>, times: Seq<int>, a: int, b: int)
    requires
        is_watch_run(states, times),
        0 <= a < b < states.len(),
        states[a].asks(false, times[a]),
        states[b].asks(false, times[b]),
    ensures
        times[b] - times[a] > IDR_REQUEST_INTERVAL,
{
    assert(is_watch_step(states, times, a));
    assert(states[a].after(false, times[a]) is None);
    assert(states[a + 1].deadline is None);
    lemma_deadline_is_late(states, times, a, b);
}

proof fn lemma_deadline_is_late(states: Seq<IdrWatch>, times: Seq<int>, a: int, b: int)
    requires
        is_watch_run(states, times),
        0 <= a < b < states.len(),
        states[a + 1].deadline is None,
    ensures
        states[b].deadline matches Some(d) ==> d >= times[a] + IDR_REQUEST_INTERVAL,
    decreases b - a,
{
    if b > a + 1 {
        lemma_deadline_is_late(states, times, a, b - 1);
        assert(is_watch_step(states, times, b - 1));
        assert(times[a] <= times[b - 1]);
    }
}

/// The IDR frame is asked for again: of two packets between which no IDR frame is parsed, the
/// first of which sets the deadline, the second asks for it once the deadline is past.
pub proof fn law_missing_idr_is_asked_for(first: IdrWatch, second: IdrWatch, set: int, now: int)
    requires
        first.deadline is None,
        first.after(false, set) matches Some(d) && second.deadline == Some(d as u64) && d
            <= u64::MAX,
        0 <= set,
        now > set + IDR_REQUEST_INTERVAL,
    ensures
        second.asks(false, now),
{
}

/// The session reaches the client as the server put it in words: where the server answers the
/// request for the session by a text that is JSON, the client works its settings out of the
/// document in that very text.
pub proof fn law_session_is_merged_as_sent(
    reply: crate::server::Reply,
    session_json: String,
    next: StreamPhase,
    actions: Seq<StreamAction>,
)
    requires
        crate::server::is_reply_to(RequestPacket::Session, reply),
        session_goes_on(Ok(reply.packet(session_json)), next, actions),
    ensures
        json_document(session_json@) matches Some(document) ==> {
            &&& next == StreamPhase::AwaitSettings
            &&& actions =~= seq![StreamAction::MergeSession(document)]
        },
{
}

/// A stream is set up in this order, and any of its steps can be the last.
pub open spec fn stage(phase: StreamPhase) -> int {
    match phase {
        StreamPhase::Start => 0,
        StreamPhase::AwaitSession => 1,
        StreamPhase::AwaitSettings => 2,
        StreamPhase::AwaitSocket { .. } => 3,
        StreamPhase::AwaitReady { .. } => 4,
        StreamPhase::AwaitServer { .. } => 5,
        StreamPhase::Streaming => 6,
        StreamPhase::Over => 7,
    }
}

/// The set-up of a stream takes its steps in order: every event leads to the next step or to the
/// end, and the end is reached exactly where the last action is to end.
pub proof fn law_stream_is_set_up_in_order(
    phase: StreamPhase,
    event: StreamEvent,
    server_ip: IpAddr,
    config: StreamConfigPacket,
    next: StreamPhase,
    actions: Seq<StreamAction>,
)
    requires
        stream_goes_on(phase, event, server_ip, config, next, actions),
    ensures
        !(phase is Over),
        stage(next) == stage(phase) + 1 || next is Over,
        actions.len() > 0,
        next is Over <==> actions.last() is End,
{
}

/// A decoder gets every number of the header that the server sent, each in its own place.
pub proof fn law_decoder_gets_the_header(
    header: VideoFrameHeaderPacket,
    res: VideoFrame,
)
    requires
        call_ensures(video_frame, (header,), res),
    ensures
        res.packet_counter == header.packet_counter,
        res.tracking_frame_index == header.tracking_frame_index,
        res.video_frame_index == header.video_frame_index,
        res.sent_time == header.sent_time,
        res.frame_byte_size == header.frame_byte_size,
        res.fec_index == header.fec_index,
        res.fec_percentage == header.fec_percentage,
{
}

/// A vibration is that of the packet: the device on its path, as long, as fast and as strong.
pub proof fn law_vibration_is_that_of_the_packet(
    packet: Haptics,
    res: HapticsEvent,
)
    requires
        call_ensures(haptics_event, (packet,), res),
    ensures
        res.device_id == packet.path,
        res.duration.secs == packet.duration.secs,
        res.duration.nanos == packet.duration.nanos,
        res.frequency.bits == packet.frequency.bits,
        res.amplitude.bits == packet.amplitude.bits,
{
}

/// A decoder is told and stopped only where there is one, in this order, after the socket was
/// closed, and it is dropped in any case.
pub proof fn law_decoder_is_stopped_before_it_is_dropped(
    event: DecoderEvent,
    res: Vec<DecoderAction>,
)
    requires
        call_ensures(decoder_shutdown, (event,), res),
    ensures
        res@.contains(DecoderAction::CloseSocket) <==> event is FeedEnded,
        res@.contains(DecoderAction::Disconnect) <==> event == (
        DecoderEvent::SocketClosed { has_decoder: true }),
        res@.contains(DecoderAction::StopAndWait) <==> event == (
        DecoderEvent::SocketClosed { has_decoder: true }),
        event is FeedEnded ==> res@.len() == 1,
        event is SocketClosed ==> res@.last() == DecoderAction::Forget,
        event == (DecoderEvent::SocketClosed { has_decoder: true }) ==> res@[0]
            == DecoderAction::Disconnect && res@[1] == DecoderAction::StopAndWait
            && res@.len() == 3,
        event == (DecoderEvent::SocketClosed { has_decoder: false }) ==> res@.len()
            == 1,
{
    let actions = res@;
    match event {
        DecoderEvent::FeedEnded => {
            assert(actions[0] == DecoderAction::CloseSocket);
        },
        DecoderEvent::SocketClosed { has_decoder } => {
            if has_decoder {
                assert(actions[0] == DecoderAction::Disconnect);
                assert(actions[1] == DecoderAction::StopAndWait);
            }
        },
    }
}

/// While no IDR frame is parsed, the first packet sets a deadline two seconds ahead, packets up to
/// the deadline change nothing, and one past it asks and takes the deadline back. Once an IDR frame
/// is parsed nothing is asked and nothing changes.
pub proof fn law_idr_deadline_is_two_seconds_ahead(watch: IdrWatch, now: int)
    ensures
        watch.deadline is None ==> watch.after(false, now) == Some(now + 2_000_000_000)
            && !watch.asks(false, now),
        watch.deadline matches Some(deadline) ==> {
            &&& watch.asks(false, now) <==> deadline < now
            &&& watch.after(false, now) is None <==> deadline < now
            &&& deadline >= now ==> watch.after(false, now) == Some(deadline as int)
            &&& watch.after(true, now) == Some(deadline as int)
        },
        !watch.asks(true, now),
        watch.deadline is None ==> watch.after(true, now) is None,
{
}

/// The activity of the headset is told each thing from its own source: the sizes and the rate of
/// the stream, and of the settings the codec, whether the decoder works in real time, the
/// foveation of the display, whether more latency is taken, and how far poses are predicted.
pub proof fn law_activity_is_told_the_stream(
    config: StreamConfigPacket,
    settings: Settings,
    args: ServerConnectedArgs,
)
    requires
        call_ensures(on_server_connected, (config, &settings), args),
    ensures
        (args.eye_width - config.view_resolution.x) % 0x1_0000_0000 == 0,
        (args.eye_height - config.view_resolution.y) % 0x1_0000_0000 == 0,
        config.view_resolution.x <= i32::MAX ==> args.eye_width == config.view_resolution.x,
        config.view_resolution.y <= i32::MAX ==> args.eye_height == config.view_resolution.y,
        args.fps.bits == config.fps.bits,
        settings.video.codec == CodecType::HEVC ==> args.codec == 1,
        settings.video.codec == CodecType::H264 ==> args.codec == 0,
        args.realtime_decoder == settings.video.client_request_realtime_decoder,
        args.extra_latency == settings.headset.extra_latency_mode,
        settings.video.foveated_rendering matches Switch::Enabled(desc) ==> {
            &&& args.dynamic_oculus_foveation == desc.dynamic_oculus_foveation
            &&& desc.oculus_foveation_level == OculusFovetionLevel::Off <==>
                args.oculus_foveation_level == 0
            &&& desc.oculus_foveation_level == OculusFovetionLevel::Low <==>
                args.oculus_foveation_level == 1
            &&& desc.oculus_foveation_level == OculusFovetionLevel::Medium <==>
                args.oculus_foveation_level == 2
            &&& desc.oculus_foveation_level == OculusFovetionLevel::High <==>
                args.oculus_foveation_level == 3
            &&& desc.oculus_foveation_level == OculusFovetionLevel::HighTop <==>
                args.oculus_foveation_level == 4
        },
        settings.video.foveated_rendering is Disabled ==> args.oculus_foveation_level == 0
            && !args.dynamic_oculus_foveation,
        settings.headset.controllers matches Switch::Enabled(desc) ==>
            args.controller_prediction_multiplier.bits == desc.prediction_multiplier.bits,
        settings.headset.controllers is Disabled ==> args.controller_prediction_multiplier.bits
            == 0,
{
}

/// The renderer is told the sizes of the stream and the foveation in force, each value in its own
/// place. Without foveation it is told that there is none, and the center is 0.6 wide and 0.4 high,
/// shifted by 0.4 and 0.1, with a ratio of 2 at the edges.
pub proof fn law_renderer_is_told_the_stream(
    config: StreamConfigPacket,
    foveated_rendering: Switch<FoveatedRenderingDesc>,
    input: StreamConfigInput,
)
    requires
        call_ensures(stream_config_input, (config, &foveated_rendering), input),
    ensures
        ({
            &&& input.eye_width == config.view_resolution.x
            &&& input.eye_height == config.view_resolution.y
            &&& input.enable_foveation <==> foveated_rendering is Enabled
            &&& foveated_rendering matches Switch::Enabled(desc) ==> {
                &&& input.foveation_center_size_x.bits == desc.center_size_x.bits
                &&& input.foveation_center_size_y.bits == desc.center_size_y.bits
                &&& input.foveation_center_shift_x.bits == desc.center_shift_x.bits
                &&& input.foveation_center_shift_y.bits == desc.center_shift_y.bits
                &&& input.foveation_edge_ratio_x.bits == desc.edge_ratio_x.bits
                &&& input.foveation_edge_ratio_y.bits == desc.edge_ratio_y.bits
            }
            &&& foveated_rendering is Disabled ==> {
                &&& input.foveation_center_size_x.bits == 0x3f19_999a
                &&& input.foveation_center_size_y.bits == 0x3ecc_cccd
                &&& input.foveation_center_shift_x.bits == 0x3ecc_cccd
                &&& input.foveation_center_shift_y.bits == 0x3dcc_cccd
                &&& input.foveation_edge_ratio_x.bits == 0x4000_0000
                &&& input.foveation_edge_ratio_y.bits == 0x4000_0000
            }
        }),
{
}

/// A client plays game audio exactly where it is enabled, on two channels, at the rate that the
/// server sent and with the buffering that is set for game audio. It records the microphone exactly
/// where that is enabled, on one channel. Video is decoded by the codec and the error correction
/// that are set.
pub proof fn law_client_plays_what_is_enabled(config: StreamConfigPacket, settings: Settings)
    ensures
        ({
            let plan = client_plan(config, settings);
            &&& plan.game_audio is Some <==> settings.audio.game_audio is Enabled
            &&& plan.game_audio matches Some(playback) ==> {
                &&& playback.channels == 2
                &&& playback.sample_rate == config.game_audio_sample_rate
                &&& settings.audio.game_audio matches Switch::Enabled(desc) && playback.buffering
                    == desc.buffering_config
            }
            &&& plan.microphone_channels is Some <==> settings.audio.microphone is Enabled
            &&& plan.microphone_channels matches Some(channels) ==> channels == 1
            &&& plan.hevc <==> settings.video.codec == CodecType::HEVC
            &&& plan.enable_fec == settings.connection.enable_fec
        }),
{
}

/// What a client asks of the server while it sets up a stream: the session first, and word that its
/// socket is open once it is. Nothing else is asked, and neither is asked twice.
pub proof fn law_stream_setup_asks_twice(
    phase: StreamPhase,
    event: StreamEvent,
    server_ip: IpAddr,
    config: StreamConfigPacket,
    next: StreamPhase,
    actions: Seq<StreamAction>,
    k: int,
    res: (StreamPhase, Vec<StreamAction>),
)
    requires
        call_ensures(streaming_pipeline, (phase, event, server_ip, config), res),
        next == res.0,
        actions == res.1@,
        0 <= k < actions.len(),
        actions[k] is Request,
    ensures
        actions.len() == 1,
        phase is Start ==> actions[k] == StreamAction::Request(RequestPacket::Session) && next
            is AwaitSession,
        !(phase is Start) ==> {
            &&& phase is AwaitSocket
            &&& event matches StreamEvent::Listening(Ok(_))
            &&& actions[k] == StreamAction::Request(RequestPacket::ClientStreamSocketReady)
            &&& next is AwaitReady
        },
{
}

/// The settings of a session are followed: the lobby is as dark as they say, statistics go as far
/// back, and the socket is opened by their port and their protocol. The stream is then awaited from
/// the server that the client is connected to, on that port, for five seconds.
pub proof fn law_stream_setup_follows_the_settings(
    phase: StreamPhase,
    event: StreamEvent,
    server_ip: IpAddr,
    config: StreamConfigPacket,
    next: StreamPhase,
    actions: Seq<StreamAction>,
    res: (StreamPhase, Vec<StreamAction>),
)
    requires
        call_ensures(streaming_pipeline, (phase, event, server_ip, config), res),
        next == res.0,
        actions == res.1@,
    ensures
        event matches StreamEvent::SettingsReady(Ok(settings)) ==> {
            &&& next == (StreamPhase::AwaitSocket { settings })
            &&& actions.len() == 3
            &&& actions[0] == StreamAction::StoreDarkMode(settings.extra.client_dark_mode)
            &&& actions[1] == StreamAction::NewStatistics(
                settings.connection.statistics_history_size,
            )
            &&& actions[2] matches StreamAction::Listen { port, protocol } && port
                == settings.connection.stream_port && protocol
                == settings.connection.stream_protocol
        },
        event matches StreamEvent::Listening(Ok(_)) ==> (phase matches StreamPhase::AwaitSocket {
            settings,
        } && next == (StreamPhase::AwaitReady { settings })),
        (phase matches StreamPhase::AwaitReady { settings } && event matches StreamEvent::Answered(
            Ok(_),
        )) ==> {
            &&& next == (StreamPhase::AwaitServer { settings: phase->AwaitReady_settings })
            &&& actions.len() == 1
            &&& actions[0] matches StreamAction::Accept { server_ip: awaited, port, timeout }
                && awaited == server_ip && port
                == phase->AwaitReady_settings.connection.stream_port && timeout == 5_000_000_000
        },
{
}

/// When the server has opened the stream, the lobby says so, the renderer is told and then the
/// activity of the headset, and the tasks are run, all by the settings of this stream.
pub proof fn law_opened_stream_is_announced_before_it_runs(
    phase: StreamPhase,
    event: StreamEvent,
    server_ip: IpAddr,
    config: StreamConfigPacket,
    next: StreamPhase,
    actions: Seq<StreamAction>,
    res: (StreamPhase, Vec<StreamAction>),
)
    requires
        call_ensures(streaming_pipeline, (phase, event, server_ip, config), res),
        next == res.0,
        actions == res.1@,
    ensures
        event matches StreamEvent::Accepted(Ok(_)) <==> next is Streaming,
        next is Streaming ==> (phase matches StreamPhase::AwaitServer { settings } && {
            &&& actions.len() == 4
            &&& actions[0] matches StreamAction::Show(message) && message@
                == "The stream will begin soon\nPlease wait..."@
            &&& actions[1] matches StreamAction::SetStreamConfig(input) && input.eye_width
                == config.view_resolution.x && input.eye_height == config.view_resolution.y
                && input == stream_config_input_spec(config, settings.video.foveated_rendering)
            &&& actions[2] matches StreamAction::ServerConnected(args) && are_connected_args(
                config,
                settings,
                args,
            )
            &&& actions[3] matches StreamAction::RunTasks(plan) && plan == client_plan(
                config,
                settings,
            )
        }),
{
}

/// How a stream ends. It fails by the very cause of what went wrong, by a timeout where the server
/// did not open it, and by the error of a task. It ends well where a task does, and where the server
/// leaves, however that came; the lobby says so then and nowhere else.
pub proof fn law_stream_ends_by_its_cause(
    phase: StreamPhase,
    event: StreamEvent,
    server_ip: IpAddr,
    config: StreamConfigPacket,
    next: StreamPhase,
    actions: Seq<StreamAction>,
    res: (StreamPhase, Vec<StreamAction>),
)
    requires
        call_ensures(streaming_pipeline, (phase, event, server_ip, config), res),
        next == res.0,
        actions == res.1@,
        next is Over,
    ensures
        event matches StreamEvent::Answered(Err(cause)) ==> actions.last() == StreamAction::End(
            Err(StreamError::Link(cause)),
        ),
        event matches StreamEvent::Answered(Ok(response)) ==> phase is AwaitSession && (response
            !is Session ==> actions.last() == StreamAction::End(
            Err(StreamError::UnexpectedResponse(response)),
        )),
        event matches StreamEvent::SettingsReady(result) ==> (result matches Err(cause)
            && actions.last() == StreamAction::End(Err(StreamError::InvalidSettings(cause)))),
        event matches StreamEvent::Listening(result) ==> (result matches Err(cause)
            && actions.last() == StreamAction::End(Err(StreamError::Stream(cause)))),
        event matches StreamEvent::Accepted(result) ==> (result matches Err(cause)
            && actions.last() == StreamAction::End(Err(StreamError::Stream(cause)))),
        event is TimedOut ==> actions.last() == StreamAction::End(Err(StreamError::SetupTimeout)),
        event matches StreamEvent::TaskEnded { task, result } ==> {
            &&& task == ClientTask::Receive ==> {
                &&& actions.len() == 2
                &&& actions[0] matches StreamAction::Show(message) && message@
                    == "The server has disconnected."@
                &&& actions[1] == StreamAction::End(Ok(()))
            }
            &&& task != ClientTask::Receive ==> actions.len() == 1
            &&& task != ClientTask::Receive ==> (result matches Ok(_) ==> actions[0]
                == StreamAction::End(Ok(())))
            &&& task != ClientTask::Receive ==> (result matches Err(cause) ==> actions[0]
                == StreamAction::End(Err(StreamError::Stream(cause))))
        },
        !(event is TaskEnded) ==> actions.len() == 1,
{
}

/// What a stream is said to have failed by: causes as they were reported, and for a response that
/// was not expected what it shows of itself.
pub proof fn law_stream_errors_name_their_cause(error: StreamError, detail: &str, res: String)
    requires
        call_ensures(StreamError::message, (error, detail), res),
    ensures
        error matches StreamError::Link(InterruptibleError::Other(cause)) ==> res@ == cause@,
        error matches StreamError::Link(InterruptibleError::Interrupted) ==> res@
            == "Interrupted"@,
        error matches StreamError::InvalidSession(_) ==> res@ == detail@,
        error matches StreamError::InvalidSettings(cause) ==> res@ == cause@,
        error matches StreamError::Stream(cause) ==> res@ == cause@,
        error matches StreamError::UnexpectedResponse(_) ==> res@ == "Unexpected response: "@
            + detail@,
        error is SetupTimeout ==> res@ == "Timeout while setting up streams"@,
{
}

/// A stream that was interrupted ends the connection by an interruption. Every other failure ends it
/// by an error that has the words for the failure.
pub proof fn law_only_interruptions_stay_interruptions(
    error: StreamError,
    detail: &str,
    res: InterruptibleError,
    words: String,
)
    requires
        call_ensures(StreamError::into_interruptible, (error, detail), res),
        call_ensures(StreamError::message, (error, detail), words),
    ensures
        res is Interrupted <==> (error matches StreamError::Link(InterruptibleError::Interrupted)),
        res matches InterruptibleError::Other(text) ==> text@ == words@,
{
}

/// A document that was parsed is merged with the session as it is. A text that is no document ends the
/// stream by the error of the parser.
pub proof fn law_parsed_session_is_merged(
    parsed: Result<serde_json::Value, serde_json::Error>,
    res: (StreamPhase, Vec<StreamAction>),
)
    requires
        call_ensures(session_parsed, (parsed,), res),
    ensures
        res.1@.len() == 1,
        parsed matches Ok(document) ==> res.0 is AwaitSettings && res.1@[0]
            == StreamAction::MergeSession(document),
        parsed matches Err(cause) ==> res.0 is Over && res.1@[0] == StreamAction::End(
            Err(StreamError::InvalidSession(cause)),
        ),
{
}

/// Only the session is taken for an answer. Anything else ends the stream, by the answer that was not
/// expected or by the cause for which none came.
pub proof fn law_only_the_session_is_taken_for_an_answer(
    answer: Result<ResponsePacket, InterruptibleError>,
    res: (StreamPhase, Vec<StreamAction>),
)
    requires
        call_ensures(session_answered, (answer,), res),
    ensures
        res.1@.len() == 1,
        res.0 is AwaitSettings || res.0 is Over,
        res.0 is AwaitSettings ==> (answer matches Ok(ResponsePacket::Session(text)) && (res.1@[0]
            matches StreamAction::MergeSession(document) && json_document(text@) == Some(document))),
        answer matches Err(cause) ==> res.1@[0] == StreamAction::End(Err(StreamError::Link(cause))),
        answer matches Ok(response) ==> (response !is Session ==> res.1@[0] == StreamAction::End(
            Err(StreamError::UnexpectedResponse(response)),
        )),
        answer matches Ok(ResponsePacket::Session(text)) ==> (res.0 is Over ==> json_document(text@)
            is None && (res.1@[0] matches StreamAction::End(Err(StreamError::InvalidSession(_))))),
{
}

/// A decoder is handed the header first and the payload right after it, byte by byte.
pub proof fn law_payload_follows_the_header(
    frame_bytes: Vec<u8>,
    payload: Vec<u8>,
    res: Vec<u8>,
    i: int,
)
    requires
        call_ensures(decoder_buffer, (&frame_bytes, &payload), res),
    ensures
        res@.len() == frame_bytes@.len() + payload@.len(),
        0 <= i < frame_bytes@.len() ==> res@[i] == frame_bytes@[i],
        0 <= i < payload@.len() ==> res@[frame_bytes@.len() + i] == payload@[i],
{
}

/// A video packet belongs to the moment that its frame was tracked for.
pub proof fn law_packets_belong_to_the_tracked_moment(header: VideoFrameHeaderPacket, res: Duration)
    requires
        call_ensures(video_timestamp, (&header,), res),
    ensures
        res.secs * 1_000_000_000 + res.nanos == header.tracking_frame_index,
        res.nanos < 1_000_000_000,
{
}

/// What a packet does to the deadline for an IDR frame. A packet for which the feed is left changes
/// nothing. Otherwise an IDR frame is asked for exactly where none was parsed and the deadline is
/// past, and the deadline is then taken back; where there was none, it is set two seconds ahead.
pub proof fn law_packets_set_and_take_back_the_deadline(
    watch: &mut IdrWatch,
    should_stream: bool,
    is_resumed: bool,
    idr_parsed: bool,
    now: u64,
    res: PacketAction,
)
    requires
        call_ensures(IdrWatch::on_packet, (watch, should_stream, is_resumed, idr_parsed, now), res),
    ensures
        res == PacketAction::Leave <==> !should_stream || !is_resumed,
        res == PacketAction::Leave || idr_parsed ==> final(watch).deadline == old(watch).deadline,
        res == PacketAction::RequestIdrAndDecode ==> !idr_parsed && final(watch).deadline is None && (
        old(watch).deadline matches Some(deadline) && deadline < now),
        res == PacketAction::Decode && !idr_parsed ==> match old(watch).deadline {
            Some(deadline) => deadline >= now && final(watch).deadline == Some(deadline),
            None => final(watch).deadline matches Some(deadline) && deadline == now + 2_000_000_000,
        },
{
}

/// Nothing is awaited when a feed begins.
pub proof fn law_watch_begins_without_a_deadline(res: IdrWatch)
    requires
        call_ensures(IdrWatch::new, (), res),
    ensures
        res.deadline is None,
{
}

} // verus!
