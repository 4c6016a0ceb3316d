//! What the server and its clients send to each other.

use crate::float32::F32;
use crate::net::IpAddr;
use crate::time::Duration;
use vstd::prelude::*;

verus! {

pub const HANDSHAKE_STREAM: u8 = 0;

pub const REQUEST_STREAM: u8 = 1;

/// Events, from the server or from a client.
pub const EVENT_STREAM: u8 = 2;

pub const TRACKING_STREAM: u8 = 3;

pub const HAPTICS_STREAM: u8 = 4;

pub const STATISTICS_STREAM: u8 = 5;

pub const AUDIO_STREAM: u8 = 6;

pub const VIDEO_STREAM: u8 = 7;

#[derive(Clone, Copy, Debug, PartialEq, Eq, Structural)]
pub struct UVec2 {
    pub x: u32,
    pub y: u32,
}

#[derive(Clone, Copy, Debug, PartialEq, Eq, Structural)]
pub struct Vec2 {
    pub x: F32,
    pub y: F32,
}

#[derive(Clone, Copy, Debug, PartialEq, Eq, Structural)]
pub struct Vec3 {
    pub x: F32,
    pub y: F32,
    pub z: F32,
}

#[derive(Clone, Copy, Debug, PartialEq, Eq, Structural)]
pub struct Quat {
    pub x: F32,
    pub y: F32,
    pub z: F32,
    pub w: F32,
}

/// The half angles of the view of one eye.
#[derive(Clone, Copy, Debug, PartialEq, Eq, Structural)]
pub struct Fov {
    pub left: F32,
    pub right: F32,
    pub top: F32,
    pub bottom: F32,
}

#[derive(Clone, Copy, Debug, PartialEq, Eq, Structural)]
pub struct StreamConfigPacket {
    pub view_resolution: UVec2,
    pub fps: F32,
    pub game_audio_sample_rate: u32,
}

/// The views of both eyes. The transform from head to eye is a translation along the x axis.
#[derive(Clone, Copy, Debug, PartialEq)]
pub struct ViewsConfig {
    pub ipd_m: F32,
    pub fov: [Fov; 2],
}

/// The charge of a device. The gauge ranges from 0 to 1.
#[derive(Clone, Copy, Debug, PartialEq, Eq, Structural)]
pub struct BatteryPacket {
    pub device_id: u64,
    pub gauge_value: F32,
    pub is_plugged: bool,
}

#[derive(Clone, Copy, Debug, PartialEq, Eq, Structural)]
pub struct VideoFrameHeaderPacket {
    pub packet_counter: u32,
    pub tracking_frame_index: u64,
    pub video_frame_index: u64,
    pub sent_time: u64,
    pub frame_byte_size: u32,
    pub fec_index: u32,
    pub fec_percentage: u16,
}

#[derive(Clone, Copy, Debug, PartialEq, Eq, Structural)]
pub struct DeviceMotion {
    pub orientation: Quat,
    pub position: Vec3,
    pub linear_velocity: Vec3,
    pub angular_velocity: Vec3,
}

/// The encoding of 1.0.
pub const ONE_BITS: u32 = 0x3f80_0000;

impl Default for DeviceMotion {
    /// At rest in the origin, not turned.
    fn default() -> (res: DeviceMotion)
        ensures
            res == (DeviceMotion {
                orientation: Quat {
                    x: F32 { bits: 0 },
                    y: F32 { bits: 0 },
                    z: F32 { bits: 0 },
                    w: F32 { bits: ONE_BITS },
                },
                position: zero_vector(),
                linear_velocity: zero_vector(),
                angular_velocity: zero_vector(),
            }),
    {
        let zero = F32 { bits: 0 };
        let vector = Vec3 { x: zero, y: zero, z: zero };
        DeviceMotion {
            orientation: Quat { x: zero, y: zero, z: zero, w: F32 { bits: ONE_BITS } },
            position: vector,
            linear_velocity: vector,
            angular_velocity: vector,
        }
    }
}

/// The vector whose coordinates are 0.
pub open spec fn zero_vector() -> Vec3 {
    Vec3 { x: F32 { bits: 0 }, y: F32 { bits: 0 }, z: F32 { bits: 0 } }
}

#[derive(Debug, PartialEq)]
pub struct Tracking {
    pub target_timestamp: Duration,
    pub device_motions: Vec<(u64, DeviceMotion)>,
    pub left_hand_skeleton: Option<[Quat; 19]>,
    pub right_hand_skeleton: Option<[Quat; 19]>,
}

#[derive(Clone, Copy, Debug, PartialEq, Eq, Structural)]
pub struct Haptics {
    pub path: u64,
    pub duration: Duration,
    pub frequency: F32,
    pub amplitude: F32,
}

#[derive(Clone, Debug, PartialEq)]
pub struct AudioDevicesList {
    pub output: Vec<String>,
    pub input: Vec<String>,
}

#[derive(Clone, Copy, Debug, PartialEq, Eq, Structural)]
pub enum GpuVendor {
    Nvidia,
    Amd,
    Other,
}

#[derive(Clone, Debug, PartialEq)]
pub enum PathSegment {
    Name(String),
    Index(usize),
}

#[derive(Clone, Debug, PartialEq)]
pub enum ClientListAction {
    AddIfMissing,
    SetDisplayName(String),
    Trust,
    AddIp(IpAddr),
    RemoveIp(IpAddr),
    RemoveEntry,
}

/// Latencies of one frame, which `target_timestamp` identifies.
///
/// `average_total_pipeline_latency` drives the prediction of controller poses.
#[derive(Clone, Copy, Debug, PartialEq, Eq, Structural)]
pub struct ClientStatistics {
    pub target_timestamp: Duration,
    pub frame_interval: Duration,
    pub video_decode: Duration,
    pub rendering: Duration,
    pub vsync_queue: Duration,
    pub total_pipeline_latency: Duration,
    pub average_total_pipeline_latency: Duration,
}

impl Default for ClientStatistics {
    /// No time at all.
    fn default() -> (res: ClientStatistics)
        ensures
            res == (ClientStatistics {
                target_timestamp: Duration { secs: 0, nanos: 0 },
                frame_interval: Duration { secs: 0, nanos: 0 },
                video_decode: Duration { secs: 0, nanos: 0 },
                rendering: Duration { secs: 0, nanos: 0 },
                vsync_queue: Duration { secs: 0, nanos: 0 },
                total_pipeline_latency: Duration { secs: 0, nanos: 0 },
                average_total_pipeline_latency: Duration { secs: 0, nanos: 0 },
            }),
    {
        let zero = Duration { secs: 0, nanos: 0 };
        ClientStatistics {
            target_timestamp: zero,
            frame_interval: zero,
            video_decode: zero,
            rendering: zero,
            vsync_queue: zero,
            total_pipeline_latency: zero,
            average_total_pipeline_latency: zero,
        }
    }
}

#[derive(Clone, Debug, PartialEq)]
pub struct VideoStreamingCapabilities {
    pub default_view_resolution: UVec2,
    pub supported_refresh_rates: Vec<F32>,
    pub microphone_sample_rate: u32,
}

#[derive(Clone, Copy, Debug, PartialEq, Eq, Structural)]
pub enum ButtonValue {
    Binary(bool),
    Scalar(F32),
}

#[derive(Clone, Debug, PartialEq)]
pub struct ButtonEvent {
    pub path: String,
    pub value: ButtonValue,
}

#[derive(Clone, Debug, PartialEq)]
pub enum EventType {
    ClientConnected,
    ClientDisconnected,
    Button(ButtonEvent),
    Log(String),
}

#[derive(Clone, Debug, PartialEq)]
pub struct Event {
    pub timestamp: String,
    pub event_type: EventType,
}

/// The version of a server or a client.
#[derive(Clone, Debug, PartialEq)]
pub struct Version {
    pub major: u64,
    pub minor: u64,
    pub patch: u64,
    pub pre: String,
    pub build: String,
}

/// What a client asks of the server. Sessions and custom requests are JSON texts.
#[derive(Clone, Debug, PartialEq)]
pub enum RequestPacket {
    Session,
    StoreSession(String),
    StoreSettings(String),
    RegisterDriver,
    UnregisterDriver,
    RegisteredDrivers,
    AudioDevices,
    GraphicsDevice,
    RestartSteamvr,
    ClientListAction(ClientListAction),
    ServerVersion,
    ServerOs,
    UpdateServer { download_url: String },
    ClientCapabilities(Option<VideoStreamingCapabilities>),
    ClientStreamSocketReady,
    PlayspaceSync(Vec2),
    RequestIdr,
    KeepAlive,
    ViewsConfig(ViewsConfig),
    Battery(BatteryPacket),
    VideoErrorReport,
    Button { path_id: u64, value: ButtonValue },
    ActiveInteractionProfile { device_id: u64, profile_id: u64 },
    Custom(String),
}

/// What the server answers. Sessions and custom answers are JSON texts.
#[derive(Clone, Debug, PartialEq)]
pub enum ResponsePacket {
    Success,
    Failure(String),
    Session(String),
    RegisteredDrivers(Vec<String>),
    AudioDevices(AudioDevicesList),
    GraphicsDevice(String),
    ServerVersion(Version),
    ServerOs(String),
    Custom(String),
}

/// What the server sends to a client on its own account.
#[derive(Clone, Debug, PartialEq)]
pub enum SsePacket {
    StartStreaming(StreamConfigPacket),
    StopStreaming,
    Event(Event),
    ServerRestarting,
    ServerDisconnecting,
    KeepAlive,
    Custom(String),
}

impl Version {
    /// The usual notation: three numbers joined by dots, the pre-release name after a hyphen
    /// and the build name after a plus sign, where there are such names.
    pub open spec fn text(self) -> Seq<char> {
        let numbers = crate::text::digits(self.major as nat, 10) + "."@ + crate::text::digits(
            self.minor as nat,
            10,
        ) + "."@ + crate::text::digits(self.patch as nat, 10);
        let pre = if self.pre@.len() == 0 {
            seq![]
        } else {
            "-"@ + self.pre@
        };
        let build = if self.build@.len() == 0 {
            seq![]
        } else {
            "+"@ + self.build@
        };
        numbers + pre + build
    }

    /// The version in the usual notation.
    pub fn to_text(&self) -> (res: String)
        ensures
            res@ == self.text(),
    {
        let mut res = crate::text::number_text(self.major, 10);
        res.append(".");
        res.append(crate::text::number_text(self.minor, 10).as_str());
        res.append(".");
        res.append(crate::text::number_text(self.patch, 10).as_str());
        if !self.pre.as_str().is_empty() {
            res.append("-");
            res.append(self.pre.as_str());
        }
        if !self.build.as_str().is_empty() {
            res.append("+");
            res.append(self.build.as_str());
        }
        assert(res@ =~= self.text());
        res
    }
}

/// A version is written with its numbers from the most to the least significant one. A build name
/// follows the rest after a plus sign, a pre-release name the numbers after a hyphen, and nothing
/// stands for names that are empty.
pub proof fn law_version_is_written_in_order(version: Version, plain: Version, released: Version)
    requires
        plain.major == version.major,
        plain.minor == version.minor,
        plain.patch == version.patch,
        plain.pre@ == version.pre@,
        plain.build@.len() == 0,
        released.major == version.major,
        released.minor == version.minor,
        released.patch == version.patch,
        released.pre@.len() == 0,
        released.build@.len() == 0,
    ensures
        version.build@.len() > 0 ==> version.text() =~= plain.text() + seq!['+'] + version.build@,
        version.build@.len() == 0 ==> version.text() =~= plain.text(),
        version.pre@.len() > 0 ==> plain.text() =~= released.text() + seq!['-'] + version.pre@,
        version.pre@.len() == 0 ==> plain.text() =~= released.text(),
        released.text() =~= crate::text::digits(version.major as nat, 10) + seq!['.']
            + crate::text::digits(version.minor as nat, 10) + seq!['.'] + crate::text::digits(
            version.patch as nat,
            10,
        ),
{
    reveal_strlit("+");
    reveal_strlit("-");
    reveal_strlit(".");
}

/// A device of which nothing is known is at rest in the origin and not turned: only the real part of
/// its rotation is one.
pub proof fn law_devices_are_at_rest_by_default(res: DeviceMotion)
    requires
        call_ensures(DeviceMotion::default, (), res),
    ensures
        res.orientation.w.bits == 0x3f80_0000,
        res.orientation.x.bits == 0 && res.orientation.y.bits == 0 && res.orientation.z.bits == 0,
        res.position.x.bits == 0 && res.position.y.bits == 0 && res.position.z.bits == 0,
        res.linear_velocity.x.bits == 0 && res.linear_velocity.y.bits == 0
            && res.linear_velocity.z.bits == 0,
        res.angular_velocity.x.bits == 0 && res.angular_velocity.y.bits == 0
            && res.angular_velocity.z.bits == 0,
{
}

/// Statistics begin with no time at all.
pub proof fn law_statistics_begin_with_no_time(res: ClientStatistics)
    requires
        call_ensures(ClientStatistics::default, (), res),
    ensures
        res.target_timestamp.total() == 0,
        res.frame_interval.total() == 0,
        res.video_decode.total() == 0,
        res.rendering.total() == 0,
        res.vsync_queue.total() == 0,
        res.total_pipeline_latency.total() == 0,
        res.average_total_pipeline_latency.total() == 0,
{
}

/// A version is written as its text.
pub proof fn law_version_text_is_written(version: Version, res: String)
    requires
        call_ensures(Version::to_text, (&version,), res),
        version.pre@.len() == 0,
        version.build@.len() == 0,
    ensures
        res@ =~= crate::text::digits(version.major as nat, 10) + "."@ + crate::text::digits(
            version.minor as nat,
            10,
        ) + "."@ + crate::text::digits(version.patch as nat, 10),
{
}

/// Each stream has a number of its own, so that nothing that is sent on one of them is read on another.
pub proof fn law_streams_have_their_own_numbers(i: int, j: int)
    requires
        0 <= i < j < 8,
    ensures
        ({
            let streams = seq![
                HANDSHAKE_STREAM,
                REQUEST_STREAM,
                EVENT_STREAM,
                TRACKING_STREAM,
                HAPTICS_STREAM,
                STATISTICS_STREAM,
                AUDIO_STREAM,
                VIDEO_STREAM,
            ];
            streams[i] < streams[j]
        }),
{
}

} // verus!
