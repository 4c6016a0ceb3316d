//! How the server answers a client that can show video.

use crate::clients::{ClientConnectionData, ClientTable};
use crate::error::{IntResult, InterruptibleError};
use crate::float32::{align32, F32, LARGEST_FINITE_BITS};
use crate::openvr::{openvr_config, OpenvrConfig};
use crate::packets::{SsePacket, StreamConfigPacket, UVec2, VideoStreamingCapabilities};
use crate::session::{
    AudioDeviceId, AudioSettings, FrameSize, LinuxAudioBackend, SessionSettings, Settings, Switch,
};
use vstd::prelude::*;

verus! {

/// Why no video stream can be set up.
#[derive(Debug, PartialEq)]
pub enum VideoRequestError {
    NoSuchClient(String),
    NoVideoSupport(String),
    AudioDevice(String),
    SameAudioDevice,
}

impl VideoRequestError {
    /// The message for the log.
    pub open spec fn text(self) -> Seq<char> {
        match self {
            VideoRequestError::NoSuchClient(hostname) => "No such client: "@ + hostname@,
            VideoRequestError::NoVideoSupport(hostname) =>
                "Client does not support video streaming: "@ + hostname@,
            VideoRequestError::AudioDevice(cause) => cause@,
            VideoRequestError::SameAudioDevice =>
                "Game audio and microphone cannot point to the same device!"@,
        }
    }

    /// The message for the log.
    pub fn message(self) -> (res: String)
        ensures
            res@ == self.text(),
    {
        match self {
            VideoRequestError::NoSuchClient(hostname) => {
                "No such client: ".to_owned().concat(hostname.as_str())
            },
            VideoRequestError::NoVideoSupport(hostname) => {
                "Client does not support video streaming: ".to_owned().concat(hostname.as_str())
            },
            VideoRequestError::AudioDevice(cause) => cause,
            VideoRequestError::SameAudioDevice => {
                "Game audio and microphone cannot point to the same device!".to_owned()
            },
        }
    }
}

/// What has been learnt so far of the audio devices.
#[derive(Debug, PartialEq)]
pub enum AudioProgress {
    /// Nothing.
    Idle,
    /// Whether the device for game audio could be opened, or why not.
    GameAudio(Result<(), String>),
    /// Whether the microphone device is the one for game audio, or why it could not be opened.
    Microphone(Result<bool, String>),
    /// The sample rate of the device for game audio, or why it could not be read.
    SampleRate(Result<u32, String>),
}

/// What is to be done next about the audio devices.
#[derive(Debug, PartialEq)]
pub enum AudioStep {
    OpenGameAudio { backend: LinuxAudioBackend, device_id: AudioDeviceId },
    OpenMicrophone { backend: LinuxAudioBackend, device_id: AudioDeviceId },
    ReadSampleRate,
    Done(u32),
    Failed(VideoRequestError),
}

/// A copy of a device name.
pub fn copy_device_id(id: &AudioDeviceId) -> (res: AudioDeviceId)
    ensures
        res == *id,
{
    match id {
        AudioDeviceId::Default => AudioDeviceId::Default,
        AudioDeviceId::Name(name) => AudioDeviceId::Name(name.clone()),
        AudioDeviceId::Index(index) => AudioDeviceId::Index(*index),
    }
}

/// The step that follows what has been learnt of the audio devices.
///
/// The game audio device is opened first, the microphone next where both are enabled, and the
/// sample rate is read last. Without game audio the rate is 0. Where `devices_must_differ`, the
/// two devices may not be one.
pub open spec fn audio_step_after(
    audio: AudioSettings,
    progress: AudioProgress,
    devices_must_differ: bool,
) -> AudioStep {
    match progress {
        AudioProgress::Idle => match audio.game_audio {
            Switch::Enabled(desc) => AudioStep::OpenGameAudio {
                backend: audio.linux_backend,
                device_id: desc.device_id,
            },
            Switch::Disabled => AudioStep::Done(0),
        },
        AudioProgress::GameAudio(Ok(_)) => match audio.microphone {
            Switch::Enabled(desc) => AudioStep::OpenMicrophone {
                backend: audio.linux_backend,
                device_id: desc.input_device_id,
            },
            Switch::Disabled => AudioStep::ReadSampleRate,
        },
        AudioProgress::Microphone(Ok(same)) => if same && devices_must_differ {
            AudioStep::Failed(VideoRequestError::SameAudioDevice)
        } else {
            AudioStep::ReadSampleRate
        },
        AudioProgress::SampleRate(Ok(rate)) => AudioStep::Done(rate),
        AudioProgress::GameAudio(Err(cause)) => AudioStep::Failed(
            VideoRequestError::AudioDevice(cause),
        ),
        AudioProgress::Microphone(Err(cause)) => AudioStep::Failed(
            VideoRequestError::AudioDevice(cause),
        ),
        AudioProgress::SampleRate(Err(cause)) => AudioStep::Failed(
            VideoRequestError::AudioDevice(cause),
        ),
    }
}

/// The step that follows what has been learnt of the audio devices.
pub fn next_audio_step(
    audio: &AudioSettings,
    progress: AudioProgress,
    devices_must_differ: bool,
) -> (res: AudioStep)
    ensures
        res == audio_step_after(*audio, progress, devices_must_differ),
{
    match progress {
        AudioProgress::Idle => match &audio.game_audio {
            Switch::Enabled(desc) => AudioStep::OpenGameAudio {
                backend: audio.linux_backend,
                device_id: copy_device_id(&desc.device_id),
            },
            Switch::Disabled => AudioStep::Done(0),
        },
        AudioProgress::GameAudio(Ok(_)) => match &audio.microphone {
            Switch::Enabled(desc) => AudioStep::OpenMicrophone {
                backend: audio.linux_backend,
                device_id: copy_device_id(&desc.input_device_id),
            },
            Switch::Disabled => AudioStep::ReadSampleRate,
        },
        AudioProgress::Microphone(Ok(same)) => {
            if same && devices_must_differ {
                AudioStep::Failed(VideoRequestError::SameAudioDevice)
            } else {
                AudioStep::ReadSampleRate
            }
        },
        AudioProgress::SampleRate(Ok(rate)) => AudioStep::Done(rate),
        AudioProgress::GameAudio(Err(cause)) => {
            AudioStep::Failed(VideoRequestError::AudioDevice(cause))
        },
        AudioProgress::Microphone(Err(cause)) => {
            AudioStep::Failed(VideoRequestError::AudioDevice(cause))
        },
        AudioProgress::SampleRate(Err(cause)) => {
            AudioStep::Failed(VideoRequestError::AudioDevice(cause))
        },
    }
}

/// The number of steps that can still follow.
pub open spec fn audio_steps_left(progress: AudioProgress) -> int {
    match progress {
        AudioProgress::Idle => 3,
        AudioProgress::GameAudio(_) => 2,
        AudioProgress::Microphone(_) => 1,
        AudioProgress::SampleRate(_) => 0,
    }
}

/// What is learnt by taking a step.
pub open spec fn answers(step: AudioStep, progress: AudioProgress) -> bool {
    match step {
        AudioStep::OpenGameAudio { .. } => progress is GameAudio,
        AudioStep::OpenMicrophone { .. } => progress is Microphone,
        AudioStep::ReadSampleRate => progress is SampleRate,
        AudioStep::Done(_) => false,
        AudioStep::Failed(_) => false,
    }
}

/// Every step on the audio devices brings the end nearer, and the microphone is opened only
/// after the device for game audio.
pub proof fn law_audio_steps_come_to_an_end(
    audio: AudioSettings,
    progress: AudioProgress,
    next: AudioProgress,
    devices_must_differ: bool,
)
    requires
        answers(audio_step_after(audio, progress, devices_must_differ), next),
    ensures
        0 <= audio_steps_left(next) < audio_steps_left(progress),
        next is Microphone ==> progress is GameAudio,
{
}

/// The place of the refresh rate that is closest: the first of those at the least distance, where
/// that distance is below the largest number.
pub open spec fn is_closest(distances: Seq<F32>, k: int) -> bool {
    &&& 0 <= k < distances.len()
    &&& distances[k].lt_spec(F32 { bits: LARGEST_FINITE_BITS })
    &&& forall|j: int| 0 <= j < distances.len() ==> !(#[trigger] distances[j]).lt_spec(distances[k])
    &&& forall|j: int| 0 <= j < k ==> !(#[trigger] distances[j]).same_spec(distances[k])
}

/// The refresh rate that is closest to the preferred one, or 0 if there is none.
pub open spec fn closest_rate(rates: Seq<F32>, distances: Seq<F32>) -> F32 {
    if exists|k: int| is_closest(distances, k) {
        rates[choose|k: int| is_closest(distances, k)]
    } else {
        F32 { bits: 0 }
    }
}

/// No two places hold the closest refresh rate.
pub proof fn law_closest_rate_is_unique(distances: Seq<F32>, j: int, k: int)
    requires
        is_closest(distances, j),
        is_closest(distances, k),
    ensures
        j == k,
{
    assert(!distances[j].lt_spec(distances[k]));
    assert(!distances[k].lt_spec(distances[j]));
    assert(distances[j].same_spec(distances[k]));
    assert(distances[k].same_spec(distances[j]));
}

proof fn lemma_closest_exists(distances: Seq<F32>, j: int)
    requires
        0 <= j < distances.len(),
        distances[j].lt_spec(F32 { bits: LARGEST_FINITE_BITS }),
    ensures
        exists|k: int| is_closest(distances, k),
    decreases distances.len(),
{
    let front = distances.drop_last();
    let last = distances.len() - 1;
    if exists|i: int|
        0 <= i < front.len() && (#[trigger] front[i]).lt_spec(F32 { bits: LARGEST_FINITE_BITS }) {
        let i = choose|i: int|
            0 <= i < front.len() && (#[trigger] front[i]).lt_spec(
                F32 { bits: LARGEST_FINITE_BITS },
            );
        lemma_closest_exists(front, i);
        let k = choose|k: int| is_closest(front, k);
        assert(front[k] == distances[k]);
        let best = if distances[last].lt_spec(distances[k]) {
            last
        } else {
            k
        };
        assert forall|m: int| 0 <= m < distances.len() implies !(#[trigger] distances[m]).lt_spec(
            distances[best],
        ) by {
            if m < last {
                assert(!front[m].lt_spec(front[k]));
            }
        }
        assert forall|m: int| 0 <= m < best implies !(#[trigger] distances[m]).same_spec(
            distances[best],
        ) by {
            assert(!front[m].lt_spec(front[k]));
            if m < k {
                assert(!front[m].same_spec(front[k]));
            }
        }
        assert(is_closest(distances, best));
    } else {
        assert(j == last) by {
            if j < last {
                assert(front[j] == distances[j]);
            }
        }
        assert forall|m: int| 0 <= m < last implies !(#[trigger] distances[m]).lt_spec(
            distances[last],
        ) && !distances[m].same_spec(distances[last]) by {
            assert(!front[m].lt_spec(F32 { bits: LARGEST_FINITE_BITS }));
        }
        assert(is_closest(distances, last));
    }
}

/// Where any supported refresh rate is at a distance below the largest number, the rate that is
/// chosen is a supported one, and no supported rate is closer.
pub proof fn law_chosen_rate_is_supported_and_closest(
    rates: Seq<F32>,
    distances: Seq<F32>,
    j: int,
)
    requires
        rates.len() == distances.len(),
        0 <= j < distances.len(),
        distances[j].lt_spec(F32 { bits: LARGEST_FINITE_BITS }),
    ensures
        exists|k: int|
            0 <= k < rates.len() && #[trigger] rates[k] == closest_rate(rates, distances)
                && !distances[j].lt_spec(distances[k]),
{
    lemma_closest_exists(distances, j);
    let k = choose|k: int| is_closest(distances, k);
    assert(rates[k] == closest_rate(rates, distances));
    assert(!distances[j].lt_spec(distances[k]));
}

/// The supported refresh rate that is closest to the preferred one, given how far each of them
/// is from it. Of several the first is taken, and 0 if none is at a finite distance below the
/// largest number.
pub fn select_refresh_rate(rates: &Vec<F32>, distances: &Vec<F32>) -> (res: F32)
    requires
        rates.len() == distances.len(),
    ensures
        res == closest_rate(rates@, distances@),
{
    let mut best_match = F32 { bits: 0 };
    let mut min_diff = F32 { bits: LARGEST_FINITE_BITS };
    let ghost mut best: int = -1;
    let mut i: usize = 0;
    while i < rates.len()
        invariant
            i <= rates.len(),
            rates.len() == distances.len(),
            !min_diff.is_nan_spec(),
            forall|j: int| 0 <= j < i ==> !(#[trigger] distances[j]).lt_spec(min_diff),
            best == -1 ==> min_diff == (F32 { bits: LARGEST_FINITE_BITS }) && best_match == (F32 {
                bits: 0,
            }),
            best != -1 ==> 0 <= best < i && is_closest(distances@.take(i as int), best) && min_diff
                == distances[best] && best_match == rates[best],
        decreases rates.len() - i,
    {
        let diff = distances[i];
        let ghost before = min_diff;
        if diff.lt(min_diff) {
            best_match = rates[i];
            min_diff = diff;
            proof {
                best = i as int;
            }
        }
        proof {
            let seen = distances@.take(i as int);
            let now = distances@.take(i + 1);
            assert forall|j: int| 0 <= j < i + 1 implies !(#[trigger] distances[j]).lt_spec(
                min_diff,
            ) by {
                if j < i {
                    assert(!distances[j].lt_spec(before));
                }
            }
            if best != -1 {
                assert forall|j: int| 0 <= j < now.len() implies !(#[trigger] now[j]).lt_spec(
                    now[best],
                ) by {
                    assert(now[j] == distances[j]);
                }
                assert forall|j: int| 0 <= j < best implies !(#[trigger] now[j]).same_spec(
                    now[best],
                ) by {
                    assert(now[j] == distances[j]);
                    if best == i {
                        assert(!distances[j].lt_spec(before));
                    } else {
                        assert(seen[j] == distances[j]);
                        assert(!seen[j].same_spec(seen[best]));
                    }
                }
                assert(now[best] == distances[best]);
                if best != i {
                    assert(seen[best] == distances[best]);
                    assert(seen[best].lt_spec(F32 { bits: LARGEST_FINITE_BITS }));
                }
                assert(is_closest(now, best));
            }
        }
        i = i + 1;
    }
    proof {
        assert(distances@.take(i as int) =~= distances@);
        if best != -1 {
            assert(is_closest(distances@, best));
            law_closest_rate_is_unique(
                distances@,
                best,
                choose|k: int| is_closest(distances@, k),
            );
        } else {
            assert forall|k: int| !is_closest(distances@, k) by {
                if 0 <= k < distances.len() {
                    assert(!distances[k].lt_spec(min_diff));
                }
            }
        }
    }
    best_match
}

/// Whether one of the rates is the preferred one.
pub open spec fn is_supported(rates: Seq<F32>, preferred: F32) -> bool {
    exists|i: int| 0 <= i < rates.len() && (#[trigger] rates[i]).same_spec(preferred)
}

/// Whether the headset can show exactly the preferred refresh rate.
pub fn refresh_rate_supported(rates: &Vec<F32>, preferred: F32) -> (res: bool)
    ensures
        res == is_supported(rates@, preferred),
        res == exists|i: int| 0 <= i < rates.len() && (#[trigger] rates[i]).same_spec(preferred),
{
    let mut i: usize = 0;
    while i < rates.len()
        invariant
            i <= rates.len(),
            forall|j: int| 0 <= j < i ==> !(#[trigger] rates[j]).same_spec(preferred),
        decreases rates.len() - i,
    {
        if rates[i].same(preferred) {
            return true;
        }
        i = i + 1;
    }
    false
}

/// How a side of one eye is worked out, before it is cut down to a multiple of 32.
#[derive(Clone, Copy, Debug, PartialEq, Eq, Structural)]
pub enum SideLength {
    /// The product of a number of pixels and a factor.
    Scaled { pixels: u32, factor: F32 },
    /// Half of a number of pixels.
    Half(u32),
    /// A number of pixels.
    Whole(u32),
}

/// The width and the height of one eye: relative to the resolution that the headset asks for, or
/// half of the width and all of the height of a frame that holds both eyes.
pub open spec fn eye_sides(size: FrameSize, default_view_resolution: UVec2) -> (
    SideLength,
    SideLength,
) {
    match size {
        FrameSize::Scale(factor) => (
            SideLength::Scaled { pixels: default_view_resolution.x, factor },
            SideLength::Scaled { pixels: default_view_resolution.y, factor },
        ),
        FrameSize::Absolute { width, height } => (
            SideLength::Half(width),
            SideLength::Whole(height),
        ),
    }
}

/// The width and the height of one eye, as they are worked out.
pub fn eye_size(size: FrameSize, default_view_resolution: UVec2) -> (res: (SideLength, SideLength))
    ensures
        res == eye_sides(size, default_view_resolution),
{
    match size {
        FrameSize::Scale(factor) => (
            SideLength::Scaled { pixels: default_view_resolution.x, factor },
            SideLength::Scaled { pixels: default_view_resolution.y, factor },
        ),
        FrameSize::Absolute { width, height } => (
            SideLength::Half(width),
            SideLength::Whole(height),
        ),
    }
}

/// The sides of one eye, for video and for the applications, as they are worked out.
#[derive(Clone, Copy, Debug, PartialEq, Eq, Structural)]
pub struct EyeSides {
    pub render_width: SideLength,
    pub render_height: SideLength,
    pub target_width: SideLength,
    pub target_height: SideLength,
}

/// The sides of one eye, for video and for the applications.
pub fn view_sides(settings: &Settings, capabilities: &VideoStreamingCapabilities) -> (res: EyeSides)
    ensures
        (res.render_width, res.render_height) == eye_sides(
            settings.video.render_resolution,
            capabilities.default_view_resolution,
        ),
        (res.target_width, res.target_height) == eye_sides(
            settings.video.recommended_target_resolution,
            capabilities.default_view_resolution,
        ),
{
    let resolution = capabilities.default_view_resolution;
    let render = eye_size(settings.video.render_resolution, resolution);
    let target = eye_size(settings.video.recommended_target_resolution, resolution);
    EyeSides {
        render_width: render.0,
        render_height: render.1,
        target_width: target.0,
        target_height: target.1,
    }
}

/// The numbers that the caller works out: the sides of one eye for video and for the applications
/// as [`view_sides`] gives them, and how far each supported refresh rate is from the preferred one.
#[derive(Debug, PartialEq)]
pub struct VideoMeasurements {
    pub render_eye_width: F32,
    pub render_eye_height: F32,
    pub target_eye_width: F32,
    pub target_eye_height: F32,
    pub rate_distances: Vec<F32>,
}

impl VideoMeasurements {
    pub open spec fn video_eye(self) -> UVec2 {
        UVec2 {
            x: crate::float32::aligned(self.render_eye_width),
            y: crate::float32::aligned(self.render_eye_height),
        }
    }

    pub open spec fn target_eye(self) -> UVec2 {
        UVec2 {
            x: crate::float32::aligned(self.target_eye_width),
            y: crate::float32::aligned(self.target_eye_height),
        }
    }
}

/// What the server does about a client that can show video.
#[derive(Debug, PartialEq)]
pub enum VideoRequestAction {
    /// Tell the client that the server restarts, and restart the driver.
    Restart { sse_socket: u64 },
    /// Tell the client to start streaming.
    Start { sse_socket: u64, config: StreamConfigPacket },
}

impl VideoRequestAction {
    /// The socket of the client that is told, and the one packet that it is sent.
    pub open spec fn notice_spec(self) -> (u64, SsePacket) {
        match self {
            VideoRequestAction::Restart { sse_socket } => (sse_socket, SsePacket::ServerRestarting),
            VideoRequestAction::Start { sse_socket, config } => (
                sse_socket,
                SsePacket::StartStreaming(config),
            ),
        }
    }

    /// The socket of the client that is told, and the one packet that it is sent.
    pub fn notice(&self) -> (res: (u64, SsePacket))
        ensures
            res == self.notice_spec(),
    {
        match self {
            VideoRequestAction::Restart { sse_socket } => {
                (*sse_socket, SsePacket::ServerRestarting)
            },
            VideoRequestAction::Start { sse_socket, config } => {
                (*sse_socket, SsePacket::StartStreaming(*config))
            },
        }
    }

    /// Whether the driver restarts.
    pub fn restarts(&self) -> (res: bool)
        ensures
            res == (self is Restart),
    {
        match self {
            VideoRequestAction::Restart { .. } => true,
            VideoRequestAction::Start { .. } => false,
        }
    }

    /// What the request ends with, given whether the client could be told: an interruption where
    /// the driver restarts, even if the client could not be told.
    pub open spec fn end_spec(self, told: IntResult<()>) -> IntResult<()> {
        match self {
            VideoRequestAction::Restart { .. } => Err(InterruptibleError::Interrupted),
            VideoRequestAction::Start { .. } => told,
        }
    }

    /// What the request ends with, given whether the client could be told.
    pub fn end(self, told: IntResult<()>) -> (res: IntResult<()>)
        ensures
            res == self.end_spec(told),
    {
        match self {
            VideoRequestAction::Restart { .. } => Err(InterruptibleError::Interrupted),
            VideoRequestAction::Start { .. } => told,
        }
    }
}

impl VideoRequestError {
    /// What a request that is refused ends with.
    pub fn end(self) -> (res: IntResult<()>)
        ensures
            res matches Err(InterruptibleError::Other(text)) && text@ == self.text(),
    {
        Err(InterruptibleError::Other(self.message()))
    }
}

/// The configuration that a request of a client with the given refresh rates asks for.
pub open spec fn requested_config(
    settings: Settings,
    session: SessionSettings,
    rates: Seq<F32>,
    measured: VideoMeasurements,
) -> OpenvrConfig {
    crate::openvr::config_for(
        settings,
        session,
        measured.video_eye(),
        measured.target_eye(),
        closest_rate(rates, measured.rate_distances@).to_u32_spec(),
    )
}

/// The configuration that is stored after a request: the one stored before, unless the request
/// asks for another one.
pub open spec fn config_after(stored: OpenvrConfig, requested: OpenvrConfig) -> OpenvrConfig {
    if stored.same_spec(requested) {
        stored
    } else {
        requested
    }
}

/// Decides what a client that can show video is told.
///
/// A driver configuration other than the stored one is stored, and the driver restarts.
/// Otherwise streaming starts. Where this fails, the stored configuration stays.
pub fn request_video_streaming(
    clients: &ClientTable,
    stored: &mut OpenvrConfig,
    hostname: &String,
    settings: &Settings,
    session: &SessionSettings,
    measured: &VideoMeasurements,
    game_audio: Result<u32, VideoRequestError>,
) -> (res: Result<VideoRequestAction, VideoRequestError>)
    requires
        clients.wf(),
        clients@.contains_key(hostname@) ==> (clients@[hostname@].capabilities matches Some(c)
            ==> c.supported_refresh_rates.len() == measured.rate_distances.len()),
    ensures
        !clients@.contains_key(hostname@) ==> {
            &&& res == Result::<VideoRequestAction, VideoRequestError>::Err(
                VideoRequestError::NoSuchClient(*hostname),
            )
            &&& *final(stored) == *old(stored)
        },
        clients@.contains_key(hostname@) ==> match clients@[hostname@].capabilities {
            None => {
                &&& res == Result::<VideoRequestAction, VideoRequestError>::Err(
                    VideoRequestError::NoVideoSupport(*hostname),
                )
                &&& *final(stored) == *old(stored)
            },
            Some(capabilities) => match game_audio {
                Err(cause) => {
                    &&& res == Result::<VideoRequestAction, VideoRequestError>::Err(cause)
                    &&& *final(stored) == *old(stored)
                },
                Ok(sample_rate) => {
                    let rates = capabilities.supported_refresh_rates@;
                    let requested = requested_config(*settings, *session, rates, *measured);
                    let sse_socket = clients@[hostname@].sse_socket;
                    &&& *final(stored) == config_after(*old(stored), requested)
                    &&& res == Result::<VideoRequestAction, VideoRequestError>::Ok(
                        if old(stored).same_spec(requested) {
                            VideoRequestAction::Start {
                                sse_socket,
                                config: StreamConfigPacket {
                                    view_resolution: measured.video_eye(),
                                    fps: closest_rate(rates, measured.rate_distances@),
                                    game_audio_sample_rate: sample_rate,
                                },
                            }
                        } else {
                            VideoRequestAction::Restart { sse_socket }
                        },
                    )
                },
            },
        },
{
    let connection_data = match clients.get(hostname) {
        Some(data) => data,
        None => {
            return Err(VideoRequestError::NoSuchClient(hostname.clone()));
        },
    };
    let capabilities = match &connection_data.capabilities {
        Some(capabilities) => capabilities,
        None => {
            return Err(VideoRequestError::NoVideoSupport(hostname.clone()));
        },
    };
    let video_eye = UVec2 {
        x: align32(measured.render_eye_width),
        y: align32(measured.render_eye_height),
    };
    let target_eye = UVec2 {
        x: align32(measured.target_eye_width),
        y: align32(measured.target_eye_height),
    };
    let fps = select_refresh_rate(&capabilities.supported_refresh_rates, &measured.rate_distances);
    let game_audio_sample_rate: u32 = match game_audio {
        Ok(rate) => rate,
        Err(cause) => {
            return Err(cause);
        },
    };
    let requested = openvr_config(settings, session, video_eye, target_eye, fps.to_u32());
    let sse_socket: u64 = connection_data.sse_socket;
    if !stored.same(&requested) {
        *stored = requested;
        Ok(VideoRequestAction::Restart { sse_socket })
    } else {
        Ok(
            VideoRequestAction::Start {
                sse_socket,
                config: StreamConfigPacket {
                    view_resolution: video_eye,
                    fps,
                    game_audio_sample_rate,
                },
            },
        )
    }
}

/// A request succeeds only by a client that was told to start streaming. One that restarts the
/// driver ends as interrupted, whether the client could be told or not.
pub proof fn law_only_a_start_succeeds(action: VideoRequestAction, told: IntResult<()>)
    ensures
        action.end_spec(told) is Ok <==> told is Ok && action.notice_spec().1 is StartStreaming,
        action is Restart ==> action.end_spec(told) == IntResult::<()>::Err(
            InterruptibleError::Interrupted,
        ) && action.notice_spec().1 == SsePacket::ServerRestarting,
{
}

/// A request that changed the configuration asks for no further change: made again, it starts
/// streaming.
pub proof fn law_repeated_request_starts_streaming(stored: OpenvrConfig, requested: OpenvrConfig)
    requires
        requested.has_no_nan(),
    ensures
        config_after(stored, requested).same_spec(requested),
{
    crate::openvr::law_configuration_is_same_as_itself(requested);
}

/// Whether a field of a configuration holds a number of the settings, perhaps in its other
/// encoding.
pub open spec fn kept_number(field: F32, setting: F32) -> bool {
    field.bits == setting.bits || field.same_spec(setting)
}

/// Whether a size in pixels is what is left of a length: the multiple of 32 that is less than 32
/// below its whole part, or the largest size where the length does not fit in 32 bits.
pub open spec fn is_cut_down(size: u32, length: F32) -> bool {
    if length.whole_above_zero() <= u32::MAX {
        size % 32 == 0 && size <= length.whole_above_zero() < size + 32
    } else {
        size == u32::MAX
    }
}

proof fn lemma_aligned_is_cut_down(length: F32)
    ensures
        is_cut_down(crate::float32::aligned(length), length),
{
    if length.whole_above_zero() <= u32::MAX {
        crate::float32::law_aligned_size_is_close(length);
    }
}

/// The sizes of one eye: each is what is left of its own length.
pub proof fn law_sizes_are_cut_down_from_their_lengths(measured: VideoMeasurements)
    ensures
        is_cut_down(measured.video_eye().x, measured.render_eye_width),
        is_cut_down(measured.video_eye().y, measured.render_eye_height),
        is_cut_down(measured.target_eye().x, measured.target_eye_width),
        is_cut_down(measured.target_eye().y, measured.target_eye_height),
{
    lemma_aligned_is_cut_down(measured.render_eye_width);
    lemma_aligned_is_cut_down(measured.render_eye_height);
    lemma_aligned_is_cut_down(measured.target_eye_width);
    lemma_aligned_is_cut_down(measured.target_eye_height);
}

/// After a request of a client that can show video, the stored configuration holds what the
/// settings say, option by option, whether it had to be changed for that or not. Its sizes are
/// those of the lengths that were measured, and its refresh rate is the whole part of the one that
/// was chosen.
#[verifier::rlimit(60)]
#[verifier::spinoff_prover]
pub proof fn law_stored_configuration_follows_the_settings(
    clients: Map<Seq<char>, ClientConnectionData>,
    stored: OpenvrConfig,
    hostname: String,
    settings: Settings,
    session: SessionSettings,
    measured: VideoMeasurements,
    game_audio: Result<u32, VideoRequestError>,
    table: ClientTable,
    current: &mut OpenvrConfig,
    res: Result<VideoRequestAction, VideoRequestError>,
)
    requires
        call_ensures(
            request_video_streaming,
            (&table, current, &hostname, &settings, &session, &measured, game_audio),
            res,
        ),
        clients == table@,
        stored == *old(current),
        clients.contains_key(hostname@),
        clients[hostname@].capabilities is Some,
        game_audio is Ok,
    ensures
        ({
            let after = *final(current);
            let rate = closest_rate(
                clients[hostname@].capabilities->0.supported_refresh_rates@,
                measured.rate_distances@,
            );
            &&& is_cut_down(after.eye_resolution_width, measured.render_eye_width)
            &&& is_cut_down(after.eye_resolution_height, measured.render_eye_height)
            &&& is_cut_down(after.target_eye_resolution_width, measured.target_eye_width)
            &&& is_cut_down(after.target_eye_resolution_height, measured.target_eye_height)
            &&& rate.whole_above_zero() <= u32::MAX ==> after.refresh_rate
                == rate.whole_above_zero()
            &&& settings.video.codec == crate::session::CodecType::HEVC ==> after.codec == 1
            &&& settings.video.codec == crate::session::CodecType::H264 ==> after.codec == 0
            &&& after.universe_id == settings.headset.universe_id
            &&& after.headset_serial_number@ == settings.headset.serial_number@
            &&& after.headset_tracking_system_name@ == settings.headset.tracking_system_name@
            &&& after.headset_model_number@ == settings.headset.model_number@
            &&& after.headset_driver_version@ == settings.headset.driver_version@
            &&& after.headset_manufacturer_name@ == settings.headset.manufacturer_name@
            &&& after.headset_render_model_name@ == settings.headset.render_model_name@
            &&& after.headset_registered_device_type@ == settings.headset.registered_device_type@
            &&& kept_number(after.seconds_from_vsync_to_photons, settings.video.seconds_from_vsync_to_photons)
            &&& after.force_3dof == settings.headset.force_3dof
            &&& after.tracking_ref_only == settings.headset.tracking_ref_only
            &&& after.enable_vive_tracker_proxy == settings.headset.enable_vive_tracker_proxy
            &&& after.aggressive_keyframe_resend == settings.connection.aggressive_keyframe_resend
            &&& after.adapter_index == settings.video.adapter_index
            &&& after.use_10bit_encoder == settings.video.use_10bit_encoder
            &&& after.force_sw_encoding == settings.video.force_sw_encoding
            &&& after.sw_thread_count == settings.video.sw_thread_count
            &&& after.encode_bitrate_mbs == settings.video.encode_bitrate_mbs
            &&& after.enable_adaptive_bitrate == session.video.adaptive_bitrate.enabled
            &&& after.bitrate_maximum == session.video.adaptive_bitrate.content.bitrate_maximum
            &&& after.latency_target == session.video.adaptive_bitrate.content.latency_target
            &&& after.latency_use_frametime == session.video.adaptive_bitrate.content.latency_use_frametime.enabled
            &&& after.latency_target_maximum == session.video.adaptive_bitrate.content.latency_use_frametime.content.latency_target_maximum
            &&& after.latency_target_offset == session.video.adaptive_bitrate.content.latency_use_frametime.content.latency_target_offset
            &&& after.latency_threshold == session.video.adaptive_bitrate.content.latency_threshold
            &&& after.bitrate_up_rate == session.video.adaptive_bitrate.content.bitrate_up_rate
            &&& after.bitrate_down_rate == session.video.adaptive_bitrate.content.bitrate_down_rate
            &&& kept_number(after.bitrate_light_load_threshold, session.video.adaptive_bitrate.content.bitrate_light_load_threshold)
            &&& after.controllers_tracking_system_name@ == session.headset.controllers.content.tracking_system_name@
            &&& after.controllers_manufacturer_name@ == session.headset.controllers.content.manufacturer_name@
            &&& after.controllers_model_number@ == session.headset.controllers.content.model_number@
            &&& after.render_model_name_left_controller@ == session.headset.controllers.content.render_model_name_left@
            &&& after.render_model_name_right_controller@ == session.headset.controllers.content.render_model_name_right@
            &&& after.controllers_serial_number@ == session.headset.controllers.content.serial_number@
            &&& after.controllers_type_left@ == session.headset.controllers.content.ctrl_type_left@
            &&& after.controllers_type_right@ == session.headset.controllers.content.ctrl_type_right@
            &&& after.controllers_registered_device_type@ == session.headset.controllers.content.registered_device_type@
            &&& after.controllers_input_profile_path@ == session.headset.controllers.content.input_profile_path@
            &&& after.controllers_mode_idx == session.headset.controllers.content.mode_idx
            &&& after.controllers_enabled == session.headset.controllers.enabled
            &&& kept_number(after.position_offset[0], settings.headset.position_offset[0])
            &&& kept_number(after.position_offset[1], settings.headset.position_offset[1])
            &&& kept_number(after.position_offset[2], settings.headset.position_offset[2])
            &&& kept_number(after.linear_velocity_cutoff, session.headset.controllers.content.linear_velocity_cutoff)
            &&& kept_number(after.angular_velocity_cutoff, session.headset.controllers.content.angular_velocity_cutoff)
            &&& kept_number(after.position_offset_left[0], session.headset.controllers.content.position_offset_left[0])
            &&& kept_number(after.position_offset_left[1], session.headset.controllers.content.position_offset_left[1])
            &&& kept_number(after.position_offset_left[2], session.headset.controllers.content.position_offset_left[2])
            &&& kept_number(after.rotation_offset_left[0], session.headset.controllers.content.rotation_offset_left[0])
            &&& kept_number(after.rotation_offset_left[1], session.headset.controllers.content.rotation_offset_left[1])
            &&& kept_number(after.rotation_offset_left[2], session.headset.controllers.content.rotation_offset_left[2])
            &&& kept_number(after.haptics_intensity, session.headset.controllers.content.haptics_intensity)
            &&& kept_number(after.haptics_amplitude_curve, session.headset.controllers.content.haptics_amplitude_curve)
            &&& kept_number(after.haptics_min_duration, session.headset.controllers.content.haptics_min_duration)
            &&& kept_number(after.haptics_low_duration_amplitude_multiplier, session.headset.controllers.content.haptics_low_duration_amplitude_multiplier)
            &&& kept_number(after.haptics_low_duration_range, session.headset.controllers.content.haptics_low_duration_range)
            &&& after.use_headset_tracking_system == session.headset.controllers.content.use_headset_tracking_system
            &&& after.enable_foveated_rendering == session.video.foveated_rendering.enabled
            &&& kept_number(after.foveation_center_size_x, session.video.foveated_rendering.content.center_size_x)
            &&& kept_number(after.foveation_center_size_y, session.video.foveated_rendering.content.center_size_y)
            &&& kept_number(after.foveation_center_shift_x, session.video.foveated_rendering.content.center_shift_x)
            &&& kept_number(after.foveation_center_shift_y, session.video.foveated_rendering.content.center_shift_y)
            &&& kept_number(after.foveation_edge_ratio_x, session.video.foveated_rendering.content.edge_ratio_x)
            &&& kept_number(after.foveation_edge_ratio_y, session.video.foveated_rendering.content.edge_ratio_y)
            &&& after.enable_color_correction == session.video.color_correction.enabled
            &&& kept_number(after.brightness, session.video.color_correction.content.brightness)
            &&& kept_number(after.contrast, session.video.color_correction.content.contrast)
            &&& kept_number(after.saturation, session.video.color_correction.content.saturation)
            &&& kept_number(after.gamma, session.video.color_correction.content.gamma)
            &&& kept_number(after.sharpening, session.video.color_correction.content.sharpening)
            &&& after.enable_fec == session.connection.enable_fec
            &&& after.linux_async_reprojection == session.extra.patches.linux_async_reprojection
        }),
{
    let rates = clients[hostname@].capabilities->0.supported_refresh_rates@;
    let requested = requested_config(settings, session, rates, measured);
    law_sizes_are_cut_down_from_their_lengths(measured);
    crate::float32::law_conversion_keeps_the_whole_part(
        closest_rate(rates, measured.rate_distances@),
    );
    crate::openvr::law_same_configurations_agree_in_every_field(stored, requested);
}

/// A request of a client that can show video, with its audio in order, is answered on the socket of
/// that very client. Streaming starts exactly where the stored configuration may stay, and it stays
/// then as it is. The driver restarts exactly where some option that the driver reads has changed.
pub proof fn law_driver_restarts_exactly_for_a_changed_configuration(
    clients: Map<Seq<char>, ClientConnectionData>,
    stored: OpenvrConfig,
    hostname: String,
    settings: Settings,
    session: SessionSettings,
    measured: VideoMeasurements,
    sample_rate: u32,
    table: ClientTable,
    current: &mut OpenvrConfig,
    res: Result<VideoRequestAction, VideoRequestError>,
)
    requires
        call_ensures(
            request_video_streaming,
            (&table, current, &hostname, &settings, &session, &measured, Ok(sample_rate)),
            res,
        ),
        clients == table@,
        stored == *old(current),
        clients.contains_key(hostname@),
        clients[hostname@].capabilities is Some,
    ensures
        ({
            let decision = res;
            let after = *final(current);
            &&& decision matches Ok(action) && action.notice_spec().0
                == clients[hostname@].sse_socket
            &&& decision matches Ok(VideoRequestAction::Start { .. }) ==> after == stored
            &&& decision matches Ok(VideoRequestAction::Restart { .. }) ==> !stored.same_spec(after)
            &&& stored.codec != after.codec || stored.eye_resolution_width
                != after.eye_resolution_width || stored.refresh_rate != after.refresh_rate
                ==> decision matches Ok(VideoRequestAction::Restart { .. })
        }),
{
}

/// What a client that is told to start streaming is told: the sizes of one eye as they were measured
/// for video, the rate that was chosen, and the sample rate of the game audio.
pub proof fn law_started_stream_is_described(
    clients: Map<Seq<char>, ClientConnectionData>,
    stored: OpenvrConfig,
    hostname: String,
    settings: Settings,
    session: SessionSettings,
    measured: VideoMeasurements,
    game_audio: Result<u32, VideoRequestError>,
    table: ClientTable,
    current: &mut OpenvrConfig,
    res: Result<VideoRequestAction, VideoRequestError>,
)
    requires
        call_ensures(
            request_video_streaming,
            (&table, current, &hostname, &settings, &session, &measured, game_audio),
            res,
        ),
        clients == table@,
        stored == *old(current),
    ensures
        res matches Ok(VideoRequestAction::Start { sse_socket, config }) ==> {
            &&& clients.contains_key(hostname@)
            &&& sse_socket == clients[hostname@].sse_socket
            &&& clients[hostname@].capabilities matches Some(capabilities) && config.fps
                == closest_rate(
                capabilities.supported_refresh_rates@,
                measured.rate_distances@,
            )
            &&& game_audio == Ok::<u32, VideoRequestError>(config.game_audio_sample_rate)
            &&& is_cut_down(config.view_resolution.x, measured.render_eye_width)
            &&& is_cut_down(config.view_resolution.y, measured.render_eye_height)
            &&& config.view_resolution.x == stored.eye_resolution_width
            &&& config.view_resolution.y == stored.eye_resolution_height
        },
{
    law_sizes_are_cut_down_from_their_lengths(measured);
}

/// A request is refused exactly where its client is not connected, cannot show video or has no
/// audio, in this order, and a request that is refused changes nothing.
pub proof fn law_refused_requests_change_nothing(
    clients: Map<Seq<char>, ClientConnectionData>,
    stored: OpenvrConfig,
    hostname: String,
    settings: Settings,
    session: SessionSettings,
    measured: VideoMeasurements,
    game_audio: Result<u32, VideoRequestError>,
    table: ClientTable,
    current: &mut OpenvrConfig,
    res: Result<VideoRequestAction, VideoRequestError>,
)
    requires
        call_ensures(
            request_video_streaming,
            (&table, current, &hostname, &settings, &session, &measured, game_audio),
            res,
        ),
        clients == table@,
        stored == *old(current),
    ensures
        ({
            let decision = res;
            &&& decision is Err ==> *final(current) == stored
            &&& !clients.contains_key(hostname@) ==> decision
                == Err::<VideoRequestAction, VideoRequestError>(
                VideoRequestError::NoSuchClient(hostname),
            )
            &&& clients.contains_key(hostname@) && clients[hostname@].capabilities is None
                ==> decision == Err::<VideoRequestAction, VideoRequestError>(
                VideoRequestError::NoVideoSupport(hostname),
            )
            &&& clients.contains_key(hostname@) && clients[hostname@].capabilities is Some ==> (
            decision is Err <==> game_audio is Err)
            &&& clients.contains_key(hostname@) && clients[hostname@].capabilities is Some ==> (
            game_audio matches Err(cause) ==> decision == Err::<VideoRequestAction, VideoRequestError>(
                cause,
            ))
        }),
{
}

/// What is written in the log about a refused request names the client, or the cause as it was
/// reported.
pub proof fn law_refusals_name_their_cause(error: VideoRequestError, res: String)
    requires
        call_ensures(VideoRequestError::message, (error,), res),
    ensures
        error matches VideoRequestError::NoSuchClient(hostname) ==> res@ == "No such client: "@
            + hostname@,
        error matches VideoRequestError::NoVideoSupport(hostname) ==> res@
            == "Client does not support video streaming: "@ + hostname@,
        error matches VideoRequestError::AudioDevice(cause) ==> res@ == cause@,
        error is SameAudioDevice ==> res@
            == "Game audio and microphone cannot point to the same device!"@,
{
}

/// The chosen refresh rate is the first of those that are nearest: every rate before it in the list
/// is farther away, and no rate after it is nearer. Where no rate is at a distance below the largest
/// number, the rate is 0.
pub proof fn law_chosen_rate_is_the_first_of_the_nearest(rates: Seq<F32>, distances: Seq<F32>)
    requires
        rates.len() == distances.len(),
    ensures
        (exists|k: int|
            0 <= k < rates.len() && #[trigger] rates[k] == closest_rate(rates, distances)
                && distances[k].lt_spec(F32 { bits: LARGEST_FINITE_BITS }) && (forall|j: int|
                0 <= j < k && !(#[trigger] distances[j]).is_nan_spec() ==> distances[k].lt_spec(
                    distances[j],
                )) && (forall|j: int|
                k <= j < rates.len() ==> !(#[trigger] distances[j]).lt_spec(distances[k]))) || (
        closest_rate(rates, distances).bits == 0 && forall|j: int|
            0 <= j < distances.len() ==> !(#[trigger] distances[j]).lt_spec(
                F32 { bits: LARGEST_FINITE_BITS },
            )),
{
    if exists|j: int|
        0 <= j < distances.len() && (#[trigger] distances[j]).lt_spec(
            F32 { bits: LARGEST_FINITE_BITS },
        ) {
        let j = choose|j: int|
            0 <= j < distances.len() && (#[trigger] distances[j]).lt_spec(
                F32 { bits: LARGEST_FINITE_BITS },
            );
        lemma_closest_exists(distances, j);
        let k = choose|k: int| is_closest(distances, k);
        assert(rates[k] == closest_rate(rates, distances));
        assert forall|j: int|
            0 <= j < k && !(#[trigger] distances[j]).is_nan_spec() implies distances[k].lt_spec(
            distances[j],
        ) by {
            assert(!distances[j].lt_spec(distances[k]));
            assert(!distances[j].same_spec(distances[k]));
        }
    }
}

/// The lengths of one eye: a scale applies to the width and to the height that the headset asks
/// for, each to its own. A frame in pixels holds two eyes side by side.
pub proof fn law_eyes_share_the_width_of_a_frame(
    size: FrameSize,
    resolution: UVec2,
    res: (SideLength, SideLength),
)
    requires
        call_ensures(eye_size, (size, resolution), res),
    ensures
        size matches FrameSize::Scale(scale) ==> {
            &&& res.0 matches SideLength::Scaled { pixels, factor } && pixels
                == resolution.x && factor.bits == scale.bits
            &&& res.1 matches SideLength::Scaled { pixels, factor } && pixels
                == resolution.y && factor.bits == scale.bits
        },
        size matches FrameSize::Absolute { width, height } ==> {
            &&& res.0 matches SideLength::Half(pixels) && pixels == width
            &&& res.1 matches SideLength::Whole(pixels) && pixels == height
        },
{
}

/// The lengths for video depend on the resolution that is rendered alone, those for the applications
/// on the one that is recommended to them alone.
pub proof fn law_each_length_follows_its_resolution(
    settings: Settings,
    capabilities: VideoStreamingCapabilities,
    sides: EyeSides,
)
    requires
        call_ensures(view_sides, (&settings, &capabilities), sides),
    ensures
        ({
            let resolution = capabilities.default_view_resolution;
            &&& settings.video.render_resolution matches FrameSize::Scale(factor) ==> sides.render_width
                == (SideLength::Scaled { pixels: resolution.x, factor }) && sides.render_height == (
            SideLength::Scaled { pixels: resolution.y, factor })
            &&& settings.video.render_resolution matches FrameSize::Absolute { width, height }
                ==> sides.render_width == SideLength::Half(width) && sides.render_height
                == SideLength::Whole(height)
            &&& settings.video.recommended_target_resolution matches FrameSize::Scale(factor)
                ==> sides.target_width == (SideLength::Scaled { pixels: resolution.x, factor })
                && sides.target_height == (SideLength::Scaled { pixels: resolution.y, factor })
            &&& settings.video.recommended_target_resolution matches FrameSize::Absolute {
                width,
                height,
            } ==> sides.target_width == SideLength::Half(width) && sides.target_height
                == SideLength::Whole(height)
        }),
{
}

/// The audio devices are those of the settings: game audio is opened by its own name, the microphone
/// by the name of its input, both by the backend that is set. Without game audio nothing is opened
/// and the rate is 0.
pub proof fn law_audio_devices_are_those_of_the_settings(
    audio: AudioSettings,
    progress: AudioProgress,
    devices_must_differ: bool,
    step: AudioStep,
)
    requires
        call_ensures(next_audio_step, (&audio, progress, devices_must_differ), step),
    ensures
        ({
            &&& step matches AudioStep::OpenGameAudio { backend, device_id } ==> {
                &&& progress is Idle
                &&& backend == audio.linux_backend
                &&& audio.game_audio matches Switch::Enabled(desc) && device_id == desc.device_id
            }
            &&& step matches AudioStep::OpenMicrophone { backend, device_id } ==> {
                &&& progress matches AudioProgress::GameAudio(Ok(_))
                &&& backend == audio.linux_backend
                &&& audio.microphone matches Switch::Enabled(desc) && device_id
                    == desc.input_device_id
            }
            &&& step is ReadSampleRate ==> match progress {
                AudioProgress::GameAudio(Ok(_)) => audio.microphone is Disabled,
                AudioProgress::Microphone(Ok(same)) => !(same && devices_must_differ),
                _ => false,
            }
            &&& step matches AudioStep::Done(rate) ==> match progress {
                AudioProgress::Idle => audio.game_audio is Disabled && rate == 0,
                AudioProgress::SampleRate(Ok(read)) => rate == read,
                _ => false,
            }
            &&& step matches AudioStep::Failed(error) ==> match progress {
                AudioProgress::GameAudio(Err(cause)) => error == VideoRequestError::AudioDevice(
                    cause,
                ),
                AudioProgress::Microphone(Err(cause)) => error == VideoRequestError::AudioDevice(
                    cause,
                ),
                AudioProgress::SampleRate(Err(cause)) => error == VideoRequestError::AudioDevice(
                    cause,
                ),
                AudioProgress::Microphone(Ok(same)) => same && devices_must_differ && error
                    == VideoRequestError::SameAudioDevice,
                _ => false,
            }
        }),
{
}

/// A refused request ends by an error that has the words of its message.
pub proof fn law_refusals_end_by_their_message(
    error: VideoRequestError,
    message: String,
    res: IntResult<()>,
)
    requires
        call_ensures(VideoRequestError::message, (error,), message),
        call_ensures(VideoRequestError::end, (error,), res),
    ensures
        res matches Err(InterruptibleError::Other(text)) && text@ == message@,
{
}

/// What follows a decision. The client that asked is told, on its own socket, either to start with
/// the stream that was decided on or that the server restarts; the driver restarts exactly in the
/// second case, and the request is then interrupted. A start ends as the telling did.
pub proof fn law_decisions_are_told_and_carried_out(
    action: VideoRequestAction,
    notice: (u64, SsePacket),
    restarts: bool,
    told: IntResult<()>,
    end: IntResult<()>,
)
    requires
        call_ensures(VideoRequestAction::notice, (&action,), notice),
        call_ensures(VideoRequestAction::restarts, (&action,), restarts),
        call_ensures(VideoRequestAction::end, (action, told), end),
    ensures
        action matches VideoRequestAction::Start { sse_socket, config } ==> {
            &&& notice.0 == sse_socket
            &&& notice.1 == SsePacket::StartStreaming(config)
            &&& !restarts
            &&& end == told
        },
        action matches VideoRequestAction::Restart { sse_socket } ==> {
            &&& notice.0 == sse_socket
            &&& notice.1 == SsePacket::ServerRestarting
            &&& restarts
            &&& end == IntResult::<()>::Err(InterruptibleError::Interrupted)
        },
{
}

/// A preferred rate counts as supported exactly where some rate of the headset is the same number.
pub proof fn law_supported_rates_are_those_of_the_headset(
    rates: Vec<F32>,
    preferred: F32,
    res: bool,
    k: int,
)
    requires
        call_ensures(refresh_rate_supported, (&rates, preferred), res),
    ensures
        0 <= k < rates@.len() && crate::float32::equal_numbers(rates@[k], preferred) ==> res,
        res ==> exists|i: int|
            0 <= i < rates@.len() && crate::float32::equal_numbers(#[trigger] rates@[i], preferred),
{
    if 0 <= k < rates@.len() && crate::float32::equal_numbers(rates@[k], preferred) {
        crate::float32::law_same_numbers_have_the_same_bits(rates@[k], preferred);
        assert(is_supported(rates@, preferred));
    }
    if res {
        let i = choose|i: int| 0 <= i < rates@.len() && (#[trigger] rates@[i]).same_spec(preferred);
        crate::float32::law_same_numbers_have_the_same_bits(rates@[i], preferred);
    }
}

/// A rate is selected as the first of the nearest ones.
pub proof fn law_selected_rate_is_the_first_of_the_nearest(
    rates: Vec<F32>,
    distances: Vec<F32>,
    res: F32,
)
    requires
        call_ensures(select_refresh_rate, (&rates, &distances), res),
        rates@.len() == distances@.len(),
    ensures
        (exists|k: int|
            0 <= k < rates@.len() && #[trigger] rates@[k] == res && distances@[k].lt_spec(
                F32 { bits: 0x7f7f_ffff },
            ) && (forall|j: int|
                0 <= j < k && !(#[trigger] distances@[j]).is_nan_spec() ==> distances@[k].lt_spec(
                    distances@[j],
                )) && (forall|j: int|
                k <= j < rates@.len() ==> !(#[trigger] distances@[j]).lt_spec(distances@[k]))) || (
        res.bits == 0 && forall|j: int|
            0 <= j < distances@.len() ==> !(#[trigger] distances@[j]).lt_spec(
                F32 { bits: 0x7f7f_ffff },
            )),
{
    law_chosen_rate_is_the_first_of_the_nearest(rates@, distances@);
}

/// A copy of a device name is that name.
pub proof fn law_device_names_are_copied(id: AudioDeviceId, res: AudioDeviceId)
    requires
        call_ensures(copy_device_id, (&id,), res),
    ensures
        res == id,
{
}

} // verus!
