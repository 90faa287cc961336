//! The loop that takes captured frames and decides how they go to the client.
//!
//! Each turn of the loop is a sequence of steps. A step looks at what happened, changes the
//! counters and flags of the loop, and says what to do next. Times are in nanoseconds.

use crate::config::{Config, DamageTrackingConfig, EgfxConfig, Float32};
use crate::server::display_handler::{DesktopSize, IronBitmapUpdate, LamcoDisplayHandler,
    ResizeRequest, StreamConfig};
use crate::server::egfx_sender::{all_wf, every_changed_pixel_is_sent, picture_regions, regions_of,
    surface_for, DamageRegion, EgfxFrameSender, FrameRequest, SendError};
use crate::server::gfx_factory::HandlerState;
use crate::server::padding::{align_to_16, aligned, pad_frame_to_aligned, padding_repeats_edges,
    Padding};
use crate::text::{ascii_lower, ascii_lowered, is_ascii_text, lowercase, same_text, to_lowercase};
use vstd::prelude::*;

verus! {

/// Nanoseconds of a millisecond.
pub const NANOS_PER_MS: u64 = 1_000_000;

/// How long frames may stay away before that is reported.
pub const STALL_THRESHOLD: u64 = 3_000_000_000;

/// How long the first frame may take before that is reported.
pub const ZERO_FRAME_THRESHOLD: u64 = 10_000_000_000;

/// How long frames wait for the graphics channel.
pub const EGFX_TIMEOUT: u64 = 5_000_000_000;

/// How latency and quality are weighed.
#[derive(Debug, Clone, Copy, PartialEq, Eq, Structural)]
pub enum LatencyMode {
    Interactive,
    Balanced,
    Quality,
}

/// The weighing that a setting names; balanced where it names none.
pub open spec fn latency_named(name: Seq<char>) -> LatencyMode {
    if name == "interactive"@ {
        LatencyMode::Interactive
    } else if name == "quality"@ {
        LatencyMode::Quality
    } else {
        LatencyMode::Balanced
    }
}

/// The weighing that a setting names; balanced where it names none.
pub fn latency_mode(name: &str) -> (r: LatencyMode)
    ensures
        r == latency_named(name@),
{
    if same_text(name, "interactive") {
        LatencyMode::Interactive
    } else if same_text(name, "quality") {
        LatencyMode::Quality
    } else {
        LatencyMode::Balanced
    }
}

/// How changed parts are found.
#[derive(Debug, Clone, Copy, PartialEq, Eq, Structural)]
pub struct DamageConfig {
    pub tile_size: usize,
    pub diff_threshold: Float32,
    pub pixel_threshold: u8,
    pub merge_distance: u32,
    pub min_region_area: u64,
}

/// How changed parts are found, where they are looked for at all.
pub open spec fn damage_settings(config: DamageTrackingConfig) -> Option<DamageConfig> {
    if config.enabled {
        Some(
            DamageConfig {
                tile_size: config.tile_size,
                diff_threshold: config.diff_threshold,
                pixel_threshold: config.pixel_threshold,
                merge_distance: config.merge_distance,
                min_region_area: config.min_region_area,
            },
        )
    } else {
        None
    }
}

/// How changed parts are found, where they are looked for at all.
pub fn damage_config(config: &DamageTrackingConfig) -> (r: Option<DamageConfig>)
    ensures
        r == damage_settings(*config),
{
    if config.enabled {
        Some(
            DamageConfig {
                tile_size: config.tile_size,
                diff_threshold: config.diff_threshold,
                pixel_threshold: config.pixel_threshold,
                merge_distance: config.merge_distance,
                min_region_area: config.min_region_area,
            },
        )
    } else {
        None
    }
}

/// What the loop is set up with.
#[derive(Debug, Clone, Copy, PartialEq, Eq, Structural)]
pub struct PipelineSetup {
    pub adaptive_fps_enabled: bool,
    pub min_fps: u32,
    pub max_fps: u32,
    pub high_activity_threshold: Float32,
    pub medium_activity_threshold: Float32,
    pub low_activity_threshold: Float32,
    pub latency_mode: LatencyMode,
    /// The rate that frames are held to where it does not adapt.
    pub regulator_fps: u32,
    pub damage: Option<DamageConfig>,
}

impl PipelineSetup {
    /// The loop is set up as configured. The frame rate adapts where that is configured and the
    /// desktop supports it.
    pub open spec fn follows(self, config: Config, desktop_supports_adaptive: bool) -> bool {
        &&& self.adaptive_fps_enabled == (config.performance.adaptive_fps.enabled
            && desktop_supports_adaptive)
        &&& self.min_fps == config.performance.adaptive_fps.min_fps
        &&& self.max_fps == config.performance.adaptive_fps.max_fps
        &&& self.high_activity_threshold == config.performance.adaptive_fps.high_activity_threshold
        &&& self.medium_activity_threshold
            == config.performance.adaptive_fps.medium_activity_threshold
        &&& self.low_activity_threshold == config.performance.adaptive_fps.low_activity_threshold
        &&& self.latency_mode == latency_named(config.performance.latency.mode@)
        &&& self.regulator_fps == config.performance.adaptive_fps.max_fps
        &&& self.damage == damage_settings(config.damage_tracking)
    }
}

/// What the loop is set up with. The frame rate adapts where that is configured and the
/// desktop supports it.
pub fn pipeline_setup(config: &Config, desktop_supports_adaptive: bool) -> (r: PipelineSetup)
    requires
        config.performance.adaptive_fps.max_fps > 0,
    ensures
        r.follows(*config, desktop_supports_adaptive),
{
    let fps = &config.performance.adaptive_fps;
    PipelineSetup {
        adaptive_fps_enabled: fps.enabled && desktop_supports_adaptive,
        min_fps: fps.min_fps,
        max_fps: fps.max_fps,
        high_activity_threshold: fps.high_activity_threshold,
        medium_activity_threshold: fps.medium_activity_threshold,
        low_activity_threshold: fps.low_activity_threshold,
        latency_mode: latency_mode(config.performance.latency.mode.as_str()),
        regulator_fps: fps.max_fps,
        damage: damage_config(&config.damage_tracking),
    }
}

/// A video codec.
#[derive(Debug, Clone, Copy, PartialEq, Eq, Structural)]
pub enum VideoCodec {
    /// H.264 with subsampled colour.
    Avc420,
    /// H.264 with full colour, in two streams.
    Avc444,
}

impl VideoCodec {
    /// The codec's name.
    pub open spec fn label(self) -> Seq<char> {
        match self {
            VideoCodec::Avc420 => "AVC420"@,
            VideoCodec::Avc444 => "AVC444"@,
        }
    }

    /// Whether a key frame is due by the clock.
    pub open spec fn renews(self, clock_due: bool) -> bool {
        self == VideoCodec::Avc444 && clock_due
    }

    /// The codec's name.
    pub fn codec_name(&self) -> (r: &'static str)
        ensures
            r@ == self.label(),
    {
        match self {
            VideoCodec::Avc420 => "AVC420",
            VideoCodec::Avc444 => "AVC444",
        }
    }

    /// Whether a key frame is due by the clock, which only one codec has.
    pub fn is_periodic_idr_due(&self, clock_due: bool) -> (r: bool)
        ensures
            r == self.renews(clock_due),
    {
        match self {
            VideoCodec::Avc420 => false,
            VideoCodec::Avc444 => clock_due,
        }
    }

    /// The codec to try where this one cannot be had.
    pub open spec fn next_best(self) -> Option<VideoCodec> {
        match self {
            VideoCodec::Avc444 => Some(VideoCodec::Avc420),
            VideoCodec::Avc420 => None,
        }
    }

    /// The codec to try where this one cannot be had.
    pub fn fallback(&self) -> (r: Option<VideoCodec>)
        ensures
            r == self.next_best(),
    {
        match self {
            VideoCodec::Avc444 => Some(VideoCodec::Avc420),
            VideoCodec::Avc420 => None,
        }
    }
}

/// The codec to try first: full colour where the settings and the client allow it.
pub open spec fn chosen_codec(config: EgfxConfig, client_has_avc444: bool) -> VideoCodec {
    if lowercase(config.codec@) != "avc420"@ && config.avc444_enabled && client_has_avc444 {
        VideoCodec::Avc444
    } else {
        VideoCodec::Avc420
    }
}

/// The codec to try first.
pub fn choose_codec(config: &EgfxConfig, client_has_avc444: bool) -> (r: VideoCodec)
    ensures
        r == chosen_codec(*config, client_has_avc444),
{
    let preference = to_lowercase(config.codec.as_str());
    if !same_text(preference.as_str(), "avc420") && config.avc444_enabled && client_has_avc444 {
        VideoCodec::Avc444
    } else {
        VideoCodec::Avc420
    }
}

/// What an encoder made of a picture.
#[derive(Debug)]
pub enum EncodedVideoFrame {
    Single(Vec<u8>),
    /// Two streams, of which the second may be left out.
    Dual { main: Vec<u8>, aux: Option<Vec<u8>> },
}

/// What is known of a captured frame.
#[derive(Debug, Clone, Copy, PartialEq, Eq, Structural)]
pub struct FrameInfo {
    pub width: u32,
    pub height: u32,
    /// When it was captured, where the capture says so; else zero.
    pub pts: u64,
    pub data_len: usize,
}

impl FrameInfo {
    /// The frame's size in bytes is a number.
    pub open spec fn wf(self) -> bool {
        self.width * self.height * 4 <= u32::MAX
    }
}

/// The state of a capture stream.
#[derive(Debug, Clone, Copy, PartialEq, Eq, Structural)]
pub enum PwStreamState {
    Streaming,
    Paused,
    Error,
    Unconnected,
    Connecting,
}

/// The state of a capture stream, for the health monitor.
#[derive(Debug, Clone, Copy, PartialEq, Eq, Structural)]
pub enum VideoStreamState {
    Streaming,
    Paused,
    Error,
}

/// What the health monitor is told of a stream; nothing while it is being set up or torn down.
pub open spec fn reported_state(state: PwStreamState) -> Option<VideoStreamState> {
    match state {
        PwStreamState::Streaming => Some(VideoStreamState::Streaming),
        PwStreamState::Paused => Some(VideoStreamState::Paused),
        PwStreamState::Error => Some(VideoStreamState::Error),
        PwStreamState::Unconnected | PwStreamState::Connecting => None,
    }
}

/// What the health monitor is told of a stream; nothing while it is being set up or torn down.
pub fn health_state(state: PwStreamState) -> (r: Option<VideoStreamState>)
    ensures
        r == reported_state(state),
{
    match state {
        PwStreamState::Streaming => Some(VideoStreamState::Streaming),
        PwStreamState::Paused => Some(VideoStreamState::Paused),
        PwStreamState::Error => Some(VideoStreamState::Error),
        PwStreamState::Unconnected | PwStreamState::Connecting => None,
    }
}

/// How a turn begins.
#[derive(Debug, Clone, Copy, PartialEq, Eq, Structural)]
pub enum TurnStart {
    /// Look for a frame.
    Capture,
    /// Start the next turn.
    Again,
    /// Open the stream of a node anew, with another size.
    Recreate { node_id: u32, size: ResizeRequest },
}

/// How a turn goes on.
#[derive(Debug, Clone, Copy, PartialEq, Eq, Structural)]
pub enum NextStep {
    /// Process the frame.
    Process,
    /// Sleep, then start the next turn.
    SleepMs(u64),
}

/// What follows from a frame that arrived.
#[derive(Debug, Clone, Copy, PartialEq, Eq, Structural)]
pub struct Arrival {
    /// The size that the client is told and pictures are converted for from now on.
    pub resized: Option<DesktopSize>,
    /// The health monitor is told that frames are back.
    pub resumed: bool,
    pub next: NextStep,
}

/// What follows from a turn without a frame.
#[derive(Debug, Clone, Copy, PartialEq, Eq, Structural)]
pub struct Idle {
    /// The health monitor is told how many milliseconds there was no frame.
    pub stalled_ms: Option<u64>,
    /// The health monitor is told how many milliseconds there never was a frame.
    pub never_started_ms: Option<u64>,
    /// The last frame is processed once more.
    pub next: NextStep,
}

/// Which way a frame goes.
#[derive(Debug, Clone, Copy, PartialEq, Eq, Structural)]
pub enum Route {
    /// Nowhere: the graphics channel is not ready. Sleep, then start the next turn.
    Wait,
    /// Through the video codec, which may have to be set up first.
    Video { needs_init: bool },
    /// As a plain picture.
    Bitmap,
}

/// What becomes of a frame at the encoder.
#[derive(Debug, Clone, Copy, PartialEq, Eq, Structural)]
pub enum FramePlan {
    /// There is no encoder: it goes as a plain picture.
    Bitmap,
    /// It is cut short: start the next turn.
    Skip,
    /// It is encoded, whole or where it changed.
    Encode { timestamp_ms: u64, whole: bool },
}

/// What the latency governor says of a frame.
#[derive(Debug, Clone, Copy, PartialEq, Eq, Structural)]
pub enum EncodingDecision {
    Skip,
    WaitForMore,
    EncodeNow,
    EncodeKeepalive,
    EncodeBatch,
    EncodeTimeout,
}

/// What becomes of the changed parts of a frame.
#[derive(Debug, Clone, Copy, PartialEq, Eq, Structural)]
pub enum DamageOutcome {
    /// Start the next turn.
    Skip,
    /// Start the next turn; the frame rate learns that nothing changed.
    Unchanged,
    /// Encode the frame.
    Encode,
}

/// The counters and flags of the loop.
#[derive(Debug, Clone, Copy, PartialEq, Eq, Structural)]
pub struct Pipeline {
    pub loop_iterations: u64,
    pub frames_sent: u64,
    pub frames_dropped: u64,
    pub egfx_frames_sent: u64,
    pub frames_skipped_damage: u64,
    /// The encoder, where there is one.
    pub codec: Option<VideoCodec>,
    /// Whether there is a frame sender.
    pub has_sender: bool,
    pub force_first_frame: bool,
    /// Whether the last frame is kept.
    pub has_cached_frame: bool,
    pub last_frame_ns: u64,
    pub video_stall_reported: bool,
    pub session_start_ns: u64,
    pub first_frame_received: bool,
    pub zero_frame_reported: bool,
    pub egfx_gate_bypassed: bool,
    pub was_client_active: bool,
    pub pending_resize: bool,
}

/// The time between two moments, or none where they are the wrong way round.
pub open spec fn since(now: u64, then_ns: u64) -> int {
    if now > then_ns {
        now - then_ns
    } else {
        0
    }
}

/// How a turn begins. Of all sizes that were asked for, only the last one counts; frames that
/// come over a channel keep their size.
pub open spec fn turn_start(
    requests: Seq<ResizeRequest>,
    handler: LamcoDisplayHandler,
) -> TurnStart {
    if requests.len() == 0 {
        TurnStart::Capture
    } else if handler.direct_channel_mode || handler.streams@.len() == 0 {
        TurnStart::Again
    } else {
        TurnStart::Recreate { node_id: handler.streams@[0].node_id, size: requests.last() }
    }
}

/// What becomes of the changed parts of a frame, given what the latency governor says of it.
pub open spec fn damage_outcome(
    regions: Seq<DamageRegion>,
    decision: EncodingDecision,
) -> DamageOutcome {
    if decision == EncodingDecision::Skip || decision == EncodingDecision::WaitForMore {
        DamageOutcome::Skip
    } else if regions.len() == 0 {
        DamageOutcome::Unchanged
    } else {
        DamageOutcome::Encode
    }
}

impl Pipeline {
    /// No counter is at its end.
    pub open spec fn has_room(self) -> bool {
        &&& self.loop_iterations < u64::MAX
        &&& self.frames_sent < u64::MAX / 1000
        &&& self.frames_dropped < u64::MAX
        &&& self.egfx_frames_sent < u64::MAX
        &&& self.frames_skipped_damage < u64::MAX
    }

    /// The loop before its first turn.
    pub fn new(now_ns: u64) -> (r: Self)
        ensures
            r == (Pipeline {
                loop_iterations: 0,
                frames_sent: 0,
                frames_dropped: 0,
                egfx_frames_sent: 0,
                frames_skipped_damage: 0,
                codec: None,
                has_sender: false,
                force_first_frame: false,
                has_cached_frame: false,
                last_frame_ns: now_ns,
                video_stall_reported: false,
                session_start_ns: now_ns,
                first_frame_received: false,
                zero_frame_reported: false,
                egfx_gate_bypassed: false,
                was_client_active: false,
                pending_resize: false,
            }),
            r.has_room(),
    {
        Pipeline {
            loop_iterations: 0,
            frames_sent: 0,
            frames_dropped: 0,
            egfx_frames_sent: 0,
            frames_skipped_damage: 0,
            codec: None,
            has_sender: false,
            force_first_frame: false,
            has_cached_frame: false,
            last_frame_ns: now_ns,
            video_stall_reported: false,
            session_start_ns: now_ns,
            first_frame_received: false,
            zero_frame_reported: false,
            egfx_gate_bypassed: false,
            was_client_active: false,
            pending_resize: false,
        }
    }

    /// Begins a turn. Of all sizes that were asked for, only the last one counts; frames that
    /// come over a channel keep their size.
    pub fn begin(&mut self, requests: &Vec<ResizeRequest>, handler: &LamcoDisplayHandler) -> (r:
        TurnStart)
        requires
            old(self).has_room(),
        ensures
            *final(self) == (Pipeline {
                loop_iterations: (old(self).loop_iterations + 1) as u64,
                ..*old(self)
            }),
            r == turn_start(requests@, *handler),
    {
        self.loop_iterations = self.loop_iterations + 1;
        let n: usize = requests.len();
        if n == 0 {
            return TurnStart::Capture;
        }
        if handler.direct_channel_mode || handler.streams.len() == 0 {
            return TurnStart::Again;
        }
        TurnStart::Recreate { node_id: handler.streams[0].node_id, size: requests[n - 1] }
    }

    /// The settings to open the stream with, once the one before was closed.
    pub fn stream_destroyed(&self, closed: bool, size: ResizeRequest) -> (r: Option<StreamConfig>)
        ensures
            match r {
                Some(c) => closed && c.is_for(0, size.width as u32, size.height as u32),
                None => !closed,
            },
    {
        if closed {
            Some(StreamConfig::for_monitor(0, size.width as u32, size.height as u32))
        } else {
            None
        }
    }

    /// The loop after the stream was to be opened anew.
    pub open spec fn after_reopening(self, opened: bool) -> Self {
        if opened {
            Pipeline {
                pending_resize: true,
                codec: None,
                has_sender: false,
                force_first_frame: false,
                ..self
            }
        } else {
            self
        }
    }

    /// Takes whether the stream was opened anew. If so, the encoder is dropped, the next frame
    /// decides on the size, and what is known of changed parts is void.
    pub fn stream_recreated(&mut self, opened: bool)
        ensures
            *final(self) == old(self).after_reopening(opened),
    {
        if opened {
            self.pending_resize = true;
            self.codec = None;
            self.has_sender = false;
            self.force_first_frame = false;
        }
    }

    /// The loop at the moment a client came: everything of an earlier one is gone.
    pub open spec fn restarted(self, now_ns: u64) -> Self {
        Pipeline {
            was_client_active: true,
            session_start_ns: now_ns,
            egfx_gate_bypassed: false,
            first_frame_received: false,
            zero_frame_reported: false,
            frames_sent: 0,
            frames_dropped: 0,
            egfx_frames_sent: 0,
            codec: None,
            has_sender: false,
            ..self
        }
    }

    fn restart(&mut self, now_ns: u64)
        ensures
            *final(self) == old(self).restarted(now_ns),
    {
        self.was_client_active = true;
        self.session_start_ns = now_ns;
        self.egfx_gate_bypassed = false;
        self.first_frame_received = false;
        self.zero_frame_reported = false;
        self.frames_sent = 0;
        self.frames_dropped = 0;
        self.egfx_frames_sent = 0;
        self.codec = None;
        self.has_sender = false;
    }

    /// The loop after a frame arrived.
    pub open spec fn after_frame(self, now_ns: u64, client_active: bool) -> Self {
        let taken = Pipeline {
            has_cached_frame: true,
            last_frame_ns: now_ns,
            first_frame_received: true,
            pending_resize: false,
            video_stall_reported: false,
            ..self
        };
        if !client_active {
            Pipeline { was_client_active: false, ..taken }
        } else if !self.was_client_active {
            taken.restarted(now_ns)
        } else {
            taken
        }
    }

    /// What follows from a frame that arrives.
    pub open spec fn arrival(self, frame: FrameInfo, client_active: bool) -> Arrival {
        Arrival {
            resized: if self.pending_resize {
                Some(DesktopSize { width: frame.width as u16, height: frame.height as u16 })
            } else {
                None
            },
            resumed: self.video_stall_reported,
            next: if client_active {
                NextStep::Process
            } else {
                NextStep::SleepMs(1)
            },
        }
    }

    /// Takes a frame. The first one after a change of size decides on the size, and the
    /// graphics channel is set up again. Without a client the frame is only kept.
    pub fn frame_arrived(
        &mut self,
        frame: FrameInfo,
        now_ns: u64,
        handler: &mut LamcoDisplayHandler,
    ) -> (r: Arrival)
        ensures
            *final(self) == old(self).after_frame(now_ns, old(handler).client_active),
            r == old(self).arrival(frame, old(handler).client_active),
            *final(handler) == match r.resized {
                Some(size) => LamcoDisplayHandler { egfx_needs_init: true, size, ..*old(handler) },
                None => *old(handler),
            },
    {
        self.has_cached_frame = true;
        self.last_frame_ns = now_ns;
        self.first_frame_received = true;
        let mut resized: Option<DesktopSize> = None;
        if self.pending_resize {
            self.pending_resize = false;
            handler.egfx_needs_init = true;
            resized = Some(
                handler.update_size(
                    #[verifier::truncate] (frame.width as u16),
                    #[verifier::truncate] (frame.height as u16),
                ),
            );
        }
        let resumed = self.video_stall_reported;
        self.video_stall_reported = false;
        if !handler.client_active {
            self.was_client_active = false;
            return Arrival { resized, resumed, next: NextStep::SleepMs(1) };
        }
        if !self.was_client_active {
            self.restart(now_ns);
        }
        Arrival { resized, resumed, next: NextStep::Process }
    }

    /// How long there was no frame, where that is to be reported.
    pub open spec fn stall(self, now_ns: u64) -> Option<u64> {
        let elapsed = since(now_ns, self.last_frame_ns);
        if self.has_cached_frame && !self.video_stall_reported && elapsed > STALL_THRESHOLD {
            Some((elapsed / NANOS_PER_MS as int) as u64)
        } else {
            None
        }
    }

    /// How long there never was a frame, where that is to be reported.
    pub open spec fn missing_start(self, now_ns: u64) -> Option<u64> {
        let elapsed = since(now_ns, self.session_start_ns);
        if !self.first_frame_received && !self.zero_frame_reported && elapsed
            > ZERO_FRAME_THRESHOLD {
            Some((elapsed / NANOS_PER_MS as int) as u64)
        } else {
            None
        }
    }

    /// The loop after a turn without a frame.
    pub open spec fn after_idle(self, now_ns: u64, client_active: bool) -> Self {
        let noted = Pipeline {
            video_stall_reported: self.video_stall_reported || self.stall(now_ns) is Some,
            zero_frame_reported: self.zero_frame_reported || self.missing_start(now_ns) is Some,
            ..self
        };
        if client_active && !self.was_client_active {
            noted.restarted(now_ns)
        } else {
            noted
        }
    }

    /// What follows from a turn without a frame.
    pub open spec fn idle(self, now_ns: u64, handler: LamcoDisplayHandler) -> Idle {
        Idle {
            stalled_ms: self.stall(now_ns),
            never_started_ms: self.missing_start(now_ns),
            next: if handler.client_active && handler.egfx_needs_init && handler.egfx_ready()
                && self.has_cached_frame {
                NextStep::Process
            } else {
                NextStep::SleepMs(5)
            },
        }
    }

    /// Takes that there is no frame. A client whose graphics channel became ready gets the last
    /// frame once more, so that it need not wait for the desktop to change.
    pub fn no_frame(&mut self, now_ns: u64, handler: &LamcoDisplayHandler) -> (r: Idle)
        ensures
            *final(self) == old(self).after_idle(now_ns, handler.client_active),
            r == old(self).idle(now_ns, *handler),
    {
        let mut stalled_ms: Option<u64> = None;
        if self.has_cached_frame && !self.video_stall_reported {
            let elapsed: u64 = now_ns.saturating_sub(self.last_frame_ns);
            if elapsed > STALL_THRESHOLD {
                self.video_stall_reported = true;
                stalled_ms = Some(elapsed / NANOS_PER_MS);
            }
        }
        let mut never_started_ms: Option<u64> = None;
        if !self.first_frame_received && !self.zero_frame_reported {
            let elapsed: u64 = now_ns.saturating_sub(self.session_start_ns);
            if elapsed > ZERO_FRAME_THRESHOLD {
                self.zero_frame_reported = true;
                never_started_ms = Some(elapsed / NANOS_PER_MS);
            }
        }
        if handler.client_active && !self.was_client_active {
            self.restart(now_ns);
        }
        let next = if handler.client_active && handler.egfx_needs_init && handler.is_egfx_ready()
            && self.has_cached_frame {
            NextStep::Process
        } else {
            NextStep::SleepMs(5)
        };
        Idle { stalled_ms, never_started_ms, next }
    }

    /// The loop after the frame rate allowed a frame or not.
    pub open spec fn after_regulation(self, allowed: bool) -> Self {
        if allowed {
            Pipeline { frames_sent: (self.frames_sent + 1) as u64, ..self }
        } else {
            Pipeline { frames_dropped: (self.frames_dropped + 1) as u64, ..self }
        }
    }

    /// Takes whether the frame rate allows the frame, and counts it as sent or as dropped.
    pub fn regulate(&mut self, allowed: bool) -> (r: NextStep)
        requires
            old(self).has_room(),
        ensures
            r == if allowed {
                NextStep::Process
            } else {
                NextStep::SleepMs(1)
            },
            *final(self) == old(self).after_regulation(allowed),
    {
        if allowed {
            self.frames_sent = self.frames_sent + 1;
            NextStep::Process
        } else {
            self.frames_dropped = self.frames_dropped + 1;
            NextStep::SleepMs(1)
        }
    }

    /// The frame has to wait for the graphics channel no longer.
    pub open spec fn gives_up_waiting(self, now_ns: u64) -> bool {
        self.first_frame_received && since(now_ns, self.session_start_ns) > EGFX_TIMEOUT
    }

    /// Which way a frame goes.
    pub open spec fn route(self, now_ns: u64, handler: LamcoDisplayHandler) -> Route {
        if self.egfx_gate_bypassed {
            Route::Bitmap
        } else if handler.egfx_ready() {
            if handler.avc_supported() {
                Route::Video { needs_init: handler.egfx_needs_init }
            } else {
                Route::Bitmap
            }
        } else if self.gives_up_waiting(now_ns) {
            Route::Bitmap
        } else {
            Route::Wait
        }
    }

    /// The loop after it was decided which way a frame goes.
    pub open spec fn after_gate(self, now_ns: u64, handler: LamcoDisplayHandler) -> Self {
        let r = self.route(now_ns, handler);
        Pipeline {
            egfx_gate_bypassed: self.egfx_gate_bypassed || (!handler.egfx_ready() && r
                == Route::Bitmap),
            frames_dropped: if r == Route::Wait {
                (self.frames_dropped + 1) as u64
            } else {
                self.frames_dropped
            },
            ..self
        }
    }

    /// Decides which way a frame goes. Where the graphics channel does not become ready in
    /// time, plain pictures are sent until another client comes.
    pub fn gate(&mut self, now_ns: u64, handler: &mut LamcoDisplayHandler) -> (r: Route)
        requires
            old(self).has_room(),
        ensures
            r == old(self).route(now_ns, *old(handler)),
            *final(self) == old(self).after_gate(now_ns, *old(handler)),
            *final(handler) == if !final(self).egfx_gate_bypassed && r == Route::Bitmap {
                LamcoDisplayHandler { egfx_needs_init: false, ..*old(handler) }
            } else {
                *old(handler)
            },
    {
        if !self.egfx_gate_bypassed && !handler.is_egfx_ready() {
            if self.first_frame_received && now_ns.saturating_sub(self.session_start_ns)
                > EGFX_TIMEOUT {
                self.egfx_gate_bypassed = true;
            } else {
                self.frames_dropped = self.frames_dropped + 1;
                return Route::Wait;
            }
        }
        if self.egfx_gate_bypassed {
            return Route::Bitmap;
        }
        if handler.is_avc_supported() {
            Route::Video { needs_init: handler.egfx_needs_init }
        } else {
            handler.egfx_needs_init = false;
            Route::Bitmap
        }
    }

    /// Drops the encoder before another one is set up.
    pub fn encoder_dropped(&mut self)
        ensures
            *final(self) == (Pipeline { codec: None, has_sender: false, ..*old(self) }),
    {
        self.codec = None;
        self.has_sender = false;
    }

    /// The loop with the encoder that could be had, on a connection that takes frames or not.
    pub open spec fn with_encoder(self, codec: Option<VideoCodec>, connected: bool) -> Self {
        if codec is Some && connected {
            Pipeline { codec, has_sender: true, force_first_frame: true, ..self }
        } else {
            Pipeline { codec, ..self }
        }
    }

    /// Takes the encoder that could be had, and says whether a surface is to be made for the
    /// client. The first frame on it is sent whole.
    pub fn encoder_ready(
        &mut self,
        codec: Option<VideoCodec>,
        handler: &mut LamcoDisplayHandler,
    ) -> (r: bool)
        ensures
            r == (codec is Some && old(handler).has_gfx_server && old(handler).has_event_sender),
            *final(self) == old(self).with_encoder(
                codec,
                old(handler).has_gfx_server && old(handler).has_event_sender,
            ),
            *final(handler) == if r {
                LamcoDisplayHandler { egfx_needs_init: false, ..*old(handler) }
            } else {
                *old(handler)
            },
    {
        self.codec = codec;
        if codec.is_some() && handler.has_gfx_server && handler.has_event_sender {
            self.has_sender = true;
            handler.egfx_needs_init = false;
            self.force_first_frame = true;
            true
        } else {
            false
        }
    }

    /// When a frame is shown, in milliseconds: as the capture says, or else by counting.
    pub open spec fn timestamp_ms(self, frame: FrameInfo, target_fps: u32) -> int {
        if frame.pts > 0 {
            frame.pts as int / NANOS_PER_MS as int
        } else {
            self.frames_sent * (1000int / (if target_fps > 0 {
                target_fps as int
            } else {
                1
            }))
        }
    }

    /// What becomes of a frame at the encoder.
    pub open spec fn frame_plan(self, frame: FrameInfo, target_fps: u32, clock_due: bool) -> FramePlan {
        if self.codec is None || !self.has_sender {
            FramePlan::Bitmap
        } else if frame.data_len < frame.width * frame.height * 4 {
            FramePlan::Skip
        } else {
            FramePlan::Encode {
                timestamp_ms: self.timestamp_ms(frame, target_fps) as u64,
                whole: self.force_first_frame || (self.codec == Some(VideoCodec::Avc444)
                    && clock_due),
            }
        }
    }

    /// Decides what becomes of a frame at the encoder.
    pub fn frame_ready(&mut self, frame: FrameInfo, target_fps: u32, clock_due: bool) -> (r:
        FramePlan)
        requires
            old(self).has_room(),
            frame.wf(),
        ensures
            r == old(self).frame_plan(frame, target_fps, clock_due),
            0 <= old(self).timestamp_ms(frame, target_fps) <= u64::MAX,
            *final(self) == match r {
                FramePlan::Bitmap => *old(self),
                FramePlan::Skip => Pipeline {
                    frames_dropped: (old(self).frames_dropped + 1) as u64,
                    ..*old(self)
                },
                FramePlan::Encode { .. } => Pipeline { force_first_frame: false, ..*old(self) },
            },
    {
        let fps: u64 = if target_fps > 0 {
            target_fps as u64
        } else {
            1
        };
        let interval: u64 = 1000 / fps;
        proof {
            lemma_counted_time(self.frames_sent, interval);
            lemma_interval(fps);
        }
        let codec: VideoCodec = match self.codec {
            Some(c) => c,
            None => {
                return FramePlan::Bitmap;
            },
        };
        if !self.has_sender {
            return FramePlan::Bitmap;
        }
        let timestamp_ms: u64 = if frame.pts > 0 {
            frame.pts / NANOS_PER_MS
        } else {
            self.frames_sent * interval
        };
        proof {
            lemma_frame_bytes(frame);
        }
        let expected: u32 = frame.width * frame.height * 4;
        if frame.data_len < expected as usize {
            self.frames_dropped = self.frames_dropped + 1;
            return FramePlan::Skip;
        }
        let whole = codec.is_periodic_idr_due(clock_due) || self.force_first_frame;
        self.force_first_frame = false;
        FramePlan::Encode { timestamp_ms, whole }
    }

    /// The loop after the changed parts of a frame were looked at.
    pub open spec fn after_damage(
        self,
        regions: Seq<DamageRegion>,
        decision: EncodingDecision,
    ) -> Self {
        Pipeline {
            frames_dropped: if decision == EncodingDecision::Skip {
                (self.frames_dropped + 1) as u64
            } else {
                self.frames_dropped
            },
            frames_skipped_damage: if damage_outcome(regions, decision)
                == DamageOutcome::Unchanged {
                (self.frames_skipped_damage + 1) as u64
            } else {
                self.frames_skipped_damage
            },
            ..self
        }
    }

    /// Takes the changed parts of a frame and what the latency governor says of it.
    pub fn damage_found(&mut self, regions: &Vec<DamageRegion>, decision: EncodingDecision) -> (r:
        DamageOutcome)
        requires
            old(self).has_room(),
        ensures
            r == damage_outcome(regions@, decision),
            *final(self) == old(self).after_damage(regions@, decision),
    {
        match decision {
            EncodingDecision::Skip => {
                self.frames_dropped = self.frames_dropped + 1;
                DamageOutcome::Skip
            },
            EncodingDecision::WaitForMore => DamageOutcome::Skip,
            _ => {
                if regions.len() == 0 {
                    self.frames_skipped_damage = self.frames_skipped_damage + 1;
                    DamageOutcome::Unchanged
                } else {
                    DamageOutcome::Encode
                }
            },
        }
    }

    /// The loop after a frame went out over the graphics channel or not.
    pub open spec fn after_sending(self, sent: bool) -> Self {
        if sent {
            Pipeline { egfx_frames_sent: (self.egfx_frames_sent + 1) as u64, ..self }
        } else {
            Pipeline { frames_dropped: (self.frames_dropped + 1) as u64, ..self }
        }
    }

    /// Takes whether a frame went out over the graphics channel. One that was not encoded or
    /// not sent is dropped; it is not sent as a plain picture instead.
    pub fn frame_done(&mut self, sent: bool)
        requires
            old(self).has_room(),
        ensures
            *final(self) == old(self).after_sending(sent),
    {
        if sent {
            self.egfx_frames_sent = self.egfx_frames_sent + 1;
        } else {
            self.frames_dropped = self.frames_dropped + 1;
        }
    }
}

proof fn lemma_counted_time(frames: u64, interval: u64)
    requires
        frames < u64::MAX / 1000,
    ensures
        interval <= 1000 ==> 0 <= frames * interval <= u64::MAX,
{
    if interval <= 1000 {
        assert(0 <= frames * interval <= frames * 1000) by (nonlinear_arith)
            requires
                0 <= interval <= 1000,
                0 <= frames,
        ;
    }
}

proof fn lemma_interval(fps: u64)
    requires
        fps > 0,
    ensures
        1000u64 / fps <= 1000,
{
    assert(1000u64 / fps <= 1000) by (nonlinear_arith)
        requires
            fps > 0,
    ;
}

proof fn lemma_frame_bytes(frame: FrameInfo)
    requires
        frame.wf(),
    ensures
        0 <= frame.width * frame.height <= u32::MAX,
{
    assert(0 <= frame.width * frame.height <= frame.width * frame.height * 4) by (nonlinear_arith)
        requires
            0 <= frame.width,
            0 <= frame.height,
    ;
}

/// How an encoder is made.
#[derive(Debug, Clone, Copy, PartialEq, Eq, Structural)]
pub struct EncoderPlan {
    /// The codec to try first.
    pub codec: VideoCodec,
    pub bitrate_kbps: u32,
    pub max_fps: u32,
    pub enable_skip_frame: bool,
    /// The size of the pictures and of the surface that they go to.
    pub width: u16,
    pub height: u16,
    /// The size of the desktop.
    pub desktop_width: u16,
    pub desktop_height: u16,
    pub qp_min: u8,
    pub qp_max: u8,
    pub encoder_threads: u16,
}

/// How the encoder for frames of a size is made.
pub open spec fn encoder_plan(
    config: Config,
    state: Option<HandlerState>,
    width: u32,
    height: u32,
) -> EncoderPlan {
    EncoderPlan {
        codec: chosen_codec(config.egfx, state matches Some(s) && s.is_avc444_enabled),
        bitrate_kbps: config.egfx.h264_bitrate,
        max_fps: config.video.target_fps,
        enable_skip_frame: true,
        width: aligned(width as int) as u32 as u16,
        height: aligned(height as int) as u32 as u16,
        desktop_width: width as u16,
        desktop_height: height as u16,
        qp_min: config.egfx.qp_min,
        qp_max: config.egfx.qp_max,
        encoder_threads: config.performance.encoder_threads as u16,
    }
}

/// How the encoder for frames of a size is made.
pub fn plan_encoder(config: &Config, state: &Option<HandlerState>, width: u32, height: u32) -> (r:
    EncoderPlan)
    requires
        width <= u32::MAX - 15,
        height <= u32::MAX - 15,
    ensures
        r == encoder_plan(*config, *state, width, height),
{
    let client_has_avc444 = match state {
        Some(s) => s.is_avc444_enabled,
        None => false,
    };
    EncoderPlan {
        codec: choose_codec(&config.egfx, client_has_avc444),
        bitrate_kbps: config.egfx.h264_bitrate,
        max_fps: config.video.target_fps,
        enable_skip_frame: true,
        width: #[verifier::truncate] (align_to_16(width) as u16),
        height: #[verifier::truncate] (align_to_16(height) as u16),
        desktop_width: #[verifier::truncate] (width as u16),
        desktop_height: #[verifier::truncate] (height as u16),
        qp_min: config.egfx.qp_min,
        qp_max: config.egfx.qp_max,
        encoder_threads: #[verifier::truncate] (config.performance.encoder_threads as u16),
    }
}

/// The colours that an encoder writes, and the size that they are chosen for where the settings
/// leave that open.
#[derive(Debug)]
pub struct ColorSettings {
    /// How colours are turned into brightness and difference, as the settings name it.
    pub matrix: String,
    /// The range of the values, as the settings name it.
    pub range: String,
    pub width: u32,
    pub height: u32,
}

impl ColorSettings {
    /// The colours follow the settings, for frames of a size.
    pub open spec fn follows(self, config: Config, width: u32, height: u32) -> bool {
        &&& self.matrix@ == config.egfx.color_matrix@
        &&& self.range@ == config.egfx.color_range@
        &&& self.width == aligned(width as int) as u32 as u16
        &&& self.height == aligned(height as int) as u32 as u16
    }
}

/// The colours of the encoder for frames of a size.
pub fn plan_colors(config: &Config, width: u32, height: u32) -> (r: ColorSettings)
    requires
        width <= u32::MAX - 15,
        height <= u32::MAX - 15,
    ensures
        r.follows(*config, width, height),
{
    let width: u16 = #[verifier::truncate] (align_to_16(width) as u16);
    let height: u16 = #[verifier::truncate] (align_to_16(height) as u16);
    ColorSettings {
        matrix: config.egfx.color_matrix.clone(),
        range: config.egfx.color_range.clone(),
        width: width as u32,
        height: height as u32,
    }
}

/// How an encoder for full colour leaves out its second picture, and how often it starts
/// afresh.
#[derive(Debug, Clone, Copy, PartialEq, Eq, Structural)]
pub struct FullColorSettings {
    /// The second picture is left out where its colours hardly changed.
    pub enable_aux_omission: bool,
    /// After how many frames it comes all the same.
    pub max_aux_interval: u32,
    /// How much has to change for it to come.
    pub aux_change_threshold: Float32,
    /// When it comes back, it does so as a whole.
    pub force_aux_idr_on_return: bool,
    /// After how many seconds a whole frame is due.
    pub periodic_idr_interval: u32,
}

/// What an encoder is told once it is made: one for full colour the settings of its second
/// picture, the other nothing.
pub open spec fn second_picture(config: Config, codec: VideoCodec) -> Option<FullColorSettings> {
    match codec {
        VideoCodec::Avc444 => Some(
            FullColorSettings {
                enable_aux_omission: config.egfx.avc444_enable_aux_omission,
                max_aux_interval: config.egfx.avc444_max_aux_interval,
                aux_change_threshold: config.egfx.avc444_aux_change_threshold,
                force_aux_idr_on_return: config.egfx.avc444_force_aux_idr_on_return,
                periodic_idr_interval: config.egfx.periodic_idr_interval,
            },
        ),
        VideoCodec::Avc420 => None,
    }
}

/// What an encoder is told once it is made: one for full colour the settings of its second
/// picture, the other nothing.
pub fn full_color_settings(config: &Config, codec: VideoCodec) -> (r: Option<FullColorSettings>)
    ensures
        r == second_picture(*config, codec),
{
    match codec {
        VideoCodec::Avc444 => Some(
            FullColorSettings {
                enable_aux_omission: config.egfx.avc444_enable_aux_omission,
                max_aux_interval: config.egfx.avc444_max_aux_interval,
                aux_change_threshold: config.egfx.avc444_aux_change_threshold,
                force_aux_idr_on_return: config.egfx.avc444_force_aux_idr_on_return,
                periodic_idr_interval: config.egfx.periodic_idr_interval,
            },
        ),
        VideoCodec::Avc420 => None,
    }
}

/// The parts of a frame that count as changed: all of it where the frame goes whole or no
/// detector is there, else what the detector found.
pub open spec fn changed_parts(
    frame: FrameInfo,
    whole: bool,
    detected: Option<Vec<DamageRegion>>,
) -> Seq<DamageRegion> {
    match detected {
        Some(v) => if whole {
            seq![DamageRegion { x: 0, y: 0, width: frame.width, height: frame.height }]
        } else {
            v@
        },
        None => seq![DamageRegion { x: 0, y: 0, width: frame.width, height: frame.height }],
    }
}

/// The parts of a frame that count as changed: all of it where the frame goes whole or no
/// detector is there, else what the detector found.
pub fn damage_regions(frame: FrameInfo, whole: bool, detected: Option<Vec<DamageRegion>>) -> (r:
    Vec<DamageRegion>)
    ensures
        r@ == changed_parts(frame, whole, detected),
{
    if !whole {
        if let Some(v) = detected {
            return v;
        }
    }
    let mut r: Vec<DamageRegion> = Vec::new();
    r.push(DamageRegion::full_frame(frame.width, frame.height));
    r
}

/// The picture that the encoder gets: padded to whole macroblocks, or as it is where it has
/// that size already.
pub open spec fn encoder_picture(data: Seq<u8>, frame: FrameInfo) -> Seq<u8> {
    if aligned(frame.width as int) == frame.width && aligned(frame.height as int)
        == frame.height {
        data
    } else {
        (Padding {
            width: frame.width as int,
            height: frame.height as int,
            aligned_width: aligned(frame.width as int),
            aligned_height: aligned(frame.height as int),
        }).padded(data)
    }
}

/// The picture that the encoder gets: padded to whole macroblocks, or as it is where it has
/// that size already.
pub fn encoder_input(data: Vec<u8>, frame: FrameInfo) -> (r: Vec<u8>)
    requires
        frame.width <= u32::MAX - 15,
        frame.height <= u32::MAX - 15,
        data@.len() >= frame.width * frame.height * 4,
        aligned(frame.width as int) * aligned(frame.height as int) * 4 <= u32::MAX,
    ensures
        r@ == encoder_picture(data@, frame),
{
    let width: u32 = align_to_16(frame.width);
    let height: u32 = align_to_16(frame.height);
    if width != frame.width || height != frame.height {
        pad_frame_to_aligned(&data, frame.width, frame.height, width, height)
    } else {
        data
    }
}

/// What is handed to the graphics server for an encoded frame: its streams as they are, to the
/// client's surface, with the regions that changed.
pub open spec fn is_request(
    state: Option<HandlerState>,
    encoded: EncodedVideoFrame,
    frame: FrameInfo,
    regions: Seq<DamageRegion>,
    timestamp_ms: u64,
    r: Result<FrameRequest, SendError>,
) -> bool {
    match surface_for(state, true) {
        Err(e) => r == Err::<FrameRequest, SendError>(e),
        Ok(id) => match encoded {
            EncodedVideoFrame::Single(stream) => r matches Ok(
                FrameRequest::Avc420 { surface_id, data, regions: rs, timestamp_ms: stamp },
            ) && surface_id == id && data == stream && rs@ == sent_regions(frame, regions)
                && stamp == timestamp_ms as u32,
            EncodedVideoFrame::Dual { main, aux } => r matches Ok(
                FrameRequest::Avc444 {
                    surface_id,
                    luma,
                    luma_regions,
                    chroma,
                    chroma_regions,
                    timestamp_ms: stamp,
                },
            ) && surface_id == id && luma == main && chroma == aux && luma_regions@
                == sent_regions(frame, regions) && (chroma_regions is Some <==> aux is Some) && (
            chroma_regions matches Some(rs) ==> rs@ == luma_regions@) && stamp
                == timestamp_ms as u32,
        },
    }
}

/// What to hand to the graphics server for an encoded frame.
pub fn send_encoded(
    sender: &EgfxFrameSender,
    state: &Option<HandlerState>,
    encoded: EncodedVideoFrame,
    frame: FrameInfo,
    regions: &Vec<DamageRegion>,
    timestamp_ms: u64,
) -> (r: Result<FrameRequest, SendError>)
    requires
        all_wf(regions@),
        frame.width <= u32::MAX - 15,
        frame.height <= u32::MAX - 15,
    ensures
        is_request(*state, encoded, frame, regions@, timestamp_ms, r),
{
    let encoded_size: (u16, u16) = (
        #[verifier::truncate] (align_to_16(frame.width) as u16),
        #[verifier::truncate] (align_to_16(frame.height) as u16),
    );
    let display: (u16, u16) = (
        #[verifier::truncate] (frame.width as u16),
        #[verifier::truncate] (frame.height as u16),
    );
    let stamp: u32 = #[verifier::truncate] (timestamp_ms as u32);
    match encoded {
        EncodedVideoFrame::Single(data) => sender.send_frame_with_regions(
            state,
            data,
            encoded_size,
            display,
            regions,
            stamp,
        ),
        EncodedVideoFrame::Dual { main, aux } => sender.send_avc444_frame_with_regions(
            state,
            main,
            aux,
            encoded_size,
            display,
            regions,
            stamp,
        ),
    }
}

/// The regions that an encoded frame is sent with.
pub open spec fn sent_regions(frame: FrameInfo, regions: Seq<DamageRegion>) -> Seq<
    crate::server::egfx_sender::Avc420Region,
> {
    picture_regions(
        regions,
        (
            aligned(frame.width as int) as u32 as u16,
            aligned(frame.height as int) as u32 as u16,
        ),
        (frame.width as u16, frame.height as u16),
    )
}

/// A picture on its way to the client, with the number of its frame.
#[derive(Debug)]
pub struct GraphicsFrame {
    pub bitmap: IronBitmapUpdate,
    pub sequence: u64,
}

/// The pictures of a frame, each with the number of the frame.
pub open spec fn numbered(updates: Seq<IronBitmapUpdate>, sequence: u64) -> Seq<GraphicsFrame> {
    Seq::new(updates.len(), |i: int| (GraphicsFrame { bitmap: updates[i], sequence }))
}

/// The pictures of a frame on their way to the client, in their order.
pub fn graphics_frames(updates: Vec<IronBitmapUpdate>, frames_sent: u64) -> (r: Vec<GraphicsFrame>)
    ensures
        r@ == numbered(updates@, frames_sent),
{
    let mut rest = updates;
    let mut reversed: Vec<IronBitmapUpdate> = Vec::new();
    let ghost all = updates@;
    while rest.len() > 0
        invariant
            rest@.len() + reversed@.len() == all.len(),
            rest@ =~= all.take(rest@.len() as int),
            forall|i: int|
                0 <= i < reversed@.len() ==> #[trigger] reversed@[i] == all[all.len() - 1 - i],
        decreases rest@.len(),
    {
        if let Some(u) = rest.pop() {
            reversed.push(u);
        }
    }
    let mut r: Vec<GraphicsFrame> = Vec::new();
    while reversed.len() > 0
        invariant
            r@.len() + reversed@.len() == all.len(),
            forall|i: int|
                0 <= i < reversed@.len() ==> #[trigger] reversed@[i] == all[all.len() - 1 - i],
            forall|i: int|
                0 <= i < r@.len() ==> #[trigger] r@[i] == (GraphicsFrame {
                    bitmap: all[i],
                    sequence: frames_sent,
                }),
        decreases reversed@.len(),
    {
        if let Some(bitmap) = reversed.pop() {
            r.push(GraphicsFrame { bitmap, sequence: frames_sent });
        }
    }
    r
}

/// A stall is reported once: as long as no frame comes and no other client does, the next
/// turns report none.
pub proof fn stall_is_reported_once(p: Pipeline, first: u64, later: u64, active: bool)
    requires
        p.stall(first) is Some,
    ensures
        p.after_idle(first, active).stall(later) is None,
{
}

/// A frame ends a stall, so a later one is reported again.
pub proof fn frame_ends_stall(p: Pipeline, now_ns: u64, active: bool, later: u64)
    requires
        since(later, now_ns) > STALL_THRESHOLD,
    ensures
        p.after_frame(now_ns, active).stall(now_ns) is None,
        p.after_frame(now_ns, active).stall(later) is Some,
{
}

/// A client that comes finds nothing of the one before: no encoder, no counts and no decision
/// to send plain pictures. That is so whether it comes with a frame or without.
pub proof fn new_client_starts_afresh(p: Pipeline, now_ns: u64)
    requires
        !p.was_client_active,
    ensures
        forall|q: Pipeline|
            q == p.after_frame(now_ns, true) || q == p.after_idle(now_ns, true) ==> {
                &&& #[trigger] q.codec is None
                &&& !q.has_sender
                &&& q.frames_sent == 0
                &&& q.frames_dropped == 0
                &&& q.egfx_frames_sent == 0
                &&& !q.egfx_gate_bypassed
                &&& q.was_client_active
            },
{
}

/// Only frames for a ready graphics channel, whose client decodes H.264, go to the video
/// codec; and once the loop gave up waiting, none does.
pub proof fn video_needs_ready_channel(p: Pipeline, now_ns: u64, handler: LamcoDisplayHandler)
    ensures
        p.route(now_ns, handler) is Video ==> handler.egfx_ready() && handler.avc_supported()
            && !p.egfx_gate_bypassed,
{
}

/// No frame waits longer than the limit, once one was received.
pub proof fn waiting_is_bounded(p: Pipeline, now_ns: u64, handler: LamcoDisplayHandler)
    requires
        p.first_frame_received,
        since(now_ns, p.session_start_ns) > EGFX_TIMEOUT,
    ensures
        p.route(now_ns, handler) != Route::Wait,
{
}

/// Full colour is tried first exactly where the client supports it, the settings enable it and
/// the codec that they name is not the subsampled one. No other name refuses it: neither that
/// of full colour itself, nor the automatic choice, nor a name that is not known.
pub proof fn full_colour_is_refused_by_one_name(config: EgfxConfig)
    ensures
        config.avc444_enabled && lowercase(config.codec@) != "avc420"@ ==> chosen_codec(
            config,
            true,
        ) == VideoCodec::Avc444,
        config.avc444_enabled && config.codec@ == "avc444"@ ==> chosen_codec(config, true)
            == VideoCodec::Avc444,
        config.avc444_enabled && config.codec@ == "auto"@ ==> chosen_codec(config, true)
            == VideoCodec::Avc444,
        config.avc444_enabled && is_ascii_text(config.codec@) && config.codec@.len() != 6
            ==> chosen_codec(config, true) == VideoCodec::Avc444,
        config.codec@ == "avc420"@ || config.codec@ == "AVC420"@ ==> chosen_codec(config, true)
            == VideoCodec::Avc420,
        !config.avc444_enabled ==> chosen_codec(config, true) == VideoCodec::Avc420,
        chosen_codec(config, false) == VideoCodec::Avc420,
{
    reveal_strlit("avc444");
    reveal_strlit("avc420");
    reveal_strlit("AVC420");
    reveal_strlit("auto");
    assert("avc444"@.len() == 6 && "avc420"@.len() == 6 && "AVC420"@.len() == 6);
    assert("auto"@.len() == 4);
    assert(ascii_lowered("avc420"@) =~= "avc420"@);
    assert(ascii_lowered("AVC420"@) =~= "avc420"@);
    assert(ascii_lowered("avc444"@)[4] == '4');
    assert("avc420"@[4] == '2');
}

/// The case of the letters in the name of a codec makes no difference.
pub proof fn codec_names_ignore_case(a: EgfxConfig, b: EgfxConfig, client_has_avc444: bool)
    requires
        is_ascii_text(a.codec@),
        is_ascii_text(b.codec@),
        a.codec@.len() == b.codec@.len(),
        forall|i: int|
            0 <= i < a.codec@.len() ==> ascii_lower(#[trigger] a.codec@[i]) == ascii_lower(
                b.codec@[i],
            ),
        a.avc444_enabled == b.avc444_enabled,
    ensures
        chosen_codec(a, client_has_avc444) == chosen_codec(b, client_has_avc444),
{
    assert(ascii_lowered(a.codec@) =~= ascii_lowered(b.codec@));
}

/// Where full colour cannot be had subsampled colour is tried, and nothing after that: whatever
/// the first codec is, the last one that is tried is the subsampled one.
pub proof fn subsampled_colour_is_tried_last(codec: VideoCodec)
    ensures
        codec == VideoCodec::Avc444 ==> codec.next_best() == Some(VideoCodec::Avc420),
        codec == VideoCodec::Avc420 ==> codec.next_best() is None,
        codec.next_best() matches Some(next) ==> next != codec && next.next_best() is None,
{
}

/// The encoder works as the settings say: each of its numbers is that of one setting. Its
/// pictures are as large as the desktop, filled up to whole macroblocks.
pub proof fn encoders_follow_the_settings(
    config: Config,
    state: Option<HandlerState>,
    width: u32,
    height: u32,
)
    requires
        0 < width <= 0xfff0,
        0 < height <= 0xfff0,
    ensures
        ({
            let plan = encoder_plan(config, state, width, height);
            &&& plan.bitrate_kbps == config.egfx.h264_bitrate
            &&& plan.max_fps == config.video.target_fps
            &&& plan.enable_skip_frame
            &&& plan.qp_min == config.egfx.qp_min
            &&& plan.qp_max == config.egfx.qp_max
            &&& config.performance.encoder_threads <= 0xffff ==> plan.encoder_threads
                == config.performance.encoder_threads
            &&& plan.desktop_width == width
            &&& plan.desktop_height == height
            &&& plan.width % 16 == 0 && width <= plan.width < width + 16
            &&& plan.height % 16 == 0 && height <= plan.height < height + 16
        }),
{
}

/// The encoder is one for full colour exactly where the settings allow it and the client of the
/// channel decodes it; without a channel it is not.
pub proof fn encoders_suit_the_client(
    config: Config,
    state: Option<HandlerState>,
    width: u32,
    height: u32,
)
    ensures
        encoder_plan(config, state, width, height).codec == VideoCodec::Avc444
            <==> config.egfx.avc444_enabled && lowercase(config.egfx.codec@) != "avc420"@ && (
        state matches Some(s) && s.is_avc444_enabled),
        state is None ==> encoder_plan(config, state, width, height).codec == VideoCodec::Avc420,
{
}

/// The colours are those that the settings name, for pictures of the encoder's size.
pub proof fn colours_follow_the_settings(
    colors: ColorSettings,
    config: Config,
    state: Option<HandlerState>,
    width: u32,
    height: u32,
)
    requires
        colors.follows(config, width, height),
    ensures
        colors.matrix@ == config.egfx.color_matrix@,
        colors.range@ == config.egfx.color_range@,
        colors.width == encoder_plan(config, state, width, height).width,
        colors.height == encoder_plan(config, state, width, height).height,
{
}

/// Only an encoder for full colour is told about its second picture, and then what the settings
/// say of it.
pub proof fn second_pictures_follow_the_settings(config: Config)
    ensures
        second_picture(config, VideoCodec::Avc420) is None,
        second_picture(config, VideoCodec::Avc444) matches Some(s) && s.enable_aux_omission
            == config.egfx.avc444_enable_aux_omission && s.max_aux_interval
            == config.egfx.avc444_max_aux_interval && s.aux_change_threshold
            == config.egfx.avc444_aux_change_threshold && s.force_aux_idr_on_return
            == config.egfx.avc444_force_aux_idr_on_return && s.periodic_idr_interval
            == config.egfx.periodic_idr_interval,
{
}

/// The frame rate adapts only where both the settings and the desktop allow it, between the
/// configured limits; else it is held to the larger one. Changed parts are looked for only
/// where that is configured, as it is configured.
pub proof fn loops_follow_the_settings(setup: PipelineSetup, config: Config, supported: bool)
    requires
        setup.follows(config, supported),
    ensures
        setup.adaptive_fps_enabled ==> supported && config.performance.adaptive_fps.enabled,
        supported && config.performance.adaptive_fps.enabled ==> setup.adaptive_fps_enabled,
        setup.min_fps == config.performance.adaptive_fps.min_fps,
        setup.max_fps == config.performance.adaptive_fps.max_fps,
        setup.regulator_fps == config.performance.adaptive_fps.max_fps,
        setup.high_activity_threshold == config.performance.adaptive_fps.high_activity_threshold,
        setup.medium_activity_threshold
            == config.performance.adaptive_fps.medium_activity_threshold,
        setup.low_activity_threshold == config.performance.adaptive_fps.low_activity_threshold,
        config.performance.latency.mode@ == "interactive"@ ==> setup.latency_mode
            == LatencyMode::Interactive,
        config.performance.latency.mode@ == "quality"@ ==> setup.latency_mode
            == LatencyMode::Quality,
        config.performance.latency.mode@ != "interactive"@ && config.performance.latency.mode@
            != "quality"@ ==> setup.latency_mode == LatencyMode::Balanced,
        setup.damage is Some <==> config.damage_tracking.enabled,
        setup.damage matches Some(d) ==> d.tile_size == config.damage_tracking.tile_size
            && d.diff_threshold == config.damage_tracking.diff_threshold && d.pixel_threshold
            == config.damage_tracking.pixel_threshold && d.merge_distance
            == config.damage_tracking.merge_distance && d.min_region_area
            == config.damage_tracking.min_region_area,
{
    reveal_strlit("interactive");
    reveal_strlit("quality");
    assert("interactive"@.len() == 11 && "quality"@.len() == 7);
}

/// A frame goes to the video codec as soon as the channel is negotiated with a client that
/// decodes H.264, and the codec is set up first where that was not done yet.
pub proof fn ready_clients_get_video(
    p: Pipeline,
    now_ns: u64,
    handler: LamcoDisplayHandler,
    state: HandlerState,
)
    requires
        !p.egfx_gate_bypassed,
        handler.has_event_sender,
        handler.has_gfx_server,
        handler.gfx_state == Some(state),
        state.is_ready,
    ensures
        state.is_avc420_enabled ==> p.route(now_ns, handler) == (Route::Video {
            needs_init: handler.egfx_needs_init,
        }),
        !state.is_avc420_enabled ==> p.route(now_ns, handler) == Route::Bitmap,
        !p.after_gate(now_ns, handler).egfx_gate_bypassed,
        p.after_gate(now_ns, handler).frames_dropped == p.frames_dropped,
{
}

/// As long as the channel is not negotiated, frames wait: five seconds from the start of the
/// session, and without end where none was received yet. After that plain pictures are sent,
/// and the loop keeps to that.
pub proof fn frames_wait_five_seconds(p: Pipeline, now_ns: u64, handler: LamcoDisplayHandler)
    requires
        !p.egfx_gate_bypassed,
        !handler.has_event_sender || !handler.has_gfx_server || (handler.gfx_state matches Some(s)
            ==> !s.is_ready),
    ensures
        now_ns <= p.session_start_ns + 5_000_000_000 ==> p.route(now_ns, handler) == Route::Wait,
        !p.first_frame_received ==> p.route(now_ns, handler) == Route::Wait,
        p.first_frame_received && now_ns > p.session_start_ns + 5_000_000_000 ==> p.route(
            now_ns,
            handler,
        ) == Route::Bitmap && p.after_gate(now_ns, handler).egfx_gate_bypassed,
        p.route(now_ns, handler) == Route::Wait ==> !p.after_gate(
            now_ns,
            handler,
        ).egfx_gate_bypassed,
        p.frames_dropped < u64::MAX && p.route(now_ns, handler) == Route::Wait ==> p.after_gate(
            now_ns,
            handler,
        ).frames_dropped == p.frames_dropped + 1,
{
}

/// Once the loop gave up waiting, every frame goes as a plain picture until another client
/// comes.
pub proof fn plain_pictures_go_on(
    p: Pipeline,
    now_ns: u64,
    later: u64,
    handler: LamcoDisplayHandler,
    other: LamcoDisplayHandler,
)
    requires
        p.egfx_gate_bypassed,
    ensures
        p.route(now_ns, handler) == Route::Bitmap,
        p.after_gate(now_ns, handler).route(later, other) == Route::Bitmap,
        p.frames_dropped == p.after_gate(now_ns, handler).frames_dropped,
{
}

/// That frames stay away is reported once it lasts longer than three seconds, in milliseconds;
/// never before a first frame came, and not twice.
pub proof fn stalls_are_reported_after_three_seconds(p: Pipeline, now_ns: u64)
    ensures
        p.has_cached_frame && !p.video_stall_reported && now_ns > p.last_frame_ns + 3_000_000_000
            ==> p.stall(now_ns) == Some(((now_ns - p.last_frame_ns) / 1_000_000) as u64),
        now_ns <= p.last_frame_ns + 3_000_000_000 ==> p.stall(now_ns) is None,
        !p.has_cached_frame ==> p.stall(now_ns) is None,
        p.video_stall_reported ==> p.stall(now_ns) is None,
{
}

/// That no frame ever came is reported once it lasts longer than ten seconds from the start of
/// the session, in milliseconds; not after a frame came, and not twice.
pub proof fn missing_starts_are_reported_after_ten_seconds(p: Pipeline, now_ns: u64, active: bool)
    ensures
        !p.first_frame_received && !p.zero_frame_reported && now_ns > p.session_start_ns
            + 10_000_000_000 ==> p.missing_start(now_ns) == Some(
            ((now_ns - p.session_start_ns) / 1_000_000) as u64,
        ),
        now_ns <= p.session_start_ns + 10_000_000_000 ==> p.missing_start(now_ns) is None,
        p.first_frame_received ==> p.missing_start(now_ns) is None,
        p.zero_frame_reported ==> p.missing_start(now_ns) is None,
        p.missing_start(now_ns) is Some && p.was_client_active ==> p.after_idle(
            now_ns,
            active,
        ).missing_start(now_ns) is None,
{
}

/// A frame that arrives is kept and its time is noted. While a client is there and was there
/// before, it changes nothing else; without a client it is only kept.
pub proof fn frames_are_kept(p: Pipeline, now_ns: u64, active: bool)
    ensures
        ({
            let q = p.after_frame(now_ns, active);
            &&& q.has_cached_frame
            &&& q.last_frame_ns == now_ns
            &&& !q.pending_resize
            &&& !q.video_stall_reported
            &&& q.was_client_active == active
            &&& q.loop_iterations == p.loop_iterations
            &&& q.frames_skipped_damage == p.frames_skipped_damage
            &&& p.was_client_active || !active ==> {
                &&& q.first_frame_received
                &&& q.codec == p.codec
                &&& q.has_sender == p.has_sender
                &&& q.frames_sent == p.frames_sent
                &&& q.frames_dropped == p.frames_dropped
                &&& q.egfx_frames_sent == p.egfx_frames_sent
                &&& q.egfx_gate_bypassed == p.egfx_gate_bypassed
                &&& q.session_start_ns == p.session_start_ns
                &&& q.force_first_frame == p.force_first_frame
            }
            &&& !p.was_client_active && active ==> q.session_start_ns == now_ns
        }),
{
}

/// A frame is processed exactly while a client is there. The first one after a change of size
/// tells the client the frame's own size, and one that ends a stall is reported.
pub proof fn arrivals_tell_what_changed(p: Pipeline, frame: FrameInfo, active: bool)
    requires
        frame.width <= 0xffff,
        frame.height <= 0xffff,
    ensures
        active ==> p.arrival(frame, active).next == NextStep::Process,
        !active ==> p.arrival(frame, active).next == NextStep::SleepMs(1),
        p.arrival(frame, active).resumed == p.video_stall_reported,
        !p.pending_resize ==> p.arrival(frame, active).resized is None,
        p.pending_resize ==> (p.arrival(frame, active).resized matches Some(s) && s.width
            == frame.width && s.height == frame.height),
{
}

/// A client whose channel just became ready gets the last frame at once, so that it does not
/// stay dark on a desktop on which nothing moves. Otherwise a turn without a frame sleeps.
pub proof fn still_desktops_are_shown(p: Pipeline, now_ns: u64, handler: LamcoDisplayHandler)
    ensures
        p.idle(now_ns, handler).next == NextStep::Process <==> (p.has_cached_frame
            && handler.client_active && handler.egfx_needs_init && handler.has_event_sender
            && handler.has_gfx_server && (handler.gfx_state matches Some(s) && s.is_ready)),
        p.idle(now_ns, handler).next != NextStep::Process ==> p.idle(now_ns, handler).next
            == NextStep::SleepMs(5),
        p.idle(now_ns, handler).stalled_ms == p.stall(now_ns),
        p.idle(now_ns, handler).never_started_ms == p.missing_start(now_ns),
{
}

/// Of several sizes that were asked for the last one counts, and it is the first stream that
/// gets it. Frames that come over a channel keep their size, and so does a display without
/// streams.
pub proof fn last_size_counts(
    requests: Seq<ResizeRequest>,
    last: ResizeRequest,
    handler: LamcoDisplayHandler,
)
    ensures
        turn_start(Seq::<ResizeRequest>::empty(), handler) == TurnStart::Capture,
        handler.direct_channel_mode || handler.streams@.len() == 0 ==> turn_start(
            requests.push(last),
            handler,
        ) == TurnStart::Again,
        !handler.direct_channel_mode && handler.streams@.len() > 0 ==> turn_start(
            requests.push(last),
            handler,
        ) == (TurnStart::Recreate { node_id: handler.streams@[0].node_id, size: last }),
{
}

/// A stream that was opened anew drops the encoder and lets the next frame decide on the size;
/// one that could not be opened changes nothing.
pub proof fn reopened_streams_need_a_new_encoder(p: Pipeline)
    ensures
        p.after_reopening(false) == p,
        p.after_reopening(true).pending_resize,
        p.after_reopening(true).codec is None,
        !p.after_reopening(true).has_sender,
        !p.after_reopening(true).force_first_frame,
        p.after_reopening(true).frames_sent == p.frames_sent,
        p.after_reopening(true).has_cached_frame == p.has_cached_frame,
        p.after_reopening(true).was_client_active == p.was_client_active,
{
}

/// Without an encoder or a sender a frame goes as a plain picture. One with fewer bytes than its
/// size needs is left out. Any other is encoded: whole where it is the first one on the encoder
/// or, for full colour, where the clock asks for it.
pub proof fn frames_are_encoded_where_they_can_be(
    p: Pipeline,
    frame: FrameInfo,
    fps: u32,
    clock_due: bool,
)
    ensures
        p.codec is None || !p.has_sender ==> p.frame_plan(frame, fps, clock_due)
            == FramePlan::Bitmap,
        p.codec is Some && p.has_sender && frame.data_len < 4 * (frame.width * frame.height)
            ==> p.frame_plan(frame, fps, clock_due) == FramePlan::Skip,
        p.codec is Some && p.has_sender && frame.data_len >= 4 * (frame.width * frame.height) ==> (
        p.frame_plan(frame, fps, clock_due) matches FramePlan::Encode { whole, .. } && (
        p.force_first_frame ==> whole) && (p.codec == Some(VideoCodec::Avc444) && clock_due
            ==> whole) && (!p.force_first_frame && !clock_due ==> !whole) && (
        !p.force_first_frame && p.codec == Some(VideoCodec::Avc420) ==> !whole)),
{
}

/// A frame is shown at the time that the capture gives it. Where it gives none, the frames that
/// were sent are counted, one after the other at the target rate.
pub proof fn frames_are_shown_in_order(p: Pipeline, frame: FrameInfo, fps: u32)
    ensures
        frame.pts > 0 ==> p.timestamp_ms(frame, fps) == frame.pts / 1_000_000,
        frame.pts == 0 && fps == 0 ==> p.timestamp_ms(frame, fps) == p.frames_sent * 1000,
        frame.pts == 0 && fps == 30 ==> p.timestamp_ms(frame, fps) == p.frames_sent * 33,
        frame.pts == 0 && fps == 60 ==> p.timestamp_ms(frame, fps) == p.frames_sent * 16,
        frame.pts == 0 && fps > 0 ==> p.timestamp_ms(frame, fps) == p.frames_sent * (1000int
            / fps as int),
{
}

/// The encoder that could be had is taken. Where the connection takes frames the first of them
/// is sent whole; without an encoder there is none.
pub proof fn new_encoders_begin_with_a_whole_frame(
    p: Pipeline,
    codec: Option<VideoCodec>,
    connected: bool,
)
    ensures
        p.with_encoder(codec, connected).codec == codec,
        codec is Some && connected ==> p.with_encoder(codec, connected).has_sender
            && p.with_encoder(codec, connected).force_first_frame,
        codec is None || !connected ==> p.with_encoder(codec, connected) == (Pipeline {
            codec,
            ..p
        }),
        p.with_encoder(codec, connected).frames_sent == p.frames_sent,
        p.with_encoder(codec, connected).egfx_gate_bypassed == p.egfx_gate_bypassed,
{
}

/// A frame in which something changed is encoded unless the latency governor says to skip it or
/// to wait. Nothing changed is counted as such, and only what the governor skips is dropped.
pub proof fn changes_are_encoded(
    p: Pipeline,
    regions: Seq<DamageRegion>,
    decision: EncodingDecision,
)
    requires
        p.has_room(),
    ensures
        decision == EncodingDecision::EncodeNow || decision == EncodingDecision::EncodeKeepalive
            || decision == EncodingDecision::EncodeBatch || decision
            == EncodingDecision::EncodeTimeout ==> damage_outcome(regions, decision) == (
        if regions.len() > 0 {
            DamageOutcome::Encode
        } else {
            DamageOutcome::Unchanged
        }),
        decision == EncodingDecision::Skip || decision == EncodingDecision::WaitForMore
            ==> damage_outcome(regions, decision) == DamageOutcome::Skip,
        p.after_damage(regions, decision).frames_dropped == p.frames_dropped + (if decision
            == EncodingDecision::Skip {
            1int
        } else {
            0
        }),
        p.after_damage(regions, decision).frames_skipped_damage == p.frames_skipped_damage + (
        if damage_outcome(regions, decision) == DamageOutcome::Unchanged {
            1int
        } else {
            0
        }),
        p.after_damage(regions, decision).frames_sent == p.frames_sent,
        p.after_damage(regions, decision).egfx_frames_sent == p.egfx_frames_sent,
{
}

/// Every frame that the rate lets through is counted as sent and every other one as dropped;
/// every one that went out over the graphics channel is counted there, and one that did not is
/// dropped.
pub proof fn frames_are_counted_once(p: Pipeline)
    requires
        p.has_room(),
    ensures
        p.after_regulation(true).frames_sent == p.frames_sent + 1,
        p.after_regulation(true).frames_dropped == p.frames_dropped,
        p.after_regulation(false).frames_sent == p.frames_sent,
        p.after_regulation(false).frames_dropped == p.frames_dropped + 1,
        p.after_sending(true).egfx_frames_sent == p.egfx_frames_sent + 1,
        p.after_sending(true).frames_dropped == p.frames_dropped,
        p.after_sending(false).egfx_frames_sent == p.egfx_frames_sent,
        p.after_sending(false).frames_dropped == p.frames_dropped + 1,
        p.after_sending(true).frames_sent == p.frames_sent,
{
}

/// Where a frame goes whole, or nobody looks for changes, all of it counts as changed, every
/// pixel and nothing more; else what was found does.
pub proof fn whole_frames_change_everywhere(
    frame: FrameInfo,
    whole: bool,
    detected: Option<Vec<DamageRegion>>,
    px: int,
    py: int,
)
    ensures
        whole || detected is None ==> {
            &&& changed_parts(frame, whole, detected).len() == 1
            &&& changed_parts(frame, whole, detected)[0].covers(px, py) <==> 0 <= px < frame.width
                && 0 <= py < frame.height
        },
        !whole ==> (detected matches Some(v) ==> changed_parts(frame, whole, detected) == v@),
{
}

/// The encoder's picture shows the frame: every pixel of the frame is where it was, and the
/// picture is as large as the encoder's, which is filled up to whole macroblocks.
pub proof fn encoders_see_the_frame(data: Seq<u8>, frame: FrameInfo, x: int, y: int, k: int)
    requires
        0 <= x < frame.width,
        0 <= y < frame.height,
        0 <= k < 4,
        data.len() == frame.width * frame.height * 4,
    ensures
        encoder_picture(data, frame).len() == aligned(frame.width as int) * aligned(
            frame.height as int,
        ) * 4,
        encoder_picture(data, frame)[(y * aligned(frame.width as int) + x) * 4 + k] == data[(y
            * frame.width + x) * 4 + k],
{
    let sizes = Padding {
        width: frame.width as int,
        height: frame.height as int,
        aligned_width: aligned(frame.width as int),
        aligned_height: aligned(frame.height as int),
    };
    padding_repeats_edges(sizes, data, x, y, k);
    assert(0 <= sizes.aligned_width * sizes.aligned_height * 4) by (nonlinear_arith)
        requires
            0 <= sizes.aligned_width,
            0 <= sizes.aligned_height,
    ;
}

/// An encoded frame goes out as it is: one stream as subsampled colour, two as full colour with
/// the first as brightness, on the client's surface and at its time. The second stream, where
/// there is one, has the regions of the first.
pub proof fn encoded_frames_go_out_as_they_are(
    state: HandlerState,
    id: u16,
    encoded: EncodedVideoFrame,
    frame: FrameInfo,
    regions: Seq<DamageRegion>,
    timestamp_ms: u64,
    r: Result<FrameRequest, SendError>,
)
    requires
        state.is_ready,
        state.is_avc420_enabled,
        state.primary_surface_id == Some(id),
        timestamp_ms <= u32::MAX,
        is_request(Some(state), encoded, frame, regions, timestamp_ms, r),
    ensures
        encoded matches EncodedVideoFrame::Single(stream) ==> (r matches Ok(
            FrameRequest::Avc420 { surface_id, data, timestamp_ms: stamp, .. },
        ) && surface_id == id && data == stream && stamp == timestamp_ms),
        encoded matches EncodedVideoFrame::Dual { main, aux } ==> (r matches Ok(
            FrameRequest::Avc444 {
                surface_id,
                luma,
                luma_regions,
                chroma,
                chroma_regions,
                timestamp_ms: stamp,
            },
        ) && surface_id == id && luma == main && chroma == aux && stamp == timestamp_ms && (
        chroma_regions is Some <==> aux is Some) && (chroma_regions matches Some(rs) ==> rs@
            == luma_regions@)),
{
}

/// An encoded frame is sent with a region for every pixel that changed.
pub proof fn encoded_frames_show_every_change(
    frame: FrameInfo,
    regions: Seq<DamageRegion>,
    i: int,
    px: int,
    py: int,
)
    requires
        frame.width <= 0xffff,
        frame.height <= 0xffff,
        all_wf(regions),
        0 <= i < regions.len(),
        regions[i].x <= px < regions[i].x + regions[i].width,
        regions[i].y <= py < regions[i].y + regions[i].height,
        px < frame.width,
        py < frame.height,
    ensures
        exists|j: int|
            {
                &&& 0 <= j < sent_regions(frame, regions).len()
                &&& (#[trigger] sent_regions(frame, regions)[j]).left <= px
                &&& px <= sent_regions(frame, regions)[j].right
                &&& sent_regions(frame, regions)[j].top <= py
                &&& py <= sent_regions(frame, regions)[j].bottom
            },
{
    every_changed_pixel_is_sent(regions, i, frame.width as u16, frame.height as u16, px, py);
    let rs = regions_of(regions, frame.width as u16, frame.height as u16);
    assert(sent_regions(frame, regions) == rs);
    let j = choose|j: int|
        {
            &&& 0 <= j < rs.len()
            &&& (#[trigger] rs[j]).left <= px
            &&& px <= rs[j].right
            &&& rs[j].top <= py
            &&& py <= rs[j].bottom
        };
    assert(sent_regions(frame, regions)[j].left <= px);
}

/// The pictures of a frame keep their order, and each has the number of the frame.
pub proof fn pictures_keep_their_order(
    updates: Seq<IronBitmapUpdate>,
    sequence: u64,
    i: int,
)
    requires
        0 <= i < updates.len(),
    ensures
        numbered(updates, sequence).len() == updates.len(),
        numbered(updates, sequence)[i].bitmap == updates[i],
        numbered(updates, sequence)[i].sequence == sequence,
{
}

/// The health monitor learns of a stream that runs, pauses or fails as what it is, and of one
/// that is being set up or torn down nothing.
pub proof fn streams_are_reported_as_they_are()
    ensures
        reported_state(PwStreamState::Streaming) == Some(VideoStreamState::Streaming),
        reported_state(PwStreamState::Paused) == Some(VideoStreamState::Paused),
        reported_state(PwStreamState::Error) == Some(VideoStreamState::Error),
        reported_state(PwStreamState::Unconnected) is None,
        reported_state(PwStreamState::Connecting) is None,
{
}

/// Speed and quality are asked for by name; any other name leaves them in balance.
pub proof fn latency_goes_by_its_name(name: Seq<char>)
    ensures
        latency_named(name) is Interactive <==> name == "interactive"@,
        latency_named(name) is Quality <==> name == "quality"@,
{
    reveal_strlit("interactive");
    reveal_strlit("quality");
    assert("interactive"@.len() == 11 && "quality"@.len() == 7);
}

/// Changed parts are looked for where that is enabled, with each setting as configured.
pub proof fn damage_is_tracked_as_configured(config: DamageTrackingConfig)
    ensures
        damage_settings(config) is Some <==> config.enabled,
        config.enabled ==> {
            let d = damage_settings(config)->0;
            &&& d.tile_size == config.tile_size
            &&& d.diff_threshold == config.diff_threshold
            &&& d.pixel_threshold == config.pixel_threshold
            &&& d.merge_distance == config.merge_distance
            &&& d.min_region_area == config.min_region_area
        },
{
}

/// Each codec goes by its own name, and only full colour video has whole frames by the clock.
pub proof fn codecs_go_by_their_names(codec: VideoCodec, clock_due: bool)
    ensures
        codec is Avc420 ==> codec.label() == "AVC420"@ && !codec.renews(clock_due),
        codec is Avc444 ==> codec.label() == "AVC444"@ && codec.renews(clock_due) == clock_due,
{
}

} // verus!
