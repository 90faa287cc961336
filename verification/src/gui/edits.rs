//! Edits of single settings.
//!
//! Every input field of the configuration window produces one of these. A
//! field that holds a number sends its text; the edit is accepted only if the
//! text is a number that fits the setting.

use crate::config::{
    ServerConfig,
    SecurityConfig,
    VideoConfig,
    ProcessorConfig,
    DispatcherConfig,
    ConverterConfig,
    InputConfig,
    ClipboardConfig,
    AudioConfig,
    MultimonConfig,
    AdaptiveFpsConfig,
    LatencyConfig,
    PerformanceConfig,
    LoggingConfig,
    EgfxConfig,
    DamageTrackingConfig,
    HardwareEncodingConfig,
    DisplayConfig,
    AdvancedVideoConfig,
    PredictorConfig,
    CursorConfig,
    Config,
    Float32,
    VideoPipelineConfig,
};
use crate::text::{parse_number, parsed};
use vstd::prelude::*;

verus! {

/// `change` of the number that a text stands for, if it stands for one up to `max`.
pub open spec fn with_number<C>(text: Seq<char>, max: nat, change: spec_fn(nat) -> C) -> Option<C> {
    match parsed(text, max) {
        Some(n) => Some(change(n)),
        None => None,
    }
}

/// Edits of [`ServerConfig`].
#[derive(Debug)]
pub enum ServerEdit {
    MaxConnections(String),
    SessionTimeout(String),
    UsePortals(bool),
    ViewOnly(bool),
}

impl ServerConfig {
    /// The section after the edit; `None` if the edit is not accepted.
    pub open spec fn edited(self, edit: ServerEdit) -> Option<ServerConfig> {
        match edit {
            ServerEdit::MaxConnections(t) => with_number(
                t@,
                usize::MAX as nat,
                |n: nat| (ServerConfig { max_connections: n as usize, ..self }),
            ),
            ServerEdit::SessionTimeout(t) => with_number(
                t@,
                u64::MAX as nat,
                |n: nat| (ServerConfig { session_timeout: n as u64, ..self }),
            ),
            ServerEdit::UsePortals(v) => Some(ServerConfig { use_portals: v, ..self }),
            ServerEdit::ViewOnly(v) => Some(ServerConfig { view_only: v, ..self }),
        }
    }

    /// Applies an edit and tells whether it was accepted.
    pub fn apply(&mut self, edit: ServerEdit) -> (accepted: bool)
        ensures
            match old(self).edited(edit) {
                Some(c) => accepted && *final(self) == c,
                None => !accepted && *final(self) == *old(self),
            },
    {
        match edit {
            ServerEdit::MaxConnections(t) => match parse_number(t.as_str(), usize::MAX as u64) {
                Some(n) => {
                    self.max_connections = n as usize;
                    true
                },
                None => false,
            },
            ServerEdit::SessionTimeout(t) => match parse_number(t.as_str(), u64::MAX as u64) {
                Some(n) => {
                    self.session_timeout = n as u64;
                    true
                },
                None => false,
            },
            ServerEdit::UsePortals(v) => {
                self.use_portals = v;
                true
            },
            ServerEdit::ViewOnly(v) => {
                self.view_only = v;
                true
            },
        }
    }
}

/// Edits of [`SecurityConfig`].
#[derive(Debug)]
pub enum SecurityEdit {
    CertPath(String),
    KeyPath(String),
    Mode(String),
    AuthMethod(String),
    RequireTls13(bool),
}

impl SecurityConfig {
    /// The section after the edit; `None` if the edit is not accepted.
    pub open spec fn edited(self, edit: SecurityEdit) -> Option<SecurityConfig> {
        match edit {
            SecurityEdit::CertPath(v) => Some(SecurityConfig { cert_path: v, ..self }),
            SecurityEdit::KeyPath(v) => Some(SecurityConfig { key_path: v, ..self }),
            SecurityEdit::Mode(v) => Some(SecurityConfig { security_mode: v, ..self }),
            SecurityEdit::AuthMethod(v) => Some(SecurityConfig { auth_method: v, ..self }),
            SecurityEdit::RequireTls13(v) => Some(SecurityConfig { require_tls_13: v, ..self }),
        }
    }

    /// Applies an edit and tells whether it was accepted.
    pub fn apply(&mut self, edit: SecurityEdit) -> (accepted: bool)
        ensures
            match old(self).edited(edit) {
                Some(c) => accepted && *final(self) == c,
                None => !accepted && *final(self) == *old(self),
            },
    {
        match edit {
            SecurityEdit::CertPath(v) => {
                self.cert_path = v;
                true
            },
            SecurityEdit::KeyPath(v) => {
                self.key_path = v;
                true
            },
            SecurityEdit::Mode(v) => {
                self.security_mode = v;
                true
            },
            SecurityEdit::AuthMethod(v) => {
                self.auth_method = v;
                true
            },
            SecurityEdit::RequireTls13(v) => {
                self.require_tls_13 = v;
                true
            },
        }
    }
}

/// Edits of [`VideoConfig`].
#[derive(Debug)]
pub enum VideoEdit {
    TargetFps(u32),
    CursorMode(String),
}

impl VideoConfig {
    /// The section after the edit; `None` if the edit is not accepted.
    pub open spec fn edited(self, edit: VideoEdit) -> Option<VideoConfig> {
        match edit {
            VideoEdit::TargetFps(v) => Some(VideoConfig { target_fps: v, ..self }),
            VideoEdit::CursorMode(v) => Some(VideoConfig { cursor_mode: v, ..self }),
        }
    }

    /// Applies an edit and tells whether it was accepted.
    pub fn apply(&mut self, edit: VideoEdit) -> (accepted: bool)
        ensures
            match old(self).edited(edit) {
                Some(c) => accepted && *final(self) == c,
                None => !accepted && *final(self) == *old(self),
            },
    {
        match edit {
            VideoEdit::TargetFps(v) => {
                self.target_fps = v;
                true
            },
            VideoEdit::CursorMode(v) => {
                self.cursor_mode = v;
                true
            },
        }
    }
}

/// Edits of [`ProcessorConfig`].
#[derive(Debug)]
pub enum ProcessorEdit {
    TargetFps(String),
    MaxQueueDepth(String),
    AdaptiveQuality(bool),
    DamageThreshold(Float32),
    DropOnFullQueue(bool),
    EnableMetrics(bool),
}

impl ProcessorConfig {
    /// The section after the edit; `None` if the edit is not accepted.
    pub open spec fn edited(self, edit: ProcessorEdit) -> Option<ProcessorConfig> {
        match edit {
            ProcessorEdit::TargetFps(t) => with_number(
                t@,
                u32::MAX as nat,
                |n: nat| (ProcessorConfig { target_fps: n as u32, ..self }),
            ),
            ProcessorEdit::MaxQueueDepth(t) => with_number(
                t@,
                usize::MAX as nat,
                |n: nat| (ProcessorConfig { max_queue_depth: n as usize, ..self }),
            ),
            ProcessorEdit::AdaptiveQuality(v) => Some(ProcessorConfig { adaptive_quality: v, ..self }),
            ProcessorEdit::DamageThreshold(v) => Some(ProcessorConfig { damage_threshold: v, ..self }),
            ProcessorEdit::DropOnFullQueue(v) => Some(ProcessorConfig { drop_on_full_queue: v, ..self }),
            ProcessorEdit::EnableMetrics(v) => Some(ProcessorConfig { enable_metrics: v, ..self }),
        }
    }

    /// Applies an edit and tells whether it was accepted.
    pub fn apply(&mut self, edit: ProcessorEdit) -> (accepted: bool)
        ensures
            match old(self).edited(edit) {
                Some(c) => accepted && *final(self) == c,
                None => !accepted && *final(self) == *old(self),
            },
    {
        match edit {
            ProcessorEdit::TargetFps(t) => match parse_number(t.as_str(), u32::MAX as u64) {
                Some(n) => {
                    self.target_fps = n as u32;
                    true
                },
                None => false,
            },
            ProcessorEdit::MaxQueueDepth(t) => match parse_number(t.as_str(), usize::MAX as u64) {
                Some(n) => {
                    self.max_queue_depth = n as usize;
                    true
                },
                None => false,
            },
            ProcessorEdit::AdaptiveQuality(v) => {
                self.adaptive_quality = v;
                true
            },
            ProcessorEdit::DamageThreshold(v) => {
                self.damage_threshold = v;
                true
            },
            ProcessorEdit::DropOnFullQueue(v) => {
                self.drop_on_full_queue = v;
                true
            },
            ProcessorEdit::EnableMetrics(v) => {
                self.enable_metrics = v;
                true
            },
        }
    }
}

/// Edits of [`DispatcherConfig`].
#[derive(Debug)]
pub enum DispatcherEdit {
    ChannelSize(String),
    PriorityDispatch(bool),
    MaxFrameAge(String),
    EnableBackpressure(bool),
    HighWaterMark(Float32),
    LowWaterMark(Float32),
    LoadBalancing(bool),
}

impl DispatcherConfig {
    /// The section after the edit; `None` if the edit is not accepted.
    pub open spec fn edited(self, edit: DispatcherEdit) -> Option<DispatcherConfig> {
        match edit {
            DispatcherEdit::ChannelSize(t) => with_number(
                t@,
                usize::MAX as nat,
                |n: nat| (DispatcherConfig { channel_size: n as usize, ..self }),
            ),
            DispatcherEdit::PriorityDispatch(v) => Some(DispatcherConfig { priority_dispatch: v, ..self }),
            DispatcherEdit::MaxFrameAge(t) => with_number(
                t@,
                u64::MAX as nat,
                |n: nat| (DispatcherConfig { max_frame_age_ms: n as u64, ..self }),
            ),
            DispatcherEdit::EnableBackpressure(v) => Some(DispatcherConfig { enable_backpressure: v, ..self }),
            DispatcherEdit::HighWaterMark(v) => Some(DispatcherConfig { high_water_mark: v, ..self }),
            DispatcherEdit::LowWaterMark(v) => Some(DispatcherConfig { low_water_mark: v, ..self }),
            DispatcherEdit::LoadBalancing(v) => Some(DispatcherConfig { load_balancing: v, ..self }),
        }
    }

    /// Applies an edit and tells whether it was accepted.
    pub fn apply(&mut self, edit: DispatcherEdit) -> (accepted: bool)
        ensures
            match old(self).edited(edit) {
                Some(c) => accepted && *final(self) == c,
                None => !accepted && *final(self) == *old(self),
            },
    {
        match edit {
            DispatcherEdit::ChannelSize(t) => match parse_number(t.as_str(), usize::MAX as u64) {
                Some(n) => {
                    self.channel_size = n as usize;
                    true
                },
                None => false,
            },
            DispatcherEdit::PriorityDispatch(v) => {
                self.priority_dispatch = v;
                true
            },
            DispatcherEdit::MaxFrameAge(t) => match parse_number(t.as_str(), u64::MAX as u64) {
                Some(n) => {
                    self.max_frame_age_ms = n as u64;
                    true
                },
                None => false,
            },
            DispatcherEdit::EnableBackpressure(v) => {
                self.enable_backpressure = v;
                true
            },
            DispatcherEdit::HighWaterMark(v) => {
                self.high_water_mark = v;
                true
            },
            DispatcherEdit::LowWaterMark(v) => {
                self.low_water_mark = v;
                true
            },
            DispatcherEdit::LoadBalancing(v) => {
                self.load_balancing = v;
                true
            },
        }
    }
}

/// Edits of [`ConverterConfig`].
#[derive(Debug)]
pub enum ConverterEdit {
    BufferPoolSize(String),
    EnableSimd(bool),
    DamageThreshold(Float32),
    EnableStatistics(bool),
}

impl ConverterConfig {
    /// The section after the edit; `None` if the edit is not accepted.
    pub open spec fn edited(self, edit: ConverterEdit) -> Option<ConverterConfig> {
        match edit {
            ConverterEdit::BufferPoolSize(t) => with_number(
                t@,
                usize::MAX as nat,
                |n: nat| (ConverterConfig { buffer_pool_size: n as usize, ..self }),
            ),
            ConverterEdit::EnableSimd(v) => Some(ConverterConfig { enable_simd: v, ..self }),
            ConverterEdit::DamageThreshold(v) => Some(ConverterConfig { damage_threshold: v, ..self }),
            ConverterEdit::EnableStatistics(v) => Some(ConverterConfig { enable_statistics: v, ..self }),
        }
    }

    /// Applies an edit and tells whether it was accepted.
    pub fn apply(&mut self, edit: ConverterEdit) -> (accepted: bool)
        ensures
            match old(self).edited(edit) {
                Some(c) => accepted && *final(self) == c,
                None => !accepted && *final(self) == *old(self),
            },
    {
        match edit {
            ConverterEdit::BufferPoolSize(t) => match parse_number(t.as_str(), usize::MAX as u64) {
                Some(n) => {
                    self.buffer_pool_size = n as usize;
                    true
                },
                None => false,
            },
            ConverterEdit::EnableSimd(v) => {
                self.enable_simd = v;
                true
            },
            ConverterEdit::DamageThreshold(v) => {
                self.damage_threshold = v;
                true
            },
            ConverterEdit::EnableStatistics(v) => {
                self.enable_statistics = v;
                true
            },
        }
    }
}

/// Edits of [`InputConfig`].
#[derive(Debug)]
pub enum InputEdit {
    Protocol(String),
    KeyboardLayout(String),
    EnableTouch(bool),
}

impl InputConfig {
    /// The section after the edit; `None` if the edit is not accepted.
    pub open spec fn edited(self, edit: InputEdit) -> Option<InputConfig> {
        match edit {
            InputEdit::Protocol(v) => Some(InputConfig { input_protocol: v, ..self }),
            InputEdit::KeyboardLayout(v) => Some(InputConfig { keyboard_layout: v, ..self }),
            InputEdit::EnableTouch(v) => Some(InputConfig { enable_touch: v, ..self }),
        }
    }

    /// Applies an edit and tells whether it was accepted.
    pub fn apply(&mut self, edit: InputEdit) -> (accepted: bool)
        ensures
            match old(self).edited(edit) {
                Some(c) => accepted && *final(self) == c,
                None => !accepted && *final(self) == *old(self),
            },
    {
        match edit {
            InputEdit::Protocol(v) => {
                self.input_protocol = v;
                true
            },
            InputEdit::KeyboardLayout(v) => {
                self.keyboard_layout = v;
                true
            },
            InputEdit::EnableTouch(v) => {
                self.enable_touch = v;
                true
            },
        }
    }
}

/// Edits of [`ClipboardConfig`].
#[derive(Debug)]
pub enum ClipboardEdit {
    Enabled(bool),
    MaxSize(String),
    RateLimit(String),
    AllowedTypes(Vec<String>),
}

impl ClipboardConfig {
    /// The section after the edit; `None` if the edit is not accepted.
    pub open spec fn edited(self, edit: ClipboardEdit) -> Option<ClipboardConfig> {
        match edit {
            ClipboardEdit::Enabled(v) => Some(ClipboardConfig { enabled: v, ..self }),
            ClipboardEdit::MaxSize(t) => with_number(
                t@,
                usize::MAX as nat,
                |n: nat| (ClipboardConfig { max_size: n as usize, ..self }),
            ),
            ClipboardEdit::RateLimit(t) => with_number(
                t@,
                u64::MAX as nat,
                |n: nat| (ClipboardConfig { rate_limit_ms: n as u64, ..self }),
            ),
            ClipboardEdit::AllowedTypes(v) => Some(ClipboardConfig { allowed_types: v, ..self }),
        }
    }

    /// Applies an edit and tells whether it was accepted.
    pub fn apply(&mut self, edit: ClipboardEdit) -> (accepted: bool)
        ensures
            match old(self).edited(edit) {
                Some(c) => accepted && *final(self) == c,
                None => !accepted && *final(self) == *old(self),
            },
    {
        match edit {
            ClipboardEdit::Enabled(v) => {
                self.enabled = v;
                true
            },
            ClipboardEdit::MaxSize(t) => match parse_number(t.as_str(), usize::MAX as u64) {
                Some(n) => {
                    self.max_size = n as usize;
                    true
                },
                None => false,
            },
            ClipboardEdit::RateLimit(t) => match parse_number(t.as_str(), u64::MAX as u64) {
                Some(n) => {
                    self.rate_limit_ms = n as u64;
                    true
                },
                None => false,
            },
            ClipboardEdit::AllowedTypes(v) => {
                self.allowed_types = v;
                true
            },
        }
    }
}

/// Edits of [`AudioConfig`].
#[derive(Debug)]
pub enum AudioEdit {
    Enabled(bool),
    Codec(String),
    SampleRate(u32),
    Channels(u8),
    FrameMs(u32),
}

impl AudioConfig {
    /// The section after the edit; `None` if the edit is not accepted.
    pub open spec fn edited(self, edit: AudioEdit) -> Option<AudioConfig> {
        match edit {
            AudioEdit::Enabled(v) => Some(AudioConfig { enabled: v, ..self }),
            AudioEdit::Codec(v) => Some(AudioConfig { codec: v, ..self }),
            AudioEdit::SampleRate(v) => Some(AudioConfig { sample_rate: v, ..self }),
            AudioEdit::Channels(v) => Some(AudioConfig { channels: v, ..self }),
            AudioEdit::FrameMs(v) => Some(AudioConfig { frame_ms: v, ..self }),
        }
    }

    /// Applies an edit and tells whether it was accepted.
    pub fn apply(&mut self, edit: AudioEdit) -> (accepted: bool)
        ensures
            match old(self).edited(edit) {
                Some(c) => accepted && *final(self) == c,
                None => !accepted && *final(self) == *old(self),
            },
    {
        match edit {
            AudioEdit::Enabled(v) => {
                self.enabled = v;
                true
            },
            AudioEdit::Codec(v) => {
                self.codec = v;
                true
            },
            AudioEdit::SampleRate(v) => {
                self.sample_rate = v;
                true
            },
            AudioEdit::Channels(v) => {
                self.channels = v;
                true
            },
            AudioEdit::FrameMs(v) => {
                self.frame_ms = v;
                true
            },
        }
    }
}

/// Edits of [`MultimonConfig`].
#[derive(Debug)]
pub enum MultimonEdit {
    Enabled(bool),
}

impl MultimonConfig {
    /// The section after the edit; `None` if the edit is not accepted.
    pub open spec fn edited(self, edit: MultimonEdit) -> Option<MultimonConfig> {
        match edit {
            MultimonEdit::Enabled(v) => Some(MultimonConfig { enabled: v, ..self }),
        }
    }

    /// Applies an edit and tells whether it was accepted.
    pub fn apply(&mut self, edit: MultimonEdit) -> (accepted: bool)
        ensures
            match old(self).edited(edit) {
                Some(c) => accepted && *final(self) == c,
                None => !accepted && *final(self) == *old(self),
            },
    {
        match edit {
            MultimonEdit::Enabled(v) => {
                self.enabled = v;
                true
            },
        }
    }
}

/// Edits of [`AdaptiveFpsConfig`].
#[derive(Debug)]
pub enum AdaptiveFpsEdit {
    Enabled(bool),
    MinFps(u32),
    MaxFps(u32),
    HighActivity(Float32),
    MediumActivity(Float32),
    LowActivity(Float32),
}

impl AdaptiveFpsConfig {
    /// The section after the edit; `None` if the edit is not accepted.
    pub open spec fn edited(self, edit: AdaptiveFpsEdit) -> Option<AdaptiveFpsConfig> {
        match edit {
            AdaptiveFpsEdit::Enabled(v) => Some(AdaptiveFpsConfig { enabled: v, ..self }),
            AdaptiveFpsEdit::MinFps(v) => Some(AdaptiveFpsConfig { min_fps: v, ..self }),
            AdaptiveFpsEdit::MaxFps(v) => Some(AdaptiveFpsConfig { max_fps: v, ..self }),
            AdaptiveFpsEdit::HighActivity(v) => Some(AdaptiveFpsConfig { high_activity_threshold: v, ..self }),
            AdaptiveFpsEdit::MediumActivity(v) => Some(AdaptiveFpsConfig { medium_activity_threshold: v, ..self }),
            AdaptiveFpsEdit::LowActivity(v) => Some(AdaptiveFpsConfig { low_activity_threshold: v, ..self }),
        }
    }

    /// Applies an edit and tells whether it was accepted.
    pub fn apply(&mut self, edit: AdaptiveFpsEdit) -> (accepted: bool)
        ensures
            match old(self).edited(edit) {
                Some(c) => accepted && *final(self) == c,
                None => !accepted && *final(self) == *old(self),
            },
    {
        match edit {
            AdaptiveFpsEdit::Enabled(v) => {
                self.enabled = v;
                true
            },
            AdaptiveFpsEdit::MinFps(v) => {
                self.min_fps = v;
                true
            },
            AdaptiveFpsEdit::MaxFps(v) => {
                self.max_fps = v;
                true
            },
            AdaptiveFpsEdit::HighActivity(v) => {
                self.high_activity_threshold = v;
                true
            },
            AdaptiveFpsEdit::MediumActivity(v) => {
                self.medium_activity_threshold = v;
                true
            },
            AdaptiveFpsEdit::LowActivity(v) => {
                self.low_activity_threshold = v;
                true
            },
        }
    }
}

/// Edits of [`LatencyConfig`].
#[derive(Debug)]
pub enum LatencyEdit {
    Mode(String),
    InteractiveDelay(String),
    BalancedDelay(String),
    QualityDelay(String),
    BalancedThreshold(Float32),
    QualityThreshold(Float32),
}

impl LatencyConfig {
    /// The section after the edit; `None` if the edit is not accepted.
    pub open spec fn edited(self, edit: LatencyEdit) -> Option<LatencyConfig> {
        match edit {
            LatencyEdit::Mode(v) => Some(LatencyConfig { mode: v, ..self }),
            LatencyEdit::InteractiveDelay(t) => with_number(
                t@,
                u32::MAX as nat,
                |n: nat| (LatencyConfig { interactive_max_delay_ms: n as u32, ..self }),
            ),
            LatencyEdit::BalancedDelay(t) => with_number(
                t@,
                u32::MAX as nat,
                |n: nat| (LatencyConfig { balanced_max_delay_ms: n as u32, ..self }),
            ),
            LatencyEdit::QualityDelay(t) => with_number(
                t@,
                u32::MAX as nat,
                |n: nat| (LatencyConfig { quality_max_delay_ms: n as u32, ..self }),
            ),
            LatencyEdit::BalancedThreshold(v) => Some(LatencyConfig { balanced_damage_threshold: v, ..self }),
            LatencyEdit::QualityThreshold(v) => Some(LatencyConfig { quality_damage_threshold: v, ..self }),
        }
    }

    /// Applies an edit and tells whether it was accepted.
    pub fn apply(&mut self, edit: LatencyEdit) -> (accepted: bool)
        ensures
            match old(self).edited(edit) {
                Some(c) => accepted && *final(self) == c,
                None => !accepted && *final(self) == *old(self),
            },
    {
        match edit {
            LatencyEdit::Mode(v) => {
                self.mode = v;
                true
            },
            LatencyEdit::InteractiveDelay(t) => match parse_number(t.as_str(), u32::MAX as u64) {
                Some(n) => {
                    self.interactive_max_delay_ms = n as u32;
                    true
                },
                None => false,
            },
            LatencyEdit::BalancedDelay(t) => match parse_number(t.as_str(), u32::MAX as u64) {
                Some(n) => {
                    self.balanced_max_delay_ms = n as u32;
                    true
                },
                None => false,
            },
            LatencyEdit::QualityDelay(t) => match parse_number(t.as_str(), u32::MAX as u64) {
                Some(n) => {
                    self.quality_max_delay_ms = n as u32;
                    true
                },
                None => false,
            },
            LatencyEdit::BalancedThreshold(v) => {
                self.balanced_damage_threshold = v;
                true
            },
            LatencyEdit::QualityThreshold(v) => {
                self.quality_damage_threshold = v;
                true
            },
        }
    }
}

/// Edits of [`PerformanceConfig`].
#[derive(Debug)]
pub enum PerformanceEdit {
    EncoderThreads(String),
    NetworkThreads(String),
    BufferPoolSize(String),
    ZeroCopy(bool),
}

impl PerformanceConfig {
    /// The section after the edit; `None` if the edit is not accepted.
    pub open spec fn edited(self, edit: PerformanceEdit) -> Option<PerformanceConfig> {
        match edit {
            PerformanceEdit::EncoderThreads(t) => with_number(
                t@,
                usize::MAX as nat,
                |n: nat| (PerformanceConfig { encoder_threads: n as usize, ..self }),
            ),
            PerformanceEdit::NetworkThreads(t) => with_number(
                t@,
                usize::MAX as nat,
                |n: nat| (PerformanceConfig { network_threads: n as usize, ..self }),
            ),
            PerformanceEdit::BufferPoolSize(t) => with_number(
                t@,
                usize::MAX as nat,
                |n: nat| (PerformanceConfig { buffer_pool_size: n as usize, ..self }),
            ),
            PerformanceEdit::ZeroCopy(v) => Some(PerformanceConfig { zero_copy: v, ..self }),
        }
    }

    /// Applies an edit and tells whether it was accepted.
    pub fn apply(&mut self, edit: PerformanceEdit) -> (accepted: bool)
        ensures
            match old(self).edited(edit) {
                Some(c) => accepted && *final(self) == c,
                None => !accepted && *final(self) == *old(self),
            },
    {
        match edit {
            PerformanceEdit::EncoderThreads(t) => match parse_number(t.as_str(), usize::MAX as u64) {
                Some(n) => {
                    self.encoder_threads = n as usize;
                    true
                },
                None => false,
            },
            PerformanceEdit::NetworkThreads(t) => match parse_number(t.as_str(), usize::MAX as u64) {
                Some(n) => {
                    self.network_threads = n as usize;
                    true
                },
                None => false,
            },
            PerformanceEdit::BufferPoolSize(t) => match parse_number(t.as_str(), usize::MAX as u64) {
                Some(n) => {
                    self.buffer_pool_size = n as usize;
                    true
                },
                None => false,
            },
            PerformanceEdit::ZeroCopy(v) => {
                self.zero_copy = v;
                true
            },
        }
    }
}

/// Edits of [`LoggingConfig`].
#[derive(Debug)]
pub enum LoggingEdit {
    Level(String),
    Metrics(bool),
}

impl LoggingConfig {
    /// The section after the edit; `None` if the edit is not accepted.
    pub open spec fn edited(self, edit: LoggingEdit) -> Option<LoggingConfig> {
        match edit {
            LoggingEdit::Level(v) => Some(LoggingConfig { level: v, ..self }),
            LoggingEdit::Metrics(v) => Some(LoggingConfig { metrics: v, ..self }),
        }
    }

    /// Applies an edit and tells whether it was accepted.
    pub fn apply(&mut self, edit: LoggingEdit) -> (accepted: bool)
        ensures
            match old(self).edited(edit) {
                Some(c) => accepted && *final(self) == c,
                None => !accepted && *final(self) == *old(self),
            },
    {
        match edit {
            LoggingEdit::Level(v) => {
                self.level = v;
                true
            },
            LoggingEdit::Metrics(v) => {
                self.metrics = v;
                true
            },
        }
    }
}

/// Edits of [`EgfxConfig`].
#[derive(Debug)]
pub enum EgfxEdit {
    Enabled(bool),
    H264Level(String),
    H264Bitrate(String),
    ZgfxCompression(String),
    MaxFramesInFlight(String),
    FrameAckTimeout(String),
    PeriodicIdrInterval(String),
    Codec(String),
    QpMin(String),
    QpMax(String),
    QpDefault(String),
    Avc444Enabled(bool),
    Avc444AuxBitrateRatio(Float32),
    ColorMatrix(String),
    ColorRange(String),
    Avc444EnableAuxOmission(bool),
    Avc444MaxAuxInterval(String),
    Avc444AuxChangeThreshold(Float32),
    Avc444ForceAuxIdr(bool),
}

impl EgfxConfig {
    /// The section after the edit; `None` if the edit is not accepted.
    pub open spec fn edited(self, edit: EgfxEdit) -> Option<EgfxConfig> {
        match edit {
            EgfxEdit::Enabled(v) => Some(EgfxConfig { enabled: v, ..self }),
            EgfxEdit::H264Level(v) => Some(EgfxConfig { h264_level: v, ..self }),
            EgfxEdit::H264Bitrate(t) => with_number(
                t@,
                u32::MAX as nat,
                |n: nat| (EgfxConfig { h264_bitrate: n as u32, ..self }),
            ),
            EgfxEdit::ZgfxCompression(v) => Some(EgfxConfig { zgfx_compression: v, ..self }),
            EgfxEdit::MaxFramesInFlight(t) => with_number(
                t@,
                u32::MAX as nat,
                |n: nat| (EgfxConfig { max_frames_in_flight: n as u32, ..self }),
            ),
            EgfxEdit::FrameAckTimeout(t) => with_number(
                t@,
                u64::MAX as nat,
                |n: nat| (EgfxConfig { frame_ack_timeout: n as u64, ..self }),
            ),
            EgfxEdit::PeriodicIdrInterval(t) => with_number(
                t@,
                u32::MAX as nat,
                |n: nat| (EgfxConfig { periodic_idr_interval: n as u32, ..self }),
            ),
            EgfxEdit::Codec(v) => Some(EgfxConfig { codec: v, ..self }),
            EgfxEdit::QpMin(t) => with_number(
                t@,
                u8::MAX as nat,
                |n: nat| (EgfxConfig { qp_min: n as u8, ..self }),
            ),
            EgfxEdit::QpMax(t) => with_number(
                t@,
                u8::MAX as nat,
                |n: nat| (EgfxConfig { qp_max: n as u8, ..self }),
            ),
            EgfxEdit::QpDefault(t) => with_number(
                t@,
                u8::MAX as nat,
                |n: nat| (EgfxConfig { qp_default: n as u8, ..self }),
            ),
            EgfxEdit::Avc444Enabled(v) => Some(EgfxConfig { avc444_enabled: v, ..self }),
            EgfxEdit::Avc444AuxBitrateRatio(v) => Some(EgfxConfig { avc444_aux_bitrate_ratio: v, ..self }),
            EgfxEdit::ColorMatrix(v) => Some(EgfxConfig { color_matrix: v, ..self }),
            EgfxEdit::ColorRange(v) => Some(EgfxConfig { color_range: v, ..self }),
            EgfxEdit::Avc444EnableAuxOmission(v) => Some(EgfxConfig { avc444_enable_aux_omission: v, ..self }),
            EgfxEdit::Avc444MaxAuxInterval(t) => with_number(
                t@,
                u32::MAX as nat,
                |n: nat| (EgfxConfig { avc444_max_aux_interval: n as u32, ..self }),
            ),
            EgfxEdit::Avc444AuxChangeThreshold(v) => Some(EgfxConfig { avc444_aux_change_threshold: v, ..self }),
            EgfxEdit::Avc444ForceAuxIdr(v) => Some(EgfxConfig { avc444_force_aux_idr_on_return: v, ..self }),
        }
    }

    /// Applies an edit and tells whether it was accepted.
    pub fn apply(&mut self, edit: EgfxEdit) -> (accepted: bool)
        ensures
            match old(self).edited(edit) {
                Some(c) => accepted && *final(self) == c,
                None => !accepted && *final(self) == *old(self),
            },
    {
        match edit {
            EgfxEdit::Enabled(v) => {
                self.enabled = v;
                true
            },
            EgfxEdit::H264Level(v) => {
                self.h264_level = v;
                true
            },
            EgfxEdit::H264Bitrate(t) => match parse_number(t.as_str(), u32::MAX as u64) {
                Some(n) => {
                    self.h264_bitrate = n as u32;
                    true
                },
                None => false,
            },
            EgfxEdit::ZgfxCompression(v) => {
                self.zgfx_compression = v;
                true
            },
            EgfxEdit::MaxFramesInFlight(t) => match parse_number(t.as_str(), u32::MAX as u64) {
                Some(n) => {
                    self.max_frames_in_flight = n as u32;
                    true
                },
                None => false,
            },
            EgfxEdit::FrameAckTimeout(t) => match parse_number(t.as_str(), u64::MAX as u64) {
                Some(n) => {
                    self.frame_ack_timeout = n as u64;
                    true
                },
                None => false,
            },
            EgfxEdit::PeriodicIdrInterval(t) => match parse_number(t.as_str(), u32::MAX as u64) {
                Some(n) => {
                    self.periodic_idr_interval = n as u32;
                    true
                },
                None => false,
            },
            EgfxEdit::Codec(v) => {
                self.codec = v;
                true
            },
            EgfxEdit::QpMin(t) => match parse_number(t.as_str(), u8::MAX as u64) {
                Some(n) => {
                    self.qp_min = n as u8;
                    true
                },
                None => false,
            },
            EgfxEdit::QpMax(t) => match parse_number(t.as_str(), u8::MAX as u64) {
                Some(n) => {
                    self.qp_max = n as u8;
                    true
                },
                None => false,
            },
            EgfxEdit::QpDefault(t) => match parse_number(t.as_str(), u8::MAX as u64) {
                Some(n) => {
                    self.qp_default = n as u8;
                    true
                },
                None => false,
            },
            EgfxEdit::Avc444Enabled(v) => {
                self.avc444_enabled = v;
                true
            },
            EgfxEdit::Avc444AuxBitrateRatio(v) => {
                self.avc444_aux_bitrate_ratio = v;
                true
            },
            EgfxEdit::ColorMatrix(v) => {
                self.color_matrix = v;
                true
            },
            EgfxEdit::ColorRange(v) => {
                self.color_range = v;
                true
            },
            EgfxEdit::Avc444EnableAuxOmission(v) => {
                self.avc444_enable_aux_omission = v;
                true
            },
            EgfxEdit::Avc444MaxAuxInterval(t) => match parse_number(t.as_str(), u32::MAX as u64) {
                Some(n) => {
                    self.avc444_max_aux_interval = n as u32;
                    true
                },
                None => false,
            },
            EgfxEdit::Avc444AuxChangeThreshold(v) => {
                self.avc444_aux_change_threshold = v;
                true
            },
            EgfxEdit::Avc444ForceAuxIdr(v) => {
                self.avc444_force_aux_idr_on_return = v;
                true
            },
        }
    }
}

/// Edits of [`DamageTrackingConfig`].
#[derive(Debug)]
pub enum DamageTrackingEdit {
    Enabled(bool),
    Method(String),
    TileSize(String),
    DiffThreshold(Float32),
    PixelThreshold(String),
    MergeDistance(String),
    MinRegionArea(String),
}

impl DamageTrackingConfig {
    /// The section after the edit; `None` if the edit is not accepted.
    pub open spec fn edited(self, edit: DamageTrackingEdit) -> Option<DamageTrackingConfig> {
        match edit {
            DamageTrackingEdit::Enabled(v) => Some(DamageTrackingConfig { enabled: v, ..self }),
            DamageTrackingEdit::Method(v) => Some(DamageTrackingConfig { method: v, ..self }),
            DamageTrackingEdit::TileSize(t) => with_number(
                t@,
                usize::MAX as nat,
                |n: nat| (DamageTrackingConfig { tile_size: n as usize, ..self }),
            ),
            DamageTrackingEdit::DiffThreshold(v) => Some(DamageTrackingConfig { diff_threshold: v, ..self }),
            DamageTrackingEdit::PixelThreshold(t) => with_number(
                t@,
                u8::MAX as nat,
                |n: nat| (DamageTrackingConfig { pixel_threshold: n as u8, ..self }),
            ),
            DamageTrackingEdit::MergeDistance(t) => with_number(
                t@,
                u32::MAX as nat,
                |n: nat| (DamageTrackingConfig { merge_distance: n as u32, ..self }),
            ),
            DamageTrackingEdit::MinRegionArea(t) => with_number(
                t@,
                u64::MAX as nat,
                |n: nat| (DamageTrackingConfig { min_region_area: n as u64, ..self }),
            ),
        }
    }

    /// Applies an edit and tells whether it was accepted.
    pub fn apply(&mut self, edit: DamageTrackingEdit) -> (accepted: bool)
        ensures
            match old(self).edited(edit) {
                Some(c) => accepted && *final(self) == c,
                None => !accepted && *final(self) == *old(self),
            },
    {
        match edit {
            DamageTrackingEdit::Enabled(v) => {
                self.enabled = v;
                true
            },
            DamageTrackingEdit::Method(v) => {
                self.method = v;
                true
            },
            DamageTrackingEdit::TileSize(t) => match parse_number(t.as_str(), usize::MAX as u64) {
                Some(n) => {
                    self.tile_size = n as usize;
                    true
                },
                None => false,
            },
            DamageTrackingEdit::DiffThreshold(v) => {
                self.diff_threshold = v;
                true
            },
            DamageTrackingEdit::PixelThreshold(t) => match parse_number(t.as_str(), u8::MAX as u64) {
                Some(n) => {
                    self.pixel_threshold = n as u8;
                    true
                },
                None => false,
            },
            DamageTrackingEdit::MergeDistance(t) => match parse_number(t.as_str(), u32::MAX as u64) {
                Some(n) => {
                    self.merge_distance = n as u32;
                    true
                },
                None => false,
            },
            DamageTrackingEdit::MinRegionArea(t) => match parse_number(t.as_str(), u64::MAX as u64) {
                Some(n) => {
                    self.min_region_area = n as u64;
                    true
                },
                None => false,
            },
        }
    }
}

/// Edits of [`HardwareEncodingConfig`].
#[derive(Debug)]
pub enum HardwareEncodingEdit {
    Enabled(bool),
    VaapiDevice(String),
    DmabufZerocopy(bool),
    FallbackToSoftware(bool),
    QualityPreset(String),
    PreferNvenc(bool),
}

impl HardwareEncodingConfig {
    /// The section after the edit; `None` if the edit is not accepted.
    pub open spec fn edited(self, edit: HardwareEncodingEdit) -> Option<HardwareEncodingConfig> {
        match edit {
            HardwareEncodingEdit::Enabled(v) => Some(HardwareEncodingConfig { enabled: v, ..self }),
            HardwareEncodingEdit::VaapiDevice(v) => Some(HardwareEncodingConfig { vaapi_device: v, ..self }),
            HardwareEncodingEdit::DmabufZerocopy(v) => Some(HardwareEncodingConfig { enable_dmabuf_zerocopy: v, ..self }),
            HardwareEncodingEdit::FallbackToSoftware(v) => Some(HardwareEncodingConfig { fallback_to_software: v, ..self }),
            HardwareEncodingEdit::QualityPreset(v) => Some(HardwareEncodingConfig { quality_preset: v, ..self }),
            HardwareEncodingEdit::PreferNvenc(v) => Some(HardwareEncodingConfig { prefer_nvenc: v, ..self }),
        }
    }

    /// Applies an edit and tells whether it was accepted.
    pub fn apply(&mut self, edit: HardwareEncodingEdit) -> (accepted: bool)
        ensures
            match old(self).edited(edit) {
                Some(c) => accepted && *final(self) == c,
                None => !accepted && *final(self) == *old(self),
            },
    {
        match edit {
            HardwareEncodingEdit::Enabled(v) => {
                self.enabled = v;
                true
            },
            HardwareEncodingEdit::VaapiDevice(v) => {
                self.vaapi_device = v;
                true
            },
            HardwareEncodingEdit::DmabufZerocopy(v) => {
                self.enable_dmabuf_zerocopy = v;
                true
            },
            HardwareEncodingEdit::FallbackToSoftware(v) => {
                self.fallback_to_software = v;
                true
            },
            HardwareEncodingEdit::QualityPreset(v) => {
                self.quality_preset = v;
                true
            },
            HardwareEncodingEdit::PreferNvenc(v) => {
                self.prefer_nvenc = v;
                true
            },
        }
    }
}

/// Edits of [`DisplayConfig`].
#[derive(Debug)]
pub enum DisplayEdit {
    AllowResize(bool),
    DpiAware(bool),
    AllowRotation(bool),
}

impl DisplayConfig {
    /// The section after the edit; `None` if the edit is not accepted.
    pub open spec fn edited(self, edit: DisplayEdit) -> Option<DisplayConfig> {
        match edit {
            DisplayEdit::AllowResize(v) => Some(DisplayConfig { allow_resize: v, ..self }),
            DisplayEdit::DpiAware(v) => Some(DisplayConfig { dpi_aware: v, ..self }),
            DisplayEdit::AllowRotation(v) => Some(DisplayConfig { allow_rotation: v, ..self }),
        }
    }

    /// Applies an edit and tells whether it was accepted.
    pub fn apply(&mut self, edit: DisplayEdit) -> (accepted: bool)
        ensures
            match old(self).edited(edit) {
                Some(c) => accepted && *final(self) == c,
                None => !accepted && *final(self) == *old(self),
            },
    {
        match edit {
            DisplayEdit::AllowResize(v) => {
                self.allow_resize = v;
                true
            },
            DisplayEdit::DpiAware(v) => {
                self.dpi_aware = v;
                true
            },
            DisplayEdit::AllowRotation(v) => {
                self.allow_rotation = v;
                true
            },
        }
    }
}

/// Edits of [`AdvancedVideoConfig`].
#[derive(Debug)]
pub enum AdvancedVideoEdit {
    EnableFrameSkip(bool),
    SceneChangeThreshold(Float32),
    IntraRefreshInterval(String),
    EnableAdaptiveQuality(bool),
}

impl AdvancedVideoConfig {
    /// The section after the edit; `None` if the edit is not accepted.
    pub open spec fn edited(self, edit: AdvancedVideoEdit) -> Option<AdvancedVideoConfig> {
        match edit {
            AdvancedVideoEdit::EnableFrameSkip(v) => Some(AdvancedVideoConfig { enable_frame_skip: v, ..self }),
            AdvancedVideoEdit::SceneChangeThreshold(v) => Some(AdvancedVideoConfig { scene_change_threshold: v, ..self }),
            AdvancedVideoEdit::IntraRefreshInterval(t) => with_number(
                t@,
                u32::MAX as nat,
                |n: nat| (AdvancedVideoConfig { intra_refresh_interval: n as u32, ..self }),
            ),
            AdvancedVideoEdit::EnableAdaptiveQuality(v) => Some(AdvancedVideoConfig { enable_adaptive_quality: v, ..self }),
        }
    }

    /// Applies an edit and tells whether it was accepted.
    pub fn apply(&mut self, edit: AdvancedVideoEdit) -> (accepted: bool)
        ensures
            match old(self).edited(edit) {
                Some(c) => accepted && *final(self) == c,
                None => !accepted && *final(self) == *old(self),
            },
    {
        match edit {
            AdvancedVideoEdit::EnableFrameSkip(v) => {
                self.enable_frame_skip = v;
                true
            },
            AdvancedVideoEdit::SceneChangeThreshold(v) => {
                self.scene_change_threshold = v;
                true
            },
            AdvancedVideoEdit::IntraRefreshInterval(t) => match parse_number(t.as_str(), u32::MAX as u64) {
                Some(n) => {
                    self.intra_refresh_interval = n as u32;
                    true
                },
                None => false,
            },
            AdvancedVideoEdit::EnableAdaptiveQuality(v) => {
                self.enable_adaptive_quality = v;
                true
            },
        }
    }
}

/// Edits of [`PredictorConfig`].
#[derive(Debug)]
pub enum PredictorEdit {
    HistorySize(String),
    /// `None` when the text of the field is not a number.
    LookaheadMs(Option<Float32>),
    VelocitySmoothing(Float32),
    AccelerationSmoothing(Float32),
    MaxPredictionDistance(String),
    /// `None` when the text of the field is not a number.
    MinVelocityThreshold(Option<Float32>),
    StopConvergenceRate(Float32),
}

impl PredictorConfig {
    /// The section after the edit; `None` if the edit is not accepted.
    pub open spec fn edited(self, edit: PredictorEdit) -> Option<PredictorConfig> {
        match edit {
            PredictorEdit::HistorySize(t) => with_number(
                t@,
                usize::MAX as nat,
                |n: nat| (PredictorConfig { history_size: n as usize, ..self }),
            ),
            PredictorEdit::LookaheadMs(v) => match v {
                Some(x) => Some(PredictorConfig { lookahead_ms: x, ..self }),
                None => None,
            },
            PredictorEdit::VelocitySmoothing(v) => Some(PredictorConfig { velocity_smoothing: v, ..self }),
            PredictorEdit::AccelerationSmoothing(v) => Some(PredictorConfig { acceleration_smoothing: v, ..self }),
            PredictorEdit::MaxPredictionDistance(t) => with_number(
                t@,
                u32::MAX as nat,
                |n: nat| (PredictorConfig { max_prediction_distance: n as u32, ..self }),
            ),
            PredictorEdit::MinVelocityThreshold(v) => match v {
                Some(x) => Some(PredictorConfig { min_velocity_threshold: x, ..self }),
                None => None,
            },
            PredictorEdit::StopConvergenceRate(v) => Some(PredictorConfig { stop_convergence_rate: v, ..self }),
        }
    }

    /// Applies an edit and tells whether it was accepted.
    pub fn apply(&mut self, edit: PredictorEdit) -> (accepted: bool)
        ensures
            match old(self).edited(edit) {
                Some(c) => accepted && *final(self) == c,
                None => !accepted && *final(self) == *old(self),
            },
    {
        match edit {
            PredictorEdit::HistorySize(t) => match parse_number(t.as_str(), usize::MAX as u64) {
                Some(n) => {
                    self.history_size = n as usize;
                    true
                },
                None => false,
            },
            PredictorEdit::LookaheadMs(v) => match v {
                Some(x) => {
                    self.lookahead_ms = x;
                    true
                },
                None => false,
            },
            PredictorEdit::VelocitySmoothing(v) => {
                self.velocity_smoothing = v;
                true
            },
            PredictorEdit::AccelerationSmoothing(v) => {
                self.acceleration_smoothing = v;
                true
            },
            PredictorEdit::MaxPredictionDistance(t) => match parse_number(t.as_str(), u32::MAX as u64) {
                Some(n) => {
                    self.max_prediction_distance = n as u32;
                    true
                },
                None => false,
            },
            PredictorEdit::MinVelocityThreshold(v) => match v {
                Some(x) => {
                    self.min_velocity_threshold = x;
                    true
                },
                None => false,
            },
            PredictorEdit::StopConvergenceRate(v) => {
                self.stop_convergence_rate = v;
                true
            },
        }
    }
}

/// Edits of [`CursorConfig`].
#[derive(Debug)]
pub enum CursorEdit {
    Mode(String),
    AutoMode(bool),
    PredictiveThreshold(String),
    UpdateFps(String),
}

impl CursorConfig {
    /// The section after the edit; `None` if the edit is not accepted.
    pub open spec fn edited(self, edit: CursorEdit) -> Option<CursorConfig> {
        match edit {
            CursorEdit::Mode(v) => Some(CursorConfig { mode: v, ..self }),
            CursorEdit::AutoMode(v) => Some(CursorConfig { auto_mode: v, ..self }),
            CursorEdit::PredictiveThreshold(t) => with_number(
                t@,
                u32::MAX as nat,
                |n: nat| (CursorConfig { predictive_latency_threshold_ms: n as u32, ..self }),
            ),
            CursorEdit::UpdateFps(t) => with_number(
                t@,
                u32::MAX as nat,
                |n: nat| (CursorConfig { cursor_update_fps: n as u32, ..self }),
            ),
        }
    }

    /// Applies an edit and tells whether it was accepted.
    pub fn apply(&mut self, edit: CursorEdit) -> (accepted: bool)
        ensures
            match old(self).edited(edit) {
                Some(c) => accepted && *final(self) == c,
                None => !accepted && *final(self) == *old(self),
            },
    {
        match edit {
            CursorEdit::Mode(v) => {
                self.mode = v;
                true
            },
            CursorEdit::AutoMode(v) => {
                self.auto_mode = v;
                true
            },
            CursorEdit::PredictiveThreshold(t) => match parse_number(t.as_str(), u32::MAX as u64) {
                Some(n) => {
                    self.predictive_latency_threshold_ms = n as u32;
                    true
                },
                None => false,
            },
            CursorEdit::UpdateFps(t) => match parse_number(t.as_str(), u32::MAX as u64) {
                Some(n) => {
                    self.cursor_update_fps = n as u32;
                    true
                },
                None => false,
            },
        }
    }
}

/// An edit of one setting.
#[derive(Debug)]
pub enum ConfigEdit {
    Server(ServerEdit),
    Security(SecurityEdit),
    Video(VideoEdit),
    Processor(ProcessorEdit),
    Dispatcher(DispatcherEdit),
    Converter(ConverterEdit),
    Input(InputEdit),
    Clipboard(ClipboardEdit),
    Audio(AudioEdit),
    Multimon(MultimonEdit),
    Performance(PerformanceEdit),
    AdaptiveFps(AdaptiveFpsEdit),
    Latency(LatencyEdit),
    Logging(LoggingEdit),
    Egfx(EgfxEdit),
    DamageTracking(DamageTrackingEdit),
    HardwareEncoding(HardwareEncodingEdit),
    Display(DisplayEdit),
    AdvancedVideo(AdvancedVideoEdit),
    Cursor(CursorEdit),
    Predictor(PredictorEdit),
}

impl Config {
    /// The configuration after the edit; `None` if the edit is not accepted.
    pub open spec fn edited(self, edit: ConfigEdit) -> Option<Config> {
        match edit {
            ConfigEdit::Server(e) => match self.server.edited(e) {
                Some(c) => Some(Config { server: c, ..self }),
                None => None,
            },
            ConfigEdit::Security(e) => match self.security.edited(e) {
                Some(c) => Some(Config { security: c, ..self }),
                None => None,
            },
            ConfigEdit::Video(e) => match self.video.edited(e) {
                Some(c) => Some(Config { video: c, ..self }),
                None => None,
            },
            ConfigEdit::Processor(e) => match self.video_pipeline.processor.edited(e) {
                Some(c) => Some(Config { video_pipeline: VideoPipelineConfig { processor: c, ..self.video_pipeline }, ..self }),
                None => None,
            },
            ConfigEdit::Dispatcher(e) => match self.video_pipeline.dispatcher.edited(e) {
                Some(c) => Some(Config { video_pipeline: VideoPipelineConfig { dispatcher: c, ..self.video_pipeline }, ..self }),
                None => None,
            },
            ConfigEdit::Converter(e) => match self.video_pipeline.converter.edited(e) {
                Some(c) => Some(Config { video_pipeline: VideoPipelineConfig { converter: c, ..self.video_pipeline }, ..self }),
                None => None,
            },
            ConfigEdit::Input(e) => match self.input.edited(e) {
                Some(c) => Some(Config { input: c, ..self }),
                None => None,
            },
            ConfigEdit::Clipboard(e) => match self.clipboard.edited(e) {
                Some(c) => Some(Config { clipboard: c, ..self }),
                None => None,
            },
            ConfigEdit::Audio(e) => match self.audio.edited(e) {
                Some(c) => Some(Config { audio: c, ..self }),
                None => None,
            },
            ConfigEdit::Multimon(e) => match self.multimon.edited(e) {
                Some(c) => Some(Config { multimon: c, ..self }),
                None => None,
            },
            ConfigEdit::Performance(e) => match self.performance.edited(e) {
                Some(c) => Some(Config { performance: c, ..self }),
                None => None,
            },
            ConfigEdit::AdaptiveFps(e) => match self.performance.adaptive_fps.edited(e) {
                Some(c) => Some(Config { performance: PerformanceConfig { adaptive_fps: c, ..self.performance }, ..self }),
                None => None,
            },
            ConfigEdit::Latency(e) => match self.performance.latency.edited(e) {
                Some(c) => Some(Config { performance: PerformanceConfig { latency: c, ..self.performance }, ..self }),
                None => None,
            },
            ConfigEdit::Logging(e) => match self.logging.edited(e) {
                Some(c) => Some(Config { logging: c, ..self }),
                None => None,
            },
            ConfigEdit::Egfx(e) => match self.egfx.edited(e) {
                Some(c) => Some(Config { egfx: c, ..self }),
                None => None,
            },
            ConfigEdit::DamageTracking(e) => match self.damage_tracking.edited(e) {
                Some(c) => Some(Config { damage_tracking: c, ..self }),
                None => None,
            },
            ConfigEdit::HardwareEncoding(e) => match self.hardware_encoding.edited(e) {
                Some(c) => Some(Config { hardware_encoding: c, ..self }),
                None => None,
            },
            ConfigEdit::Display(e) => match self.display.edited(e) {
                Some(c) => Some(Config { display: c, ..self }),
                None => None,
            },
            ConfigEdit::AdvancedVideo(e) => match self.advanced_video.edited(e) {
                Some(c) => Some(Config { advanced_video: c, ..self }),
                None => None,
            },
            ConfigEdit::Cursor(e) => match self.cursor.edited(e) {
                Some(c) => Some(Config { cursor: c, ..self }),
                None => None,
            },
            ConfigEdit::Predictor(e) => match self.cursor.predictor.edited(e) {
                Some(c) => Some(Config { cursor: CursorConfig { predictor: c, ..self.cursor }, ..self }),
                None => None,
            },
        }
    }

    /// Applies an edit and tells whether it was accepted.
    pub fn apply(&mut self, edit: ConfigEdit) -> (accepted: bool)
        ensures
            match old(self).edited(edit) {
                Some(c) => accepted && *final(self) == c,
                None => !accepted && *final(self) == *old(self),
            },
    {
        match edit {
            ConfigEdit::Server(e) => self.server.apply(e),
            ConfigEdit::Security(e) => self.security.apply(e),
            ConfigEdit::Video(e) => self.video.apply(e),
            ConfigEdit::Processor(e) => self.video_pipeline.processor.apply(e),
            ConfigEdit::Dispatcher(e) => self.video_pipeline.dispatcher.apply(e),
            ConfigEdit::Converter(e) => self.video_pipeline.converter.apply(e),
            ConfigEdit::Input(e) => self.input.apply(e),
            ConfigEdit::Clipboard(e) => self.clipboard.apply(e),
            ConfigEdit::Audio(e) => self.audio.apply(e),
            ConfigEdit::Multimon(e) => self.multimon.apply(e),
            ConfigEdit::Performance(e) => self.performance.apply(e),
            ConfigEdit::AdaptiveFps(e) => self.performance.adaptive_fps.apply(e),
            ConfigEdit::Latency(e) => self.performance.latency.apply(e),
            ConfigEdit::Logging(e) => self.logging.apply(e),
            ConfigEdit::Egfx(e) => self.egfx.apply(e),
            ConfigEdit::DamageTracking(e) => self.damage_tracking.apply(e),
            ConfigEdit::HardwareEncoding(e) => self.hardware_encoding.apply(e),
            ConfigEdit::Display(e) => self.display.apply(e),
            ConfigEdit::AdvancedVideo(e) => self.advanced_video.apply(e),
            ConfigEdit::Cursor(e) => self.cursor.apply(e),
            ConfigEdit::Predictor(e) => self.cursor.predictor.apply(e),
        }
    }
}

/// No edit touches the stored credentials.
pub proof fn edits_keep_credentials(config: Config, edit: ConfigEdit)
    ensures
        config.edited(edit) matches Some(c) ==> c.security.password_credentials
            == config.security.password_credentials,
{
}

} // verus!
