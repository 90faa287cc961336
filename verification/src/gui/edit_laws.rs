//! What the edits of single settings do.
//!
//! An edit that is accepted sets one setting to what the field holds and leaves all others. A
//! field that holds a number is accepted where its text is the number's, as far as the setting
//! reaches.

use crate::config::{
    AdaptiveFpsConfig,
    AdvancedVideoConfig,
    AudioConfig,
    ClipboardConfig,
    Config,
    ConverterConfig,
    CursorConfig,
    DamageTrackingConfig,
    DispatcherConfig,
    DisplayConfig,
    EgfxConfig,
    Float32,
    HardwareEncodingConfig,
    InputConfig,
    LatencyConfig,
    LoggingConfig,
    MultimonConfig,
    PerformanceConfig,
    PredictorConfig,
    ProcessorConfig,
    SecurityConfig,
    ServerConfig,
    VideoConfig,
    VideoPipelineConfig,
};
use crate::gui::edits::{
    AdaptiveFpsEdit,
    AdvancedVideoEdit,
    AudioEdit,
    ClipboardEdit,
    ConfigEdit,
    ConverterEdit,
    CursorEdit,
    DamageTrackingEdit,
    DispatcherEdit,
    DisplayEdit,
    EgfxEdit,
    HardwareEncodingEdit,
    InputEdit,
    LatencyEdit,
    LoggingEdit,
    MultimonEdit,
    PerformanceEdit,
    PredictorEdit,
    ProcessorEdit,
    SecurityEdit,
    ServerEdit,
    VideoEdit,
};
use crate::text::{decimal, large_numbers_are_refused, number_text_round_trip, parsed};
use vstd::prelude::*;

verus! {

proof fn lemma_number_texts(n: nat, max: nat)
    ensures
        n <= max ==> parsed(decimal(n), max) == Some(n),
        n > max ==> parsed(decimal(n), max) is None,
{
    if n <= max {
        number_text_round_trip(n, max);
    } else {
        large_numbers_are_refused(n, max);
    }
}

/// An edit of listening sets the setting that it is about, and no other.
pub proof fn server_edits_set_one_setting(
    config: ServerConfig,
    flag: bool,
    typed: String,
    n: nat,
)
    requires
        typed@ == decimal(n),
    ensures
        n <= usize::MAX ==> config.edited(ServerEdit::MaxConnections(typed)) == Some(
            ServerConfig { max_connections: n as usize, ..config },
        ),
        n > usize::MAX ==> config.edited(ServerEdit::MaxConnections(typed)) is None,
        n <= u64::MAX ==> config.edited(ServerEdit::SessionTimeout(typed)) == Some(
            ServerConfig { session_timeout: n as u64, ..config },
        ),
        n > u64::MAX ==> config.edited(ServerEdit::SessionTimeout(typed)) is None,
        config.edited(ServerEdit::UsePortals(flag)) == Some(
            ServerConfig { use_portals: flag, ..config },
        ),
        config.edited(ServerEdit::ViewOnly(flag)) == Some(
            ServerConfig { view_only: flag, ..config },
        ),
{
    lemma_number_texts(n, usize::MAX as nat);
    lemma_number_texts(n, u64::MAX as nat);
}

/// An edit of security sets the setting that it is about, and no other.
pub proof fn security_edits_set_one_setting(
    config: SecurityConfig,
    text: String,
    flag: bool,
)
    ensures
        config.edited(SecurityEdit::CertPath(text)) == Some(
            SecurityConfig { cert_path: text, ..config },
        ),
        config.edited(SecurityEdit::KeyPath(text)) == Some(
            SecurityConfig { key_path: text, ..config },
        ),
        config.edited(SecurityEdit::Mode(text)) == Some(
            SecurityConfig { security_mode: text, ..config },
        ),
        config.edited(SecurityEdit::AuthMethod(text)) == Some(
            SecurityConfig { auth_method: text, ..config },
        ),
        config.edited(SecurityEdit::RequireTls13(flag)) == Some(
            SecurityConfig { require_tls_13: flag, ..config },
        ),
{
}

/// An edit of video sets the setting that it is about, and no other.
pub proof fn video_edits_set_one_setting(
    config: VideoConfig,
    n32: u32,
    text: String,
)
    ensures
        config.edited(VideoEdit::TargetFps(n32)) == Some(
            VideoConfig { target_fps: n32, ..config },
        ),
        config.edited(VideoEdit::CursorMode(text)) == Some(
            VideoConfig { cursor_mode: text, ..config },
        ),
{
}

/// An edit of frame processing sets the setting that it is about, and no other.
pub proof fn processor_edits_set_one_setting(
    config: ProcessorConfig,
    flag: bool,
    number: Float32,
    typed: String,
    n: nat,
)
    requires
        typed@ == decimal(n),
    ensures
        n <= u32::MAX ==> config.edited(ProcessorEdit::TargetFps(typed)) == Some(
            ProcessorConfig { target_fps: n as u32, ..config },
        ),
        n > u32::MAX ==> config.edited(ProcessorEdit::TargetFps(typed)) is None,
        n <= usize::MAX ==> config.edited(ProcessorEdit::MaxQueueDepth(typed)) == Some(
            ProcessorConfig { max_queue_depth: n as usize, ..config },
        ),
        n > usize::MAX ==> config.edited(ProcessorEdit::MaxQueueDepth(typed)) is None,
        config.edited(ProcessorEdit::AdaptiveQuality(flag)) == Some(
            ProcessorConfig { adaptive_quality: flag, ..config },
        ),
        config.edited(ProcessorEdit::DamageThreshold(number)) == Some(
            ProcessorConfig { damage_threshold: number, ..config },
        ),
        config.edited(ProcessorEdit::DropOnFullQueue(flag)) == Some(
            ProcessorConfig { drop_on_full_queue: flag, ..config },
        ),
        config.edited(ProcessorEdit::EnableMetrics(flag)) == Some(
            ProcessorConfig { enable_metrics: flag, ..config },
        ),
{
    lemma_number_texts(n, u32::MAX as nat);
    lemma_number_texts(n, usize::MAX as nat);
}

/// An edit of frame dispatch sets the setting that it is about, and no other.
pub proof fn dispatcher_edits_set_one_setting(
    config: DispatcherConfig,
    flag: bool,
    number: Float32,
    typed: String,
    n: nat,
)
    requires
        typed@ == decimal(n),
    ensures
        n <= usize::MAX ==> config.edited(DispatcherEdit::ChannelSize(typed)) == Some(
            DispatcherConfig { channel_size: n as usize, ..config },
        ),
        n > usize::MAX ==> config.edited(DispatcherEdit::ChannelSize(typed)) is None,
        config.edited(DispatcherEdit::PriorityDispatch(flag)) == Some(
            DispatcherConfig { priority_dispatch: flag, ..config },
        ),
        n <= u64::MAX ==> config.edited(DispatcherEdit::MaxFrameAge(typed)) == Some(
            DispatcherConfig { max_frame_age_ms: n as u64, ..config },
        ),
        n > u64::MAX ==> config.edited(DispatcherEdit::MaxFrameAge(typed)) is None,
        config.edited(DispatcherEdit::EnableBackpressure(flag)) == Some(
            DispatcherConfig { enable_backpressure: flag, ..config },
        ),
        config.edited(DispatcherEdit::HighWaterMark(number)) == Some(
            DispatcherConfig { high_water_mark: number, ..config },
        ),
        config.edited(DispatcherEdit::LowWaterMark(number)) == Some(
            DispatcherConfig { low_water_mark: number, ..config },
        ),
        config.edited(DispatcherEdit::LoadBalancing(flag)) == Some(
            DispatcherConfig { load_balancing: flag, ..config },
        ),
{
    lemma_number_texts(n, usize::MAX as nat);
    lemma_number_texts(n, u64::MAX as nat);
}

/// An edit of conversion sets the setting that it is about, and no other.
pub proof fn converter_edits_set_one_setting(
    config: ConverterConfig,
    flag: bool,
    number: Float32,
    typed: String,
    n: nat,
)
    requires
        typed@ == decimal(n),
    ensures
        n <= usize::MAX ==> config.edited(ConverterEdit::BufferPoolSize(typed)) == Some(
            ConverterConfig { buffer_pool_size: n as usize, ..config },
        ),
        n > usize::MAX ==> config.edited(ConverterEdit::BufferPoolSize(typed)) is None,
        config.edited(ConverterEdit::EnableSimd(flag)) == Some(
            ConverterConfig { enable_simd: flag, ..config },
        ),
        config.edited(ConverterEdit::DamageThreshold(number)) == Some(
            ConverterConfig { damage_threshold: number, ..config },
        ),
        config.edited(ConverterEdit::EnableStatistics(flag)) == Some(
            ConverterConfig { enable_statistics: flag, ..config },
        ),
{
    lemma_number_texts(n, usize::MAX as nat);
}

/// An edit of input sets the setting that it is about, and no other.
pub proof fn input_edits_set_one_setting(
    config: InputConfig,
    text: String,
    flag: bool,
)
    ensures
        config.edited(InputEdit::Protocol(text)) == Some(
            InputConfig { input_protocol: text, ..config },
        ),
        config.edited(InputEdit::KeyboardLayout(text)) == Some(
            InputConfig { keyboard_layout: text, ..config },
        ),
        config.edited(InputEdit::EnableTouch(flag)) == Some(
            InputConfig { enable_touch: flag, ..config },
        ),
{
}

/// An edit of the clipboard sets the setting that it is about, and no other.
pub proof fn clipboard_edits_set_one_setting(
    config: ClipboardConfig,
    flag: bool,
    list: Vec<String>,
    typed: String,
    n: nat,
)
    requires
        typed@ == decimal(n),
    ensures
        config.edited(ClipboardEdit::Enabled(flag)) == Some(
            ClipboardConfig { enabled: flag, ..config },
        ),
        n <= usize::MAX ==> config.edited(ClipboardEdit::MaxSize(typed)) == Some(
            ClipboardConfig { max_size: n as usize, ..config },
        ),
        n > usize::MAX ==> config.edited(ClipboardEdit::MaxSize(typed)) is None,
        n <= u64::MAX ==> config.edited(ClipboardEdit::RateLimit(typed)) == Some(
            ClipboardConfig { rate_limit_ms: n as u64, ..config },
        ),
        n > u64::MAX ==> config.edited(ClipboardEdit::RateLimit(typed)) is None,
        config.edited(ClipboardEdit::AllowedTypes(list)) == Some(
            ClipboardConfig { allowed_types: list, ..config },
        ),
{
    lemma_number_texts(n, usize::MAX as nat);
    lemma_number_texts(n, u64::MAX as nat);
}

/// An edit of sound sets the setting that it is about, and no other.
pub proof fn audio_edits_set_one_setting(
    config: AudioConfig,
    flag: bool,
    text: String,
    n32: u32,
    n8: u8,
)
    ensures
        config.edited(AudioEdit::Enabled(flag)) == Some(
            AudioConfig { enabled: flag, ..config },
        ),
        config.edited(AudioEdit::Codec(text)) == Some(
            AudioConfig { codec: text, ..config },
        ),
        config.edited(AudioEdit::SampleRate(n32)) == Some(
            AudioConfig { sample_rate: n32, ..config },
        ),
        config.edited(AudioEdit::Channels(n8)) == Some(
            AudioConfig { channels: n8, ..config },
        ),
        config.edited(AudioEdit::FrameMs(n32)) == Some(
            AudioConfig { frame_ms: n32, ..config },
        ),
{
}

/// An edit of several monitors sets the setting that it is about, and no other.
pub proof fn multimon_edits_set_one_setting(
    config: MultimonConfig,
    flag: bool,
)
    ensures
        config.edited(MultimonEdit::Enabled(flag)) == Some(
            MultimonConfig { enabled: flag, ..config },
        ),
{
}

/// An edit of the adaptive frame rate sets the setting that it is about, and no other.
pub proof fn adaptive_fps_edits_set_one_setting(
    config: AdaptiveFpsConfig,
    flag: bool,
    n32: u32,
    number: Float32,
)
    ensures
        config.edited(AdaptiveFpsEdit::Enabled(flag)) == Some(
            AdaptiveFpsConfig { enabled: flag, ..config },
        ),
        config.edited(AdaptiveFpsEdit::MinFps(n32)) == Some(
            AdaptiveFpsConfig { min_fps: n32, ..config },
        ),
        config.edited(AdaptiveFpsEdit::MaxFps(n32)) == Some(
            AdaptiveFpsConfig { max_fps: n32, ..config },
        ),
        config.edited(AdaptiveFpsEdit::HighActivity(number)) == Some(
            AdaptiveFpsConfig { high_activity_threshold: number, ..config },
        ),
        config.edited(AdaptiveFpsEdit::MediumActivity(number)) == Some(
            AdaptiveFpsConfig { medium_activity_threshold: number, ..config },
        ),
        config.edited(AdaptiveFpsEdit::LowActivity(number)) == Some(
            AdaptiveFpsConfig { low_activity_threshold: number, ..config },
        ),
{
}

/// An edit of latency sets the setting that it is about, and no other.
pub proof fn latency_edits_set_one_setting(
    config: LatencyConfig,
    text: String,
    number: Float32,
    typed: String,
    n: nat,
)
    requires
        typed@ == decimal(n),
    ensures
        config.edited(LatencyEdit::Mode(text)) == Some(
            LatencyConfig { mode: text, ..config },
        ),
        n <= u32::MAX ==> config.edited(LatencyEdit::InteractiveDelay(typed)) == Some(
            LatencyConfig { interactive_max_delay_ms: n as u32, ..config },
        ),
        n > u32::MAX ==> config.edited(LatencyEdit::InteractiveDelay(typed)) is None,
        n <= u32::MAX ==> config.edited(LatencyEdit::BalancedDelay(typed)) == Some(
            LatencyConfig { balanced_max_delay_ms: n as u32, ..config },
        ),
        n > u32::MAX ==> config.edited(LatencyEdit::BalancedDelay(typed)) is None,
        n <= u32::MAX ==> config.edited(LatencyEdit::QualityDelay(typed)) == Some(
            LatencyConfig { quality_max_delay_ms: n as u32, ..config },
        ),
        n > u32::MAX ==> config.edited(LatencyEdit::QualityDelay(typed)) is None,
        config.edited(LatencyEdit::BalancedThreshold(number)) == Some(
            LatencyConfig { balanced_damage_threshold: number, ..config },
        ),
        config.edited(LatencyEdit::QualityThreshold(number)) == Some(
            LatencyConfig { quality_damage_threshold: number, ..config },
        ),
{
    lemma_number_texts(n, u32::MAX as nat);
}

/// An edit of performance sets the setting that it is about, and no other.
pub proof fn performance_edits_set_one_setting(
    config: PerformanceConfig,
    flag: bool,
    typed: String,
    n: nat,
)
    requires
        typed@ == decimal(n),
    ensures
        n <= usize::MAX ==> config.edited(PerformanceEdit::EncoderThreads(typed)) == Some(
            PerformanceConfig { encoder_threads: n as usize, ..config },
        ),
        n > usize::MAX ==> config.edited(PerformanceEdit::EncoderThreads(typed)) is None,
        n <= usize::MAX ==> config.edited(PerformanceEdit::NetworkThreads(typed)) == Some(
            PerformanceConfig { network_threads: n as usize, ..config },
        ),
        n > usize::MAX ==> config.edited(PerformanceEdit::NetworkThreads(typed)) is None,
        n <= usize::MAX ==> config.edited(PerformanceEdit::BufferPoolSize(typed)) == Some(
            PerformanceConfig { buffer_pool_size: n as usize, ..config },
        ),
        n > usize::MAX ==> config.edited(PerformanceEdit::BufferPoolSize(typed)) is None,
        config.edited(PerformanceEdit::ZeroCopy(flag)) == Some(
            PerformanceConfig { zero_copy: flag, ..config },
        ),
{
    lemma_number_texts(n, usize::MAX as nat);
}

/// An edit of logging sets the setting that it is about, and no other.
pub proof fn logging_edits_set_one_setting(
    config: LoggingConfig,
    text: String,
    flag: bool,
)
    ensures
        config.edited(LoggingEdit::Level(text)) == Some(
            LoggingConfig { level: text, ..config },
        ),
        config.edited(LoggingEdit::Metrics(flag)) == Some(
            LoggingConfig { metrics: flag, ..config },
        ),
{
}

/// An edit of the graphics channel sets the setting that it is about, and no other.
pub proof fn egfx_edits_set_one_setting(
    config: EgfxConfig,
    flag: bool,
    text: String,
    number: Float32,
    typed: String,
    n: nat,
)
    requires
        typed@ == decimal(n),
    ensures
        config.edited(EgfxEdit::Enabled(flag)) == Some(
            EgfxConfig { enabled: flag, ..config },
        ),
        config.edited(EgfxEdit::H264Level(text)) == Some(
            EgfxConfig { h264_level: text, ..config },
        ),
        n <= u32::MAX ==> config.edited(EgfxEdit::H264Bitrate(typed)) == Some(
            EgfxConfig { h264_bitrate: n as u32, ..config },
        ),
        n > u32::MAX ==> config.edited(EgfxEdit::H264Bitrate(typed)) is None,
        config.edited(EgfxEdit::ZgfxCompression(text)) == Some(
            EgfxConfig { zgfx_compression: text, ..config },
        ),
        n <= u32::MAX ==> config.edited(EgfxEdit::MaxFramesInFlight(typed)) == Some(
            EgfxConfig { max_frames_in_flight: n as u32, ..config },
        ),
        n > u32::MAX ==> config.edited(EgfxEdit::MaxFramesInFlight(typed)) is None,
        n <= u64::MAX ==> config.edited(EgfxEdit::FrameAckTimeout(typed)) == Some(
            EgfxConfig { frame_ack_timeout: n as u64, ..config },
        ),
        n > u64::MAX ==> config.edited(EgfxEdit::FrameAckTimeout(typed)) is None,
        n <= u32::MAX ==> config.edited(EgfxEdit::PeriodicIdrInterval(typed)) == Some(
            EgfxConfig { periodic_idr_interval: n as u32, ..config },
        ),
        n > u32::MAX ==> config.edited(EgfxEdit::PeriodicIdrInterval(typed)) is None,
        config.edited(EgfxEdit::Codec(text)) == Some(
            EgfxConfig { codec: text, ..config },
        ),
        n <= u8::MAX ==> config.edited(EgfxEdit::QpMin(typed)) == Some(
            EgfxConfig { qp_min: n as u8, ..config },
        ),
        n > u8::MAX ==> config.edited(EgfxEdit::QpMin(typed)) is None,
        n <= u8::MAX ==> config.edited(EgfxEdit::QpMax(typed)) == Some(
            EgfxConfig { qp_max: n as u8, ..config },
        ),
        n > u8::MAX ==> config.edited(EgfxEdit::QpMax(typed)) is None,
        n <= u8::MAX ==> config.edited(EgfxEdit::QpDefault(typed)) == Some(
            EgfxConfig { qp_default: n as u8, ..config },
        ),
        n > u8::MAX ==> config.edited(EgfxEdit::QpDefault(typed)) is None,
        config.edited(EgfxEdit::Avc444Enabled(flag)) == Some(
            EgfxConfig { avc444_enabled: flag, ..config },
        ),
        config.edited(EgfxEdit::Avc444AuxBitrateRatio(number)) == Some(
            EgfxConfig { avc444_aux_bitrate_ratio: number, ..config },
        ),
        config.edited(EgfxEdit::ColorMatrix(text)) == Some(
            EgfxConfig { color_matrix: text, ..config },
        ),
        config.edited(EgfxEdit::ColorRange(text)) == Some(
            EgfxConfig { color_range: text, ..config },
        ),
        config.edited(EgfxEdit::Avc444EnableAuxOmission(flag)) == Some(
            EgfxConfig { avc444_enable_aux_omission: flag, ..config },
        ),
        n <= u32::MAX ==> config.edited(EgfxEdit::Avc444MaxAuxInterval(typed)) == Some(
            EgfxConfig { avc444_max_aux_interval: n as u32, ..config },
        ),
        n > u32::MAX ==> config.edited(EgfxEdit::Avc444MaxAuxInterval(typed)) is None,
        config.edited(EgfxEdit::Avc444AuxChangeThreshold(number)) == Some(
            EgfxConfig { avc444_aux_change_threshold: number, ..config },
        ),
        config.edited(EgfxEdit::Avc444ForceAuxIdr(flag)) == Some(
            EgfxConfig { avc444_force_aux_idr_on_return: flag, ..config },
        ),
{
    lemma_number_texts(n, u32::MAX as nat);
    lemma_number_texts(n, u64::MAX as nat);
    lemma_number_texts(n, u8::MAX as nat);
}

/// An edit of damage tracking sets the setting that it is about, and no other.
pub proof fn damage_tracking_edits_set_one_setting(
    config: DamageTrackingConfig,
    flag: bool,
    text: String,
    number: Float32,
    typed: String,
    n: nat,
)
    requires
        typed@ == decimal(n),
    ensures
        config.edited(DamageTrackingEdit::Enabled(flag)) == Some(
            DamageTrackingConfig { enabled: flag, ..config },
        ),
        config.edited(DamageTrackingEdit::Method(text)) == Some(
            DamageTrackingConfig { method: text, ..config },
        ),
        n <= usize::MAX ==> config.edited(DamageTrackingEdit::TileSize(typed)) == Some(
            DamageTrackingConfig { tile_size: n as usize, ..config },
        ),
        n > usize::MAX ==> config.edited(DamageTrackingEdit::TileSize(typed)) is None,
        config.edited(DamageTrackingEdit::DiffThreshold(number)) == Some(
            DamageTrackingConfig { diff_threshold: number, ..config },
        ),
        n <= u8::MAX ==> config.edited(DamageTrackingEdit::PixelThreshold(typed)) == Some(
            DamageTrackingConfig { pixel_threshold: n as u8, ..config },
        ),
        n > u8::MAX ==> config.edited(DamageTrackingEdit::PixelThreshold(typed)) is None,
        n <= u32::MAX ==> config.edited(DamageTrackingEdit::MergeDistance(typed)) == Some(
            DamageTrackingConfig { merge_distance: n as u32, ..config },
        ),
        n > u32::MAX ==> config.edited(DamageTrackingEdit::MergeDistance(typed)) is None,
        n <= u64::MAX ==> config.edited(DamageTrackingEdit::MinRegionArea(typed)) == Some(
            DamageTrackingConfig { min_region_area: n as u64, ..config },
        ),
        n > u64::MAX ==> config.edited(DamageTrackingEdit::MinRegionArea(typed)) is None,
{
    lemma_number_texts(n, usize::MAX as nat);
    lemma_number_texts(n, u8::MAX as nat);
    lemma_number_texts(n, u32::MAX as nat);
    lemma_number_texts(n, u64::MAX as nat);
}

/// An edit of hardware encoding sets the setting that it is about, and no other.
pub proof fn hardware_encoding_edits_set_one_setting(
    config: HardwareEncodingConfig,
    flag: bool,
    text: String,
)
    ensures
        config.edited(HardwareEncodingEdit::Enabled(flag)) == Some(
            HardwareEncodingConfig { enabled: flag, ..config },
        ),
        config.edited(HardwareEncodingEdit::VaapiDevice(text)) == Some(
            HardwareEncodingConfig { vaapi_device: text, ..config },
        ),
        config.edited(HardwareEncodingEdit::DmabufZerocopy(flag)) == Some(
            HardwareEncodingConfig { enable_dmabuf_zerocopy: flag, ..config },
        ),
        config.edited(HardwareEncodingEdit::FallbackToSoftware(flag)) == Some(
            HardwareEncodingConfig { fallback_to_software: flag, ..config },
        ),
        config.edited(HardwareEncodingEdit::QualityPreset(text)) == Some(
            HardwareEncodingConfig { quality_preset: text, ..config },
        ),
        config.edited(HardwareEncodingEdit::PreferNvenc(flag)) == Some(
            HardwareEncodingConfig { prefer_nvenc: flag, ..config },
        ),
{
}

/// An edit of the display sets the setting that it is about, and no other.
pub proof fn display_edits_set_one_setting(
    config: DisplayConfig,
    flag: bool,
)
    ensures
        config.edited(DisplayEdit::AllowResize(flag)) == Some(
            DisplayConfig { allow_resize: flag, ..config },
        ),
        config.edited(DisplayEdit::DpiAware(flag)) == Some(
            DisplayConfig { dpi_aware: flag, ..config },
        ),
        config.edited(DisplayEdit::AllowRotation(flag)) == Some(
            DisplayConfig { allow_rotation: flag, ..config },
        ),
{
}

/// An edit of advanced video sets the setting that it is about, and no other.
pub proof fn advanced_video_edits_set_one_setting(
    config: AdvancedVideoConfig,
    flag: bool,
    number: Float32,
    typed: String,
    n: nat,
)
    requires
        typed@ == decimal(n),
    ensures
        config.edited(AdvancedVideoEdit::EnableFrameSkip(flag)) == Some(
            AdvancedVideoConfig { enable_frame_skip: flag, ..config },
        ),
        config.edited(AdvancedVideoEdit::SceneChangeThreshold(number)) == Some(
            AdvancedVideoConfig { scene_change_threshold: number, ..config },
        ),
        n <= u32::MAX ==> config.edited(AdvancedVideoEdit::IntraRefreshInterval(typed)) == Some(
            AdvancedVideoConfig { intra_refresh_interval: n as u32, ..config },
        ),
        n > u32::MAX ==> config.edited(AdvancedVideoEdit::IntraRefreshInterval(typed)) is None,
        config.edited(AdvancedVideoEdit::EnableAdaptiveQuality(flag)) == Some(
            AdvancedVideoConfig { enable_adaptive_quality: flag, ..config },
        ),
{
    lemma_number_texts(n, u32::MAX as nat);
}

/// An edit of pointer prediction sets the setting that it is about, and no other.
pub proof fn predictor_edits_set_one_setting(
    config: PredictorConfig,
    number: Float32,
    typed: String,
    n: nat,
)
    requires
        typed@ == decimal(n),
    ensures
        n <= usize::MAX ==> config.edited(PredictorEdit::HistorySize(typed)) == Some(
            PredictorConfig { history_size: n as usize, ..config },
        ),
        n > usize::MAX ==> config.edited(PredictorEdit::HistorySize(typed)) is None,
        config.edited(PredictorEdit::LookaheadMs(Some(number))) == Some(
            PredictorConfig { lookahead_ms: number, ..config },
        ),
        config.edited(PredictorEdit::LookaheadMs(None)) is None,
        config.edited(PredictorEdit::VelocitySmoothing(number)) == Some(
            PredictorConfig { velocity_smoothing: number, ..config },
        ),
        config.edited(PredictorEdit::AccelerationSmoothing(number)) == Some(
            PredictorConfig { acceleration_smoothing: number, ..config },
        ),
        n <= u32::MAX ==> config.edited(PredictorEdit::MaxPredictionDistance(typed)) == Some(
            PredictorConfig { max_prediction_distance: n as u32, ..config },
        ),
        n > u32::MAX ==> config.edited(PredictorEdit::MaxPredictionDistance(typed)) is None,
        config.edited(PredictorEdit::MinVelocityThreshold(Some(number))) == Some(
            PredictorConfig { min_velocity_threshold: number, ..config },
        ),
        config.edited(PredictorEdit::MinVelocityThreshold(None)) is None,
        config.edited(PredictorEdit::StopConvergenceRate(number)) == Some(
            PredictorConfig { stop_convergence_rate: number, ..config },
        ),
{
    lemma_number_texts(n, usize::MAX as nat);
    lemma_number_texts(n, u32::MAX as nat);
}

/// An edit of the pointer sets the setting that it is about, and no other.
pub proof fn cursor_edits_set_one_setting(
    config: CursorConfig,
    text: String,
    flag: bool,
    typed: String,
    n: nat,
)
    requires
        typed@ == decimal(n),
    ensures
        config.edited(CursorEdit::Mode(text)) == Some(
            CursorConfig { mode: text, ..config },
        ),
        config.edited(CursorEdit::AutoMode(flag)) == Some(
            CursorConfig { auto_mode: flag, ..config },
        ),
        n <= u32::MAX ==> config.edited(CursorEdit::PredictiveThreshold(typed)) == Some(
            CursorConfig { predictive_latency_threshold_ms: n as u32, ..config },
        ),
        n > u32::MAX ==> config.edited(CursorEdit::PredictiveThreshold(typed)) is None,
        n <= u32::MAX ==> config.edited(CursorEdit::UpdateFps(typed)) == Some(
            CursorConfig { cursor_update_fps: n as u32, ..config },
        ),
        n > u32::MAX ==> config.edited(CursorEdit::UpdateFps(typed)) is None,
{
    lemma_number_texts(n, u32::MAX as nat);
}

/// An edit of listening changes that section as it does by itself, and no other section.
pub proof fn server_edits_stay_in_their_section(config: Config, edit: ServerEdit)
    ensures
        config.edited(ConfigEdit::Server(edit)) is Some <==> config.server.edited(edit) is Some,
        config.edited(ConfigEdit::Server(edit)) matches Some(c) ==> Some(c.server)
            == config.server.edited(edit) && c == (Config { server: c.server, ..config }),
{
}

/// An edit of security changes that section as it does by itself, and no other section.
pub proof fn security_edits_stay_in_their_section(config: Config, edit: SecurityEdit)
    ensures
        config.edited(ConfigEdit::Security(edit)) is Some <==> config.security.edited(edit) is Some,
        config.edited(ConfigEdit::Security(edit)) matches Some(c) ==> Some(c.security)
            == config.security.edited(edit) && c == (Config { security: c.security, ..config }),
{
}

/// An edit of video changes that section as it does by itself, and no other section.
pub proof fn video_edits_stay_in_their_section(config: Config, edit: VideoEdit)
    ensures
        config.edited(ConfigEdit::Video(edit)) is Some <==> config.video.edited(edit) is Some,
        config.edited(ConfigEdit::Video(edit)) matches Some(c) ==> Some(c.video)
            == config.video.edited(edit) && c == (Config { video: c.video, ..config }),
{
}

/// An edit of input changes that section as it does by itself, and no other section.
pub proof fn input_edits_stay_in_their_section(config: Config, edit: InputEdit)
    ensures
        config.edited(ConfigEdit::Input(edit)) is Some <==> config.input.edited(edit) is Some,
        config.edited(ConfigEdit::Input(edit)) matches Some(c) ==> Some(c.input)
            == config.input.edited(edit) && c == (Config { input: c.input, ..config }),
{
}

/// An edit of the clipboard changes that section as it does by itself, and no other section.
pub proof fn clipboard_edits_stay_in_their_section(config: Config, edit: ClipboardEdit)
    ensures
        config.edited(ConfigEdit::Clipboard(edit)) is Some <==> config.clipboard.edited(edit) is Some,
        config.edited(ConfigEdit::Clipboard(edit)) matches Some(c) ==> Some(c.clipboard)
            == config.clipboard.edited(edit) && c == (Config { clipboard: c.clipboard, ..config }),
{
}

/// An edit of sound changes that section as it does by itself, and no other section.
pub proof fn audio_edits_stay_in_their_section(config: Config, edit: AudioEdit)
    ensures
        config.edited(ConfigEdit::Audio(edit)) is Some <==> config.audio.edited(edit) is Some,
        config.edited(ConfigEdit::Audio(edit)) matches Some(c) ==> Some(c.audio)
            == config.audio.edited(edit) && c == (Config { audio: c.audio, ..config }),
{
}

/// An edit of several monitors changes that section as it does by itself, and no other section.
pub proof fn multimon_edits_stay_in_their_section(config: Config, edit: MultimonEdit)
    ensures
        config.edited(ConfigEdit::Multimon(edit)) is Some <==> config.multimon.edited(edit) is Some,
        config.edited(ConfigEdit::Multimon(edit)) matches Some(c) ==> Some(c.multimon)
            == config.multimon.edited(edit) && c == (Config { multimon: c.multimon, ..config }),
{
}

/// An edit of performance changes that section as it does by itself, and no other section.
pub proof fn performance_edits_stay_in_their_section(config: Config, edit: PerformanceEdit)
    ensures
        config.edited(ConfigEdit::Performance(edit)) is Some <==> config.performance.edited(edit) is Some,
        config.edited(ConfigEdit::Performance(edit)) matches Some(c) ==> Some(c.performance)
            == config.performance.edited(edit) && c == (Config { performance: c.performance, ..config }),
{
}

/// An edit of logging changes that section as it does by itself, and no other section.
pub proof fn logging_edits_stay_in_their_section(config: Config, edit: LoggingEdit)
    ensures
        config.edited(ConfigEdit::Logging(edit)) is Some <==> config.logging.edited(edit) is Some,
        config.edited(ConfigEdit::Logging(edit)) matches Some(c) ==> Some(c.logging)
            == config.logging.edited(edit) && c == (Config { logging: c.logging, ..config }),
{
}

/// An edit of the graphics channel changes that section as it does by itself, and no other section.
pub proof fn egfx_edits_stay_in_their_section(config: Config, edit: EgfxEdit)
    ensures
        config.edited(ConfigEdit::Egfx(edit)) is Some <==> config.egfx.edited(edit) is Some,
        config.edited(ConfigEdit::Egfx(edit)) matches Some(c) ==> Some(c.egfx)
            == config.egfx.edited(edit) && c == (Config { egfx: c.egfx, ..config }),
{
}

/// An edit of damage tracking changes that section as it does by itself, and no other section.
pub proof fn damage_tracking_edits_stay_in_their_section(config: Config, edit: DamageTrackingEdit)
    ensures
        config.edited(ConfigEdit::DamageTracking(edit)) is Some <==> config.damage_tracking.edited(edit) is Some,
        config.edited(ConfigEdit::DamageTracking(edit)) matches Some(c) ==> Some(c.damage_tracking)
            == config.damage_tracking.edited(edit) && c == (Config { damage_tracking: c.damage_tracking, ..config }),
{
}

/// An edit of hardware encoding changes that section as it does by itself, and no other section.
pub proof fn hardware_encoding_edits_stay_in_their_section(config: Config, edit: HardwareEncodingEdit)
    ensures
        config.edited(ConfigEdit::HardwareEncoding(edit)) is Some <==> config.hardware_encoding.edited(edit) is Some,
        config.edited(ConfigEdit::HardwareEncoding(edit)) matches Some(c) ==> Some(c.hardware_encoding)
            == config.hardware_encoding.edited(edit) && c == (Config { hardware_encoding: c.hardware_encoding, ..config }),
{
}

/// An edit of the display changes that section as it does by itself, and no other section.
pub proof fn display_edits_stay_in_their_section(config: Config, edit: DisplayEdit)
    ensures
        config.edited(ConfigEdit::Display(edit)) is Some <==> config.display.edited(edit) is Some,
        config.edited(ConfigEdit::Display(edit)) matches Some(c) ==> Some(c.display)
            == config.display.edited(edit) && c == (Config { display: c.display, ..config }),
{
}

/// An edit of advanced video changes that section as it does by itself, and no other section.
pub proof fn advanced_video_edits_stay_in_their_section(config: Config, edit: AdvancedVideoEdit)
    ensures
        config.edited(ConfigEdit::AdvancedVideo(edit)) is Some <==> config.advanced_video.edited(edit) is Some,
        config.edited(ConfigEdit::AdvancedVideo(edit)) matches Some(c) ==> Some(c.advanced_video)
            == config.advanced_video.edited(edit) && c == (Config { advanced_video: c.advanced_video, ..config }),
{
}

/// An edit of the pointer changes that section as it does by itself, and no other section.
pub proof fn cursor_edits_stay_in_their_section(config: Config, edit: CursorEdit)
    ensures
        config.edited(ConfigEdit::Cursor(edit)) is Some <==> config.cursor.edited(edit) is Some,
        config.edited(ConfigEdit::Cursor(edit)) matches Some(c) ==> Some(c.cursor)
            == config.cursor.edited(edit) && c == (Config { cursor: c.cursor, ..config }),
{
}

/// An edit of frame processing changes that section as it does by itself, and no other section.
pub proof fn processor_edits_stay_in_their_section(config: Config, edit: ProcessorEdit)
    ensures
        config.edited(ConfigEdit::Processor(edit)) is Some <==> config.video_pipeline.processor.edited(edit) is Some,
        config.edited(ConfigEdit::Processor(edit)) matches Some(c) ==> Some(c.video_pipeline.processor)
            == config.video_pipeline.processor.edited(edit) && c == (Config {
            video_pipeline: VideoPipelineConfig { processor: c.video_pipeline.processor, ..config.video_pipeline },
            ..config
        }),
{
}

/// An edit of frame dispatch changes that section as it does by itself, and no other section.
pub proof fn dispatcher_edits_stay_in_their_section(config: Config, edit: DispatcherEdit)
    ensures
        config.edited(ConfigEdit::Dispatcher(edit)) is Some <==> config.video_pipeline.dispatcher.edited(edit) is Some,
        config.edited(ConfigEdit::Dispatcher(edit)) matches Some(c) ==> Some(c.video_pipeline.dispatcher)
            == config.video_pipeline.dispatcher.edited(edit) && c == (Config {
            video_pipeline: VideoPipelineConfig { dispatcher: c.video_pipeline.dispatcher, ..config.video_pipeline },
            ..config
        }),
{
}

/// An edit of conversion changes that section as it does by itself, and no other section.
pub proof fn converter_edits_stay_in_their_section(config: Config, edit: ConverterEdit)
    ensures
        config.edited(ConfigEdit::Converter(edit)) is Some <==> config.video_pipeline.converter.edited(edit) is Some,
        config.edited(ConfigEdit::Converter(edit)) matches Some(c) ==> Some(c.video_pipeline.converter)
            == config.video_pipeline.converter.edited(edit) && c == (Config {
            video_pipeline: VideoPipelineConfig { converter: c.video_pipeline.converter, ..config.video_pipeline },
            ..config
        }),
{
}

/// An edit of the adaptive frame rate changes that section as it does by itself, and no other section.
pub proof fn adaptive_fps_edits_stay_in_their_section(config: Config, edit: AdaptiveFpsEdit)
    ensures
        config.edited(ConfigEdit::AdaptiveFps(edit)) is Some <==> config.performance.adaptive_fps.edited(edit) is Some,
        config.edited(ConfigEdit::AdaptiveFps(edit)) matches Some(c) ==> Some(c.performance.adaptive_fps)
            == config.performance.adaptive_fps.edited(edit) && c == (Config {
            performance: PerformanceConfig { adaptive_fps: c.performance.adaptive_fps, ..config.performance },
            ..config
        }),
{
}

/// An edit of latency changes that section as it does by itself, and no other section.
pub proof fn latency_edits_stay_in_their_section(config: Config, edit: LatencyEdit)
    ensures
        config.edited(ConfigEdit::Latency(edit)) is Some <==> config.performance.latency.edited(edit) is Some,
        config.edited(ConfigEdit::Latency(edit)) matches Some(c) ==> Some(c.performance.latency)
            == config.performance.latency.edited(edit) && c == (Config {
            performance: PerformanceConfig { latency: c.performance.latency, ..config.performance },
            ..config
        }),
{
}

/// An edit of pointer prediction changes that section as it does by itself, and no other section.
pub proof fn predictor_edits_stay_in_their_section(config: Config, edit: PredictorEdit)
    ensures
        config.edited(ConfigEdit::Predictor(edit)) is Some <==> config.cursor.predictor.edited(edit) is Some,
        config.edited(ConfigEdit::Predictor(edit)) matches Some(c) ==> Some(c.cursor.predictor)
            == config.cursor.predictor.edited(edit) && c == (Config {
            cursor: CursorConfig { predictor: c.cursor.predictor, ..config.cursor },
            ..config
        }),
{
}

} // verus!
