//! The server configuration.
//!
//! One struct per section. Fractional settings are kept as the bit pattern of
//! a single precision number, file system paths as texts.

use crate::text_map::TextMap;
use vstd::prelude::*;

verus! {

/// A single precision number, kept by its bit pattern.
#[derive(Clone, Copy, PartialEq, Eq, Structural, Debug)]
pub struct Float32 {
    pub bits: u32,
}

/// Listening and session limits.
#[derive(Clone, Debug)]
pub struct ServerConfig {
    pub listen_addr: String,
    pub max_connections: usize,
    pub session_timeout: u64,
    pub use_portals: bool,
    pub view_only: bool,
}

/// Certificates and authentication.
#[derive(Clone, Debug)]
pub struct SecurityConfig {
    pub cert_path: String,
    pub key_path: String,
    pub enable_nla: bool,
    pub security_mode: String,
    pub auth_method: String,
    pub password_username: String,
    pub password_credentials: TextMap,
    pub require_tls_13: bool,
}

/// Capture settings.
#[derive(Clone, Debug)]
pub struct VideoConfig {
    pub target_fps: u32,
    pub cursor_mode: String,
}

/// Frame processor settings.
#[derive(Clone, Debug)]
pub struct ProcessorConfig {
    pub target_fps: u32,
    pub max_queue_depth: usize,
    pub adaptive_quality: bool,
    pub damage_threshold: Float32,
    pub drop_on_full_queue: bool,
    pub enable_metrics: bool,
}

/// Frame dispatcher settings.
#[derive(Clone, Debug)]
pub struct DispatcherConfig {
    pub channel_size: usize,
    pub priority_dispatch: bool,
    pub max_frame_age_ms: u64,
    pub enable_backpressure: bool,
    pub high_water_mark: Float32,
    pub low_water_mark: Float32,
    pub load_balancing: bool,
}

/// Bitmap converter settings.
#[derive(Clone, Debug)]
pub struct ConverterConfig {
    pub buffer_pool_size: usize,
    pub enable_simd: bool,
    pub damage_threshold: Float32,
    pub enable_statistics: bool,
}

/// The three stages of the video pipeline.
#[derive(Clone, Debug)]
pub struct VideoPipelineConfig {
    pub processor: ProcessorConfig,
    pub dispatcher: DispatcherConfig,
    pub converter: ConverterConfig,
}

/// Input injection settings.
#[derive(Clone, Debug)]
pub struct InputConfig {
    pub input_protocol: String,
    pub keyboard_layout: String,
    pub enable_touch: bool,
}

/// Clipboard settings.
#[derive(Clone, Debug)]
pub struct ClipboardConfig {
    pub enabled: bool,
    pub max_size: usize,
    pub rate_limit_ms: u64,
    pub allowed_types: Vec<String>,
}

/// Audio settings.
#[derive(Clone, Debug)]
pub struct AudioConfig {
    pub enabled: bool,
    pub codec: String,
    pub sample_rate: u32,
    pub channels: u8,
    pub frame_ms: u32,
    pub opus_bitrate: u32,
}

/// Monitor settings.
#[derive(Clone, Debug)]
pub struct MultimonConfig {
    pub enabled: bool,
    pub max_monitors: usize,
}

/// Frame rate adaptation.
#[derive(Clone, Debug)]
pub struct AdaptiveFpsConfig {
    pub enabled: bool,
    pub min_fps: u32,
    pub max_fps: u32,
    pub high_activity_threshold: Float32,
    pub medium_activity_threshold: Float32,
    pub low_activity_threshold: Float32,
}

/// Latency targets.
#[derive(Clone, Debug)]
pub struct LatencyConfig {
    pub mode: String,
    pub interactive_max_delay_ms: u32,
    pub balanced_max_delay_ms: u32,
    pub quality_max_delay_ms: u32,
    pub balanced_damage_threshold: Float32,
    pub quality_damage_threshold: Float32,
}

/// Threads, buffers and pacing.
#[derive(Clone, Debug)]
pub struct PerformanceConfig {
    pub encoder_threads: usize,
    pub network_threads: usize,
    pub buffer_pool_size: usize,
    pub zero_copy: bool,
    pub adaptive_fps: AdaptiveFpsConfig,
    pub latency: LatencyConfig,
}

/// Log settings.
#[derive(Clone, Debug)]
pub struct LoggingConfig {
    pub level: String,
    pub log_dir: Option<String>,
    pub metrics: bool,
}

/// Graphics channel settings.
#[derive(Clone, Debug)]
pub struct EgfxConfig {
    pub enabled: bool,
    pub h264_level: String,
    pub h264_bitrate: u32,
    pub zgfx_compression: String,
    pub max_frames_in_flight: u32,
    pub frame_ack_timeout: u64,
    pub periodic_idr_interval: u32,
    pub codec: String,
    pub qp_min: u8,
    pub qp_max: u8,
    pub qp_default: u8,
    pub avc444_enabled: bool,
    pub avc444_aux_bitrate_ratio: Float32,
    pub color_matrix: String,
    pub color_range: String,
    pub avc444_enable_aux_omission: bool,
    pub avc444_max_aux_interval: u32,
    pub avc444_aux_change_threshold: Float32,
    pub avc444_force_aux_idr_on_return: bool,
}

/// Damage detection settings.
#[derive(Clone, Debug)]
pub struct DamageTrackingConfig {
    pub enabled: bool,
    pub method: String,
    pub tile_size: usize,
    pub diff_threshold: Float32,
    pub pixel_threshold: u8,
    pub merge_distance: u32,
    pub min_region_area: u64,
}

/// Hardware encoder settings.
#[derive(Clone, Debug)]
pub struct HardwareEncodingConfig {
    pub enabled: bool,
    pub vaapi_device: String,
    pub enable_dmabuf_zerocopy: bool,
    pub fallback_to_software: bool,
    pub quality_preset: String,
    pub prefer_nvenc: bool,
}

/// Display settings.
#[derive(Clone, Debug)]
pub struct DisplayConfig {
    pub allow_resize: bool,
    pub allowed_resolutions: Vec<String>,
    pub dpi_aware: bool,
    pub allow_rotation: bool,
}

/// Encoder fine tuning.
#[derive(Clone, Debug)]
pub struct AdvancedVideoConfig {
    pub enable_frame_skip: bool,
    pub scene_change_threshold: Float32,
    pub intra_refresh_interval: u32,
    pub enable_adaptive_quality: bool,
}

/// Cursor prediction settings.
#[derive(Clone, Debug)]
pub struct PredictorConfig {
    pub history_size: usize,
    pub lookahead_ms: Float32,
    pub velocity_smoothing: Float32,
    pub acceleration_smoothing: Float32,
    pub max_prediction_distance: u32,
    pub min_velocity_threshold: Float32,
    pub stop_convergence_rate: Float32,
}

/// Cursor settings.
#[derive(Clone, Debug)]
pub struct CursorConfig {
    pub mode: String,
    pub auto_mode: bool,
    pub predictive_latency_threshold_ms: u32,
    pub cursor_update_fps: u32,
    pub predictor: PredictorConfig,
}

/// What the configuration window remembers between runs.
#[derive(Clone, Debug)]
pub struct GuiStateConfig {
    pub expert_mode: bool,
    pub egfx_expert_mode: bool,
    pub video_pipeline_expanded: bool,
    pub adaptive_fps_expanded: bool,
    pub latency_expanded: bool,
    pub damage_tracking_expanded: bool,
    pub hardware_encoding_expanded: bool,
    pub display_expanded: bool,
    pub advanced_video_expanded: bool,
    pub cursor_expanded: bool,
    pub cursor_predictor_expanded: bool,
    pub log_auto_scroll: bool,
    pub log_filter_level: String,
    pub close_stops_server: bool,
}

/// The whole configuration.
#[derive(Clone, Debug)]
pub struct Config {
    pub server: ServerConfig,
    pub security: SecurityConfig,
    pub video: VideoConfig,
    pub video_pipeline: VideoPipelineConfig,
    pub input: InputConfig,
    pub clipboard: ClipboardConfig,
    pub audio: AudioConfig,
    pub multimon: MultimonConfig,
    pub performance: PerformanceConfig,
    pub logging: LoggingConfig,
    pub egfx: EgfxConfig,
    pub damage_tracking: DamageTrackingConfig,
    pub hardware_encoding: HardwareEncodingConfig,
    pub display: DisplayConfig,
    pub advanced_video: AdvancedVideoConfig,
    pub cursor: CursorConfig,
    pub gui_state: GuiStateConfig,
}

} // verus!
