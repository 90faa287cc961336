//! Presets: bundles of settings that fit together.

use crate::config::{
    AdaptiveFpsConfig,
    DamageTrackingConfig,
    EgfxConfig,
    Float32,
    LatencyConfig,
    PerformanceConfig,
};
use crate::gui::message::{DamageTrackingPreset, EgfxPreset, PerformancePreset};
use vstd::prelude::*;

verus! {

/// The bits of 0.01.
pub const ONE_PERCENT: u32 = 0x3c23d70a;

/// The bits of 0.05.
pub const FIVE_PERCENT: u32 = 0x3d4ccccd;

/// The bits of 0.08.
pub const EIGHT_PERCENT: u32 = 0x3da3d70a;

/// The bits of 0.10.
pub const TEN_PERCENT: u32 = 0x3dcccccd;

/// The bits of 0.20.
pub const TWENTY_PERCENT: u32 = 0x3e4ccccd;

/// The bits of 0.30.
pub const THIRTY_PERCENT: u32 = 0x3e99999a;

/// The bits of 0.5.
pub const ONE_HALF: u32 = 0x3f000000;

/// The bits of 1.0.
pub const ONE: u32 = 0x3f800000;

impl PerformancePreset {
    /// The settings after choosing the preset; `mode` is the latency mode's name.
    pub open spec fn applied(self, config: PerformanceConfig, mode: String) -> PerformanceConfig {
        match self {
            PerformancePreset::Interactive => PerformanceConfig {
                encoder_threads: 0,
                network_threads: 0,
                buffer_pool_size: 32,
                zero_copy: true,
                adaptive_fps: AdaptiveFpsConfig {
                    enabled: true,
                    min_fps: 15,
                    max_fps: 60,
                    high_activity_threshold: Float32 { bits: TWENTY_PERCENT },
                    medium_activity_threshold: Float32 { bits: EIGHT_PERCENT },
                    low_activity_threshold: Float32 { bits: ONE_PERCENT },
                },
                latency: LatencyConfig { mode, interactive_max_delay_ms: 16, ..config.latency },
            },
            PerformancePreset::Balanced => PerformanceConfig {
                encoder_threads: 0,
                network_threads: 0,
                buffer_pool_size: 16,
                zero_copy: true,
                adaptive_fps: AdaptiveFpsConfig {
                    enabled: true,
                    min_fps: 5,
                    max_fps: 30,
                    high_activity_threshold: Float32 { bits: THIRTY_PERCENT },
                    medium_activity_threshold: Float32 { bits: TEN_PERCENT },
                    low_activity_threshold: Float32 { bits: ONE_PERCENT },
                },
                latency: LatencyConfig { mode, balanced_max_delay_ms: 33, ..config.latency },
            },
            PerformancePreset::Quality => PerformanceConfig {
                encoder_threads: 0,
                network_threads: 0,
                buffer_pool_size: 8,
                zero_copy: false,
                adaptive_fps: AdaptiveFpsConfig { enabled: false, ..config.adaptive_fps },
                latency: LatencyConfig { mode, quality_max_delay_ms: 100, ..config.latency },
            },
        }
    }

    /// The latency mode that belongs to the preset.
    pub open spec fn latency_mode(self) -> Seq<char> {
        match self {
            PerformancePreset::Interactive => "interactive"@,
            PerformancePreset::Balanced => "balanced"@,
            PerformancePreset::Quality => "quality"@,
        }
    }
}

/// Applies a performance preset.
pub fn apply_performance_preset(config: &mut PerformanceConfig, preset: PerformancePreset)
    ensures
        *final(config) == preset.applied(*old(config), final(config).latency.mode),
        final(config).latency.mode@ == preset.latency_mode(),
{
    match preset {
        PerformancePreset::Interactive => {
            config.encoder_threads = 0;
            config.network_threads = 0;
            config.buffer_pool_size = 32;
            config.zero_copy = true;
            config.adaptive_fps = AdaptiveFpsConfig {
                enabled: true,
                min_fps: 15,
                max_fps: 60,
                high_activity_threshold: Float32 { bits: TWENTY_PERCENT },
                medium_activity_threshold: Float32 { bits: EIGHT_PERCENT },
                low_activity_threshold: Float32 { bits: ONE_PERCENT },
            };
            config.latency.mode = "interactive".to_owned();
            config.latency.interactive_max_delay_ms = 16;
        },
        PerformancePreset::Balanced => {
            config.encoder_threads = 0;
            config.network_threads = 0;
            config.buffer_pool_size = 16;
            config.zero_copy = true;
            config.adaptive_fps = AdaptiveFpsConfig {
                enabled: true,
                min_fps: 5,
                max_fps: 30,
                high_activity_threshold: Float32 { bits: THIRTY_PERCENT },
                medium_activity_threshold: Float32 { bits: TEN_PERCENT },
                low_activity_threshold: Float32 { bits: ONE_PERCENT },
            };
            config.latency.mode = "balanced".to_owned();
            config.latency.balanced_max_delay_ms = 33;
        },
        PerformancePreset::Quality => {
            config.encoder_threads = 0;
            config.network_threads = 0;
            config.buffer_pool_size = 8;
            config.zero_copy = false;
            config.adaptive_fps.enabled = false;
            config.latency.mode = "quality".to_owned();
            config.latency.quality_max_delay_ms = 100;
        },
    }
}

impl EgfxPreset {
    /// The settings after choosing the preset.
    pub open spec fn applied(self, config: EgfxConfig) -> EgfxConfig {
        match self {
            EgfxPreset::Speed => EgfxConfig {
                h264_bitrate: 3000,
                qp_min: 20,
                qp_default: 28,
                qp_max: 40,
                periodic_idr_interval: 10,
                avc444_aux_bitrate_ratio: Float32 { bits: THIRTY_PERCENT },
                ..config
            },
            EgfxPreset::Balanced => EgfxConfig {
                h264_bitrate: 5000,
                qp_min: 18,
                qp_default: 23,
                qp_max: 36,
                periodic_idr_interval: 5,
                avc444_aux_bitrate_ratio: Float32 { bits: ONE_HALF },
                ..config
            },
            EgfxPreset::Quality => EgfxConfig {
                h264_bitrate: 10000,
                qp_min: 15,
                qp_default: 20,
                qp_max: 30,
                periodic_idr_interval: 3,
                avc444_aux_bitrate_ratio: Float32 { bits: ONE },
                ..config
            },
        }
    }
}

/// Applies a graphics channel preset.
pub fn apply_egfx_preset(config: &mut EgfxConfig, preset: EgfxPreset)
    ensures
        *final(config) == preset.applied(*old(config)),
{
    match preset {
        EgfxPreset::Speed => {
            config.h264_bitrate = 3000;
            config.qp_min = 20;
            config.qp_default = 28;
            config.qp_max = 40;
            config.periodic_idr_interval = 10;
            config.avc444_aux_bitrate_ratio = Float32 { bits: THIRTY_PERCENT };
        },
        EgfxPreset::Balanced => {
            config.h264_bitrate = 5000;
            config.qp_min = 18;
            config.qp_default = 23;
            config.qp_max = 36;
            config.periodic_idr_interval = 5;
            config.avc444_aux_bitrate_ratio = Float32 { bits: ONE_HALF };
        },
        EgfxPreset::Quality => {
            config.h264_bitrate = 10000;
            config.qp_min = 15;
            config.qp_default = 20;
            config.qp_max = 30;
            config.periodic_idr_interval = 3;
            config.avc444_aux_bitrate_ratio = Float32 { bits: ONE };
        },
    }
}

impl DamageTrackingPreset {
    /// The settings after choosing the preset.
    pub open spec fn applied(self, config: DamageTrackingConfig) -> DamageTrackingConfig {
        match self {
            DamageTrackingPreset::TextWork => DamageTrackingConfig {
                tile_size: 16,
                diff_threshold: Float32 { bits: ONE_PERCENT },
                pixel_threshold: 1,
                merge_distance: 16,
                min_region_area: 64,
                ..config
            },
            DamageTrackingPreset::General => DamageTrackingConfig {
                tile_size: 32,
                diff_threshold: Float32 { bits: FIVE_PERCENT },
                pixel_threshold: 4,
                merge_distance: 32,
                min_region_area: 256,
                ..config
            },
            DamageTrackingPreset::Video => DamageTrackingConfig {
                tile_size: 128,
                diff_threshold: Float32 { bits: TEN_PERCENT },
                pixel_threshold: 8,
                merge_distance: 64,
                min_region_area: 1024,
                ..config
            },
        }
    }
}

/// Applies a damage tracking preset.
pub fn apply_damage_tracking_preset(
    config: &mut DamageTrackingConfig,
    preset: DamageTrackingPreset,
)
    ensures
        *final(config) == preset.applied(*old(config)),
{
    match preset {
        DamageTrackingPreset::TextWork => {
            config.tile_size = 16;
            config.diff_threshold = Float32 { bits: ONE_PERCENT };
            config.pixel_threshold = 1;
            config.merge_distance = 16;
            config.min_region_area = 64;
        },
        DamageTrackingPreset::General => {
            config.tile_size = 32;
            config.diff_threshold = Float32 { bits: FIVE_PERCENT };
            config.pixel_threshold = 4;
            config.merge_distance = 32;
            config.min_region_area = 256;
        },
        DamageTrackingPreset::Video => {
            config.tile_size = 128;
            config.diff_threshold = Float32 { bits: TEN_PERCENT };
            config.pixel_threshold = 8;
            config.merge_distance = 64;
            config.min_region_area = 1024;
        },
    }
}

/// Choosing a preset again changes nothing, whatever was configured before.
pub proof fn presets_are_idempotent(
    performance: PerformanceConfig,
    egfx: EgfxConfig,
    damage: DamageTrackingConfig,
    p: PerformancePreset,
    e: EgfxPreset,
    d: DamageTrackingPreset,
    mode: String,
)
    ensures
        p.applied(p.applied(performance, mode), mode) == p.applied(performance, mode),
        e.applied(e.applied(egfx)) == e.applied(egfx),
        d.applied(d.applied(damage)) == d.applied(damage),
{
}

/// Every graphics preset keeps the quantizer bounds in order.
pub proof fn egfx_presets_order_quantizers(egfx: EgfxConfig, e: EgfxPreset)
    ensures
        e.applied(egfx).qp_min <= e.applied(egfx).qp_default <= e.applied(egfx).qp_max,
{
}

/// The interactive preset goes from 15 to 60 frames a second with a frame in at most
/// 16 ms, the balanced one from 5 to 30 with 33 ms. The quality preset keeps the frame
/// rate fixed and waits up to 100 ms.
pub proof fn presets_set_the_pace(config: PerformanceConfig, mode: String)
    ensures
        ({
            let r = PerformancePreset::Interactive.applied(config, mode);
            &&& r.adaptive_fps.enabled
            &&& r.adaptive_fps.min_fps == 15
            &&& r.adaptive_fps.max_fps == 60
            &&& r.latency.interactive_max_delay_ms == 16
            &&& r.latency.balanced_max_delay_ms == config.latency.balanced_max_delay_ms
            &&& r.latency.quality_max_delay_ms == config.latency.quality_max_delay_ms
        }),
        ({
            let r = PerformancePreset::Balanced.applied(config, mode);
            &&& r.adaptive_fps.enabled
            &&& r.adaptive_fps.min_fps == 5
            &&& r.adaptive_fps.max_fps == 30
            &&& r.latency.balanced_max_delay_ms == 33
            &&& r.latency.interactive_max_delay_ms == config.latency.interactive_max_delay_ms
            &&& r.latency.quality_max_delay_ms == config.latency.quality_max_delay_ms
        }),
        ({
            let r = PerformancePreset::Quality.applied(config, mode);
            &&& !r.adaptive_fps.enabled
            &&& r.adaptive_fps.min_fps == config.adaptive_fps.min_fps
            &&& r.adaptive_fps.max_fps == config.adaptive_fps.max_fps
            &&& r.adaptive_fps.high_activity_threshold
                == config.adaptive_fps.high_activity_threshold
            &&& r.adaptive_fps.medium_activity_threshold
                == config.adaptive_fps.medium_activity_threshold
            &&& r.adaptive_fps.low_activity_threshold == config.adaptive_fps.low_activity_threshold
            &&& r.latency.quality_max_delay_ms == 100
            &&& r.latency.interactive_max_delay_ms == config.latency.interactive_max_delay_ms
            &&& r.latency.balanced_max_delay_ms == config.latency.balanced_max_delay_ms
        }),
{
}

/// Every performance preset leaves the thread counts to the server and takes the
/// latency mode of its own name. The faster the preset, the more buffers it keeps; only
/// the quality preset copies frames.
pub proof fn presets_share_out_resources(
    preset: PerformancePreset,
    config: PerformanceConfig,
    mode: String,
)
    ensures
        preset.applied(config, mode).encoder_threads == 0,
        preset.applied(config, mode).network_threads == 0,
        preset.applied(config, mode).latency.mode == mode,
        preset.applied(config, mode).zero_copy <==> !(preset is Quality),
        preset is Interactive ==> preset.latency_mode() == "interactive"@,
        preset is Balanced ==> preset.latency_mode() == "balanced"@,
        preset is Quality ==> preset.latency_mode() == "quality"@,
        PerformancePreset::Quality.applied(config, mode).buffer_pool_size == 8,
        PerformancePreset::Balanced.applied(config, mode).buffer_pool_size == 16,
        PerformancePreset::Interactive.applied(config, mode).buffer_pool_size == 32,
{
}

/// The thresholds of activity fall from high to low, and the interactive preset speeds
/// up sooner than the balanced one. The bits of positive numbers are ordered like the
/// numbers.
pub proof fn interactive_speeds_up_sooner(
    a: PerformanceConfig,
    b: PerformanceConfig,
    mode: String,
)
    ensures
        ({
            let quick = PerformancePreset::Interactive.applied(a, mode).adaptive_fps;
            let even = PerformancePreset::Balanced.applied(b, mode).adaptive_fps;
            &&& quick.high_activity_threshold.bits < even.high_activity_threshold.bits
            &&& quick.medium_activity_threshold.bits < even.medium_activity_threshold.bits
            &&& quick.low_activity_threshold.bits == even.low_activity_threshold.bits
            &&& 0 < quick.low_activity_threshold.bits < quick.medium_activity_threshold.bits
            &&& quick.medium_activity_threshold.bits < quick.high_activity_threshold.bits
            &&& even.medium_activity_threshold.bits < even.high_activity_threshold.bits
            &&& quick.high_activity_threshold.bits == 0x3e4ccccd
            &&& quick.medium_activity_threshold.bits == 0x3da3d70a
            &&& quick.low_activity_threshold.bits == 0x3c23d70a
            &&& even.high_activity_threshold.bits == 0x3e99999a
            &&& even.medium_activity_threshold.bits == 0x3dcccccd
        }),
{
}

/// From speed over balance to quality the bitrate and the share of the second picture
/// rise, the quantizers fall and whole frames come more often.
pub proof fn graphics_presets_trade_speed_for_quality(config: EgfxConfig)
    ensures
        ({
            let speed = EgfxPreset::Speed.applied(config);
            let even = EgfxPreset::Balanced.applied(config);
            let quality = EgfxPreset::Quality.applied(config);
            &&& speed.h264_bitrate == 3000 && even.h264_bitrate == 5000
            &&& quality.h264_bitrate == 10000
            &&& speed.qp_min == 20 && speed.qp_default == 28 && speed.qp_max == 40
            &&& even.qp_min == 18 && even.qp_default == 23 && even.qp_max == 36
            &&& quality.qp_min == 15 && quality.qp_default == 20 && quality.qp_max == 30
            &&& speed.periodic_idr_interval == 10 && even.periodic_idr_interval == 5
            &&& quality.periodic_idr_interval == 3
            &&& speed.avc444_aux_bitrate_ratio.bits == 0x3e99999a
            &&& even.avc444_aux_bitrate_ratio.bits == 0x3f000000
            &&& quality.avc444_aux_bitrate_ratio.bits == 0x3f800000
        }),
{
}

/// A graphics preset leaves the settings that it does not speak of: choosing it over
/// other bitrates, quantizers, intervals and shares gives the same settings.
pub proof fn graphics_presets_leave_the_rest(
    preset: EgfxPreset,
    config: EgfxConfig,
    bitrate: u32,
    qp: u8,
    interval: u32,
    share: Float32,
)
    ensures
        preset.applied(config) == preset.applied(
            EgfxConfig {
                h264_bitrate: bitrate,
                qp_min: qp,
                qp_default: qp,
                qp_max: qp,
                periodic_idr_interval: interval,
                avc444_aux_bitrate_ratio: share,
                ..config
            },
        ),
        ({
            let r = preset.applied(config);
            config == EgfxConfig {
                h264_bitrate: config.h264_bitrate,
                qp_min: config.qp_min,
                qp_default: config.qp_default,
                qp_max: config.qp_max,
                periodic_idr_interval: config.periodic_idr_interval,
                avc444_aux_bitrate_ratio: config.avc444_aux_bitrate_ratio,
                ..r
            }
        }),
{
}

/// Text work looks at small tiles and notices single pixels; video looks at large ones
/// and lets small differences pass.
pub proof fn damage_presets_fit_their_work(config: DamageTrackingConfig)
    ensures
        ({
            let text = DamageTrackingPreset::TextWork.applied(config);
            let general = DamageTrackingPreset::General.applied(config);
            let video = DamageTrackingPreset::Video.applied(config);
            &&& text.tile_size == 16 && general.tile_size == 32 && video.tile_size == 128
            &&& text.pixel_threshold == 1 && general.pixel_threshold == 4
            &&& video.pixel_threshold == 8
            &&& text.merge_distance == 16 && general.merge_distance == 32
            &&& video.merge_distance == 64
            &&& text.min_region_area == 64 && general.min_region_area == 256
            &&& video.min_region_area == 1024
            &&& text.diff_threshold.bits == 0x3c23d70a
            &&& general.diff_threshold.bits == 0x3d4ccccd
            &&& video.diff_threshold.bits == 0x3dcccccd
        }),
{
}

/// A damage tracking preset leaves the settings that it does not speak of.
pub proof fn damage_presets_leave_the_rest(
    preset: DamageTrackingPreset,
    config: DamageTrackingConfig,
)
    ensures
        ({
            let r = preset.applied(config);
            config == DamageTrackingConfig {
                tile_size: config.tile_size,
                diff_threshold: config.diff_threshold,
                pixel_threshold: config.pixel_threshold,
                merge_distance: config.merge_distance,
                min_region_area: config.min_region_area,
                ..r
            }
        }),
{
}

} // verus!
