//! State of the configuration window.
//!
//! The configuration being edited, the text buffers of the input fields, what
//! is known of the server, the log view and the open dialogs.

use crate::clock::{Span, Timestamp};
use crate::config::{Config, GuiStateConfig};
use crate::paths::{join_path, path_joined};
use crate::text::{
    decimal,
    first_at,
    has_char,
    is_ascii_text,
    join,
    joined,
    last_at,
    last_cut_is_last,
    lemma_first_at,
    number,
    number_text_round_trip,
    parsed,
    rsplit_once,
    same_text,
    skip_end,
    skip_start,
    split_at_most,
    split_last,
    splitn,
    strip,
    texts,
    to_uppercase,
    trim,
    trimmed,
    uppercase,
    CharClass,
};
use vstd::prelude::*;
use vstd::std_specs::convert::FromSpecImpl;

verus! {

/// Tab categories for organized navigation.
#[derive(Debug, Clone, Copy, PartialEq, Eq, Structural)]
pub enum TabCategory {
    Core,
    System,
    Media,
}

/// The tabs of the configuration window.
#[derive(Debug, Clone, Copy, PartialEq, Eq, Structural)]
pub enum Tab {
    Server,
    Security,
    Video,
    Audio,
    Input,
    Clipboard,
    Performance,
    Egfx,
    Advanced,
    Status,
}

impl Default for TabCategory {
    fn default() -> (r: TabCategory)
        ensures
            r == TabCategory::Core,
    {
        TabCategory::Core
    }
}

impl Default for Tab {
    fn default() -> (r: Tab)
        ensures
            r == Tab::Server,
    {
        Tab::Server
    }
}

impl TabCategory {
    /// All categories, in the order of the category bar.
    pub fn all() -> (r: &'static [TabCategory])
        ensures
            r@ == seq![TabCategory::Core, TabCategory::System, TabCategory::Media],
    {
        &[TabCategory::Core, TabCategory::System, TabCategory::Media]
    }

    /// The label of the category.
    pub open spec fn label(self) -> Seq<char> {
        match self {
            TabCategory::Core => "Core"@,
            TabCategory::System => "System"@,
            TabCategory::Media => "Media & I/O"@,
        }
    }

    /// The label of the category.
    pub fn display_name(&self) -> (r: &'static str)
        ensures
            r@ == self.label(),
    {
        match self {
            TabCategory::Core => "Core",
            TabCategory::System => "System",
            TabCategory::Media => "Media & I/O",
        }
    }

    /// The icon of the category.
    pub open spec fn symbol(self) -> Seq<char> {
        match self {
            TabCategory::Core => "🖥"@,
            TabCategory::System => "⚙"@,
            TabCategory::Media => "🎬"@,
        }
    }

    /// The icon of the category.
    pub fn icon(&self) -> (r: &'static str)
        ensures
            r@ == self.symbol(),
    {
        match self {
            TabCategory::Core => "🖥",
            TabCategory::System => "⚙",
            TabCategory::Media => "🎬",
        }
    }

    /// The tabs of the category, in the order of the tab bar.
    pub open spec fn tab_list(self) -> Seq<Tab> {
        match self {
            TabCategory::Core => seq![Tab::Server, Tab::Security],
            TabCategory::System => seq![Tab::Performance, Tab::Advanced, Tab::Status],
            TabCategory::Media => seq![
                Tab::Video,
                Tab::Egfx,
                Tab::Audio,
                Tab::Input,
                Tab::Clipboard,
            ],
        }
    }

    /// The tabs of the category, in the order of the tab bar.
    pub fn tabs(&self) -> (r: &'static [Tab])
        ensures
            r@ == self.tab_list(),
    {
        match self {
            TabCategory::Core => &[Tab::Server, Tab::Security],
            TabCategory::System => &[Tab::Performance, Tab::Advanced, Tab::Status],
            TabCategory::Media => &[
                Tab::Video,
                Tab::Egfx,
                Tab::Audio,
                Tab::Input,
                Tab::Clipboard,
            ],
        }
    }
}

impl Tab {
    /// All tabs.
    pub open spec fn listing() -> Seq<Tab> {
        seq![
            Tab::Server,
            Tab::Security,
            Tab::Video,
            Tab::Audio,
            Tab::Input,
            Tab::Clipboard,
            Tab::Performance,
            Tab::Egfx,
            Tab::Advanced,
            Tab::Status,
        ]
    }

    /// All tabs.
    pub fn all() -> (r: &'static [Tab])
        ensures
            r@ == Tab::listing(),
    {
        &[
            Tab::Server,
            Tab::Security,
            Tab::Video,
            Tab::Audio,
            Tab::Input,
            Tab::Clipboard,
            Tab::Performance,
            Tab::Egfx,
            Tab::Advanced,
            Tab::Status,
        ]
    }

    /// The label of the tab.
    pub open spec fn label(self) -> Seq<char> {
        match self {
            Tab::Server => "Server"@,
            Tab::Security => "Security"@,
            Tab::Video => "Video"@,
            Tab::Audio => "Audio"@,
            Tab::Input => "Input"@,
            Tab::Clipboard => "Clipboard"@,
            Tab::Performance => "Performance"@,
            Tab::Egfx => "EGFX"@,
            Tab::Advanced => "Advanced"@,
            Tab::Status => "Status"@,
        }
    }

    /// The label of the tab.
    pub fn display_name(&self) -> (r: &'static str)
        ensures
            r@ == self.label(),
    {
        match self {
            Tab::Server => "Server",
            Tab::Security => "Security",
            Tab::Video => "Video",
            Tab::Audio => "Audio",
            Tab::Input => "Input",
            Tab::Clipboard => "Clipboard",
            Tab::Performance => "Performance",
            Tab::Egfx => "EGFX",
            Tab::Advanced => "Advanced",
            Tab::Status => "Status",
        }
    }

    /// The icon of the tab.
    pub open spec fn symbol(self) -> Seq<char> {
        match self {
            Tab::Server => "🖥"@,
            Tab::Security => "🔒"@,
            Tab::Video => "🎬"@,
            Tab::Audio => "🔊"@,
            Tab::Input => "⌨"@,
            Tab::Clipboard => "📋"@,
            Tab::Performance => "⚡"@,
            Tab::Egfx => "🎨"@,
            Tab::Advanced => "⚙"@,
            Tab::Status => "📊"@,
        }
    }

    /// The icon of the tab.
    pub fn icon(&self) -> (r: &'static str)
        ensures
            r@ == self.symbol(),
    {
        match self {
            Tab::Server => "🖥",
            Tab::Security => "🔒",
            Tab::Video => "🎬",
            Tab::Audio => "🔊",
            Tab::Input => "⌨",
            Tab::Clipboard => "📋",
            Tab::Performance => "⚡",
            Tab::Egfx => "🎨",
            Tab::Advanced => "⚙",
            Tab::Status => "📊",
        }
    }

    /// The category that the tab belongs to.
    pub open spec fn category_of(self) -> TabCategory {
        match self {
            Tab::Server | Tab::Security => TabCategory::Core,
            Tab::Video | Tab::Audio | Tab::Input | Tab::Clipboard | Tab::Egfx => TabCategory::Media,
            Tab::Performance | Tab::Advanced | Tab::Status => TabCategory::System,
        }
    }

    /// The category that the tab belongs to.
    pub fn category(&self) -> (r: TabCategory)
        ensures
            r == self.category_of(),
    {
        match self {
            Tab::Server | Tab::Security => TabCategory::Core,
            Tab::Video | Tab::Audio | Tab::Input | Tab::Clipboard | Tab::Egfx => TabCategory::Media,
            Tab::Performance | Tab::Advanced | Tab::Status => TabCategory::System,
        }
    }
}

/// The tab bars show every tab under its own category and nowhere else.
pub proof fn categories_partition_tabs(category: TabCategory, tab: Tab)
    ensures
        category.tab_list().contains(tab) <==> tab.category_of() == category,
        Tab::listing().contains(tab),
{
    let listing = Tab::listing();
    let index: int = match tab {
        Tab::Server => 0,
        Tab::Security => 1,
        Tab::Video => 2,
        Tab::Audio => 3,
        Tab::Input => 4,
        Tab::Clipboard => 5,
        Tab::Performance => 6,
        Tab::Egfx => 7,
        Tab::Advanced => 8,
        Tab::Status => 9,
    };
    assert(listing[index] == tab);
    let place: int = match tab {
        Tab::Server | Tab::Performance | Tab::Video => 0,
        Tab::Security | Tab::Advanced | Tab::Egfx => 1,
        Tab::Status | Tab::Audio => 2,
        Tab::Input => 3,
        Tab::Clipboard => 4,
    };
    if tab.category_of() == category {
        assert(category.tab_list()[place] == tab);
    }
}

/// Texts that need floating point or the network address grammar, prepared for
/// the input fields.
#[derive(Debug)]
pub struct FormattedSettings {
    /// Address and port of the listen address, if it is a socket address.
    pub listen_socket: Option<(String, String)>,
    /// The auxiliary stream change threshold as a whole percentage.
    pub aux_threshold_pct: String,
    /// The cursor prediction look-ahead with one decimal place.
    pub lookahead: String,
    /// The least cursor velocity with one decimal place.
    pub min_velocity: String,
}

/// Text buffers of the input fields.
#[derive(Debug, Clone)]
pub struct EditStrings {
    pub server_ip: String,
    pub server_port: String,
    pub max_connections: String,
    pub session_timeout: String,
    pub cert_path: String,
    pub key_path: String,
    pub valid_days: String,
    pub password_username: String,
    pub password: String,
    pub vaapi_device: String,
    pub max_size_mb: String,
    pub rate_limit: String,
    pub audio_sample_rate: String,
    pub audio_frame_ms: String,
    pub audio_opus_bitrate: String,
    pub log_dir: String,
    pub buffer_pool_size: String,
    pub network_threads: String,
    pub encoder_threads: String,
    pub quality_delay: String,
    pub balanced_delay: String,
    pub interactive_delay: String,
    pub max_frame_age: String,
    pub channel_size: String,
    pub max_queue_depth: String,
    pub converter_buffer_pool_size: String,
    pub frame_ack_timeout: String,
    pub max_frames: String,
    pub h264_bitrate: String,
    pub qp_min: String,
    pub qp_default: String,
    pub qp_max: String,
    pub periodic_idr: String,
    pub aux_threshold_pct: String,
    pub max_aux_interval: String,
    pub tile_size: String,
    pub pixel_threshold: String,
    pub merge_distance: String,
    pub min_region_area: String,
    pub resolutions_text: String,
    pub intra_refresh: String,
    pub cursor_update_fps: String,
    pub predictive_threshold: String,
    pub history_size: String,
    pub lookahead: String,
    pub max_pred_dist: String,
    pub min_velocity: String,
    pub max_monitors: String,
}

/// The listen address made of a host and a port: an empty port stands for 3389,
/// an empty host for all IPv4 interfaces, and an IPv6 host gets its brackets.
pub open spec fn composed_addr(host: Seq<char>, port: Seq<char>) -> Seq<char> {
    let h = trimmed(host);
    let p = trimmed(port);
    let shown_host = if h.len() == 0 {
        "0.0.0.0"@
    } else if h[0] == '[' && h.last() == ']' {
        h
    } else if h.contains(':') {
        "["@ + h + "]"@
    } else {
        h
    };
    shown_host + ":"@ + (if p.len() == 0 {
        "3389"@
    } else {
        p
    })
}

/// Host and port of an address that is not a socket address: cut at the last
/// colon, the host without its brackets. Without a colon the port is 3389.
pub open spec fn split_addr(addr: Seq<char>) -> (Seq<char>, Seq<char>) {
    match split_last(addr, ':') {
        Some(p) => (skip_end(skip_start(p.0, CharClass::One('[')), CharClass::One(']')), p.1),
        None => (addr, "3389"@),
    }
}

impl EditStrings {
    /// The texts that the input fields show for a configuration.
    pub open spec fn shows(self, config: Config, formatted: FormattedSettings) -> bool {
        &&& match formatted.listen_socket {
            Some(p) => self.server_ip@ == p.0@ && self.server_port@ == p.1@,
            None => (self.server_ip@, self.server_port@) == split_addr(config.server.listen_addr@),
        }
        &&& self.password_username@ == shown_username(config)
        &&& self.log_dir@ == (match config.logging.log_dir {
            Some(dir) => dir@,
            None => Seq::empty(),
        })
        &&& self.resolutions_text@ == joined(texts(config.display.allowed_resolutions@), "\n"@)
        &&& self.max_connections@ == decimal((config.server.max_connections) as nat)
        &&& self.session_timeout@ == decimal((config.server.session_timeout) as nat)
        &&& self.cert_path@ == config.security.cert_path@
        &&& self.key_path@ == config.security.key_path@
        &&& self.valid_days@ == "365"@
        &&& self.password@ == ""@
        &&& self.vaapi_device@ == config.hardware_encoding.vaapi_device@
        &&& self.max_size_mb@ == decimal((config.clipboard.max_size / 1048576) as nat)
        &&& self.rate_limit@ == decimal((config.clipboard.rate_limit_ms) as nat)
        &&& self.audio_sample_rate@ == decimal((config.audio.sample_rate) as nat)
        &&& self.audio_frame_ms@ == decimal((config.audio.frame_ms) as nat)
        &&& self.audio_opus_bitrate@ == decimal((config.audio.opus_bitrate / 1000) as nat)
        &&& self.buffer_pool_size@ == decimal((config.performance.buffer_pool_size) as nat)
        &&& self.network_threads@ == decimal((config.performance.network_threads) as nat)
        &&& self.encoder_threads@ == decimal((config.performance.encoder_threads) as nat)
        &&& self.quality_delay@ == decimal((config.performance.latency.quality_max_delay_ms) as nat)
        &&& self.balanced_delay@ == decimal((config.performance.latency.balanced_max_delay_ms) as nat)
        &&& self.interactive_delay@ == decimal((config.performance.latency.interactive_max_delay_ms) as nat)
        &&& self.max_frame_age@ == decimal((config.video_pipeline.dispatcher.max_frame_age_ms) as nat)
        &&& self.channel_size@ == decimal((config.video_pipeline.dispatcher.channel_size) as nat)
        &&& self.max_queue_depth@ == decimal((config.video_pipeline.processor.max_queue_depth) as nat)
        &&& self.converter_buffer_pool_size@ == decimal((config.video_pipeline.converter.buffer_pool_size) as nat)
        &&& self.frame_ack_timeout@ == decimal((config.egfx.frame_ack_timeout) as nat)
        &&& self.max_frames@ == decimal((config.egfx.max_frames_in_flight) as nat)
        &&& self.h264_bitrate@ == decimal((config.egfx.h264_bitrate) as nat)
        &&& self.qp_min@ == decimal((config.egfx.qp_min) as nat)
        &&& self.qp_default@ == decimal((config.egfx.qp_default) as nat)
        &&& self.qp_max@ == decimal((config.egfx.qp_max) as nat)
        &&& self.periodic_idr@ == decimal((config.egfx.periodic_idr_interval) as nat)
        &&& self.aux_threshold_pct@ == formatted.aux_threshold_pct@
        &&& self.max_aux_interval@ == decimal((config.egfx.avc444_max_aux_interval) as nat)
        &&& self.tile_size@ == decimal((config.damage_tracking.tile_size) as nat)
        &&& self.pixel_threshold@ == decimal((config.damage_tracking.pixel_threshold) as nat)
        &&& self.merge_distance@ == decimal((config.damage_tracking.merge_distance) as nat)
        &&& self.min_region_area@ == decimal((config.damage_tracking.min_region_area) as nat)
        &&& self.intra_refresh@ == decimal((config.advanced_video.intra_refresh_interval) as nat)
        &&& self.cursor_update_fps@ == decimal((config.cursor.cursor_update_fps) as nat)
        &&& self.predictive_threshold@ == decimal((config.cursor.predictive_latency_threshold_ms) as nat)
        &&& self.history_size@ == decimal((config.cursor.predictor.history_size) as nat)
        &&& self.lookahead@ == formatted.lookahead@
        &&& self.max_pred_dist@ == decimal((config.cursor.predictor.max_prediction_distance) as nat)
        &&& self.min_velocity@ == formatted.min_velocity@
        &&& self.max_monitors@ == decimal((config.multimon.max_monitors) as nat)
    }

    /// Fills the input fields from a configuration. The password field starts empty:
    /// a stored hash is never shown.
    pub fn from_config(config: &Config, formatted: &FormattedSettings) -> (r: Self)
        ensures
            r.shows(*config, *formatted),
    {
        let (ip, port) = Self::parse_listen_addr(
            config.server.listen_addr.as_str(),
            &formatted.listen_socket,
        );
        let password_username = if config.security.password_credentials.entries.len() > 0 {
            config.security.password_credentials.entries[0].0.clone()
        } else {
            config.security.password_username.clone()
        };
        let log_dir = match &config.logging.log_dir {
            Some(dir) => dir.clone(),
            None => String::new(),
        };
        proof {
            reveal_strlit("");
        }
        EditStrings {
            server_ip: ip,
            server_port: port,
            password_username,
            log_dir,
            resolutions_text: join(&config.display.allowed_resolutions, "\n"),
            max_connections: number((config.server.max_connections) as u64),
            session_timeout: number((config.server.session_timeout) as u64),
            cert_path: config.security.cert_path.clone(),
            key_path: config.security.key_path.clone(),
            valid_days: "365".to_owned(),
            password: "".to_owned(),
            vaapi_device: config.hardware_encoding.vaapi_device.clone(),
            max_size_mb: number((config.clipboard.max_size / 1048576) as u64),
            rate_limit: number((config.clipboard.rate_limit_ms) as u64),
            audio_sample_rate: number((config.audio.sample_rate) as u64),
            audio_frame_ms: number((config.audio.frame_ms) as u64),
            audio_opus_bitrate: number((config.audio.opus_bitrate / 1000) as u64),
            buffer_pool_size: number((config.performance.buffer_pool_size) as u64),
            network_threads: number((config.performance.network_threads) as u64),
            encoder_threads: number((config.performance.encoder_threads) as u64),
            quality_delay: number((config.performance.latency.quality_max_delay_ms) as u64),
            balanced_delay: number((config.performance.latency.balanced_max_delay_ms) as u64),
            interactive_delay: number((config.performance.latency.interactive_max_delay_ms) as u64),
            max_frame_age: number((config.video_pipeline.dispatcher.max_frame_age_ms) as u64),
            channel_size: number((config.video_pipeline.dispatcher.channel_size) as u64),
            max_queue_depth: number((config.video_pipeline.processor.max_queue_depth) as u64),
            converter_buffer_pool_size: number((config.video_pipeline.converter.buffer_pool_size) as u64),
            frame_ack_timeout: number((config.egfx.frame_ack_timeout) as u64),
            max_frames: number((config.egfx.max_frames_in_flight) as u64),
            h264_bitrate: number((config.egfx.h264_bitrate) as u64),
            qp_min: number((config.egfx.qp_min) as u64),
            qp_default: number((config.egfx.qp_default) as u64),
            qp_max: number((config.egfx.qp_max) as u64),
            periodic_idr: number((config.egfx.periodic_idr_interval) as u64),
            aux_threshold_pct: formatted.aux_threshold_pct.clone(),
            max_aux_interval: number((config.egfx.avc444_max_aux_interval) as u64),
            tile_size: number((config.damage_tracking.tile_size) as u64),
            pixel_threshold: number((config.damage_tracking.pixel_threshold) as u64),
            merge_distance: number((config.damage_tracking.merge_distance) as u64),
            min_region_area: number((config.damage_tracking.min_region_area) as u64),
            intra_refresh: number((config.advanced_video.intra_refresh_interval) as u64),
            cursor_update_fps: number((config.cursor.cursor_update_fps) as u64),
            predictive_threshold: number((config.cursor.predictive_latency_threshold_ms) as u64),
            history_size: number((config.cursor.predictor.history_size) as u64),
            lookahead: formatted.lookahead.clone(),
            max_pred_dist: number((config.cursor.predictor.max_prediction_distance) as u64),
            min_velocity: formatted.min_velocity.clone(),
            max_monitors: number((config.multimon.max_monitors) as u64),
        }
    }

    /// Puts host and port together to a listen address.
    pub fn compose_listen_addr(host: &str, port: &str) -> (r: String)
        ensures
            r@ == composed_addr(host@, port@),
    {
        let host = trim(host);
        let port = trim(port);
        let port = if port.as_str().is_empty() {
            "3389".to_owned()
        } else {
            port
        };
        let mut addr = String::new();
        if host.as_str().is_empty() {
            addr.append("0.0.0.0");
            assert(addr@ =~= "0.0.0.0"@);
        } else {
            let n: usize = host.as_str().unicode_len();
            if host.as_str().get_char(0) == '[' && host.as_str().get_char(n - 1) == ']' {
                addr.append(host.as_str());
                assert(addr@ =~= host@);
            } else if has_char(host.as_str(), ':') {
                addr.append("[");
                addr.append(host.as_str());
                addr.append("]");
                assert(addr@ =~= "["@ + host@ + "]"@);
            } else {
                addr.append(host.as_str());
                assert(addr@ =~= host@);
            }
        }
        addr.append(":");
        addr.append(port.as_str());
        addr
    }

    /// Host and port of a listen address; `socket` is what it reads as if it is a
    /// socket address.
    pub fn parse_listen_addr(addr: &str, socket: &Option<(String, String)>) -> (r: (String, String))
        ensures
            (r.0@, r.1@) == (match *socket {
                Some(p) => (p.0@, p.1@),
                None => split_addr(addr@),
            }),
    {
        match socket {
            Some(p) => (p.0.clone(), p.1.clone()),
            None => match rsplit_once(addr, ':') {
                Some(p) => (
                    strip(p.0.as_str(), CharClass::One('['), CharClass::One(']')),
                    p.1,
                ),
                None => (addr.to_owned(), "3389".to_owned()),
            },
        }
    }
}

/// The user name field: the first name with a password, else the configured one.
pub open spec fn shown_username(config: Config) -> Seq<char> {
    if config.security.password_credentials.entries@.len() > 0 {
        config.security.password_credentials.entries@[0].0@
    } else {
        config.security.password_username@
    }
}

proof fn lemma_last_at_tail(head: Seq<char>, c: char, tail: Seq<char>)
    requires
        !tail.contains(c),
    ensures
        last_at(head.push(c) + tail, c) == head.len(),
    decreases tail.len(),
{
    let s = head.push(c) + tail;
    if tail.len() == 0 {
        assert(s =~= head.push(c));
    } else {
        assert(s.last() == tail.last());
        assert(tail.contains(tail.last()));
        assert(s.drop_last() =~= head.push(c) + tail.drop_last());
        assert(!tail.drop_last().contains(c)) by {
            if tail.drop_last().contains(c) {
                let i = choose|i: int| 0 <= i < tail.drop_last().len() && tail.drop_last()[i] == c;
                assert(tail[i] == c);
            }
        }
        lemma_last_at_tail(head, c, tail.drop_last());
    }
}

/// Host and port come back out of the listen address they were put together to,
/// for a port without a colon and a host without brackets of its own.
pub proof fn listen_addr_round_trip(host: Seq<char>, port: Seq<char>)
    requires
        trimmed(host).len() > 0,
        trimmed(host)[0] != '[',
        trimmed(host).last() != ']',
        trimmed(port).len() > 0,
        !trimmed(port).contains(':'),
    ensures
        split_addr(composed_addr(host, port)) == (trimmed(host), trimmed(port)),
{
    reveal_strlit("[");
    reveal_strlit("]");
    reveal_strlit(":");
    let h = trimmed(host);
    let p = trimmed(port);
    let shown = if h.contains(':') {
        "["@ + h + "]"@
    } else {
        h
    };
    assert(composed_addr(host, port) =~= shown.push(':') + p);
    lemma_last_at_tail(shown, ':', p);
    let addr = composed_addr(host, port);
    assert(addr.take(shown.len() as int) =~= shown);
    assert(addr.skip(shown.len() as int + 1) =~= p);
    let open = CharClass::One('[');
    let close = CharClass::One(']');
    assert(skip_start(h, open) == h);
    assert(skip_end(h, close) == h);
    if h.contains(':') {
        let closed = h + "]"@;
        assert(shown[0] == '[');
        assert(shown.drop_first() =~= closed);
        assert(closed[0] == h[0]);
        assert(skip_start(closed, open) == closed);
        assert(closed.last() == ']');
        assert(closed.drop_last() =~= h);
        assert(skip_end(closed, close) == h);
    }
    assert(split_last(addr, ':') == Some((shown, p)));
}

/// What is unfolded or switched on in the window.
#[derive(Debug, Clone, Copy, PartialEq, Eq, Structural)]
pub struct Sections {
    pub expert_mode: bool,
    pub video_pipeline_expanded: bool,
    pub adaptive_fps_expanded: bool,
    pub latency_expanded: bool,
    pub damage_tracking_expanded: bool,
    pub hardware_encoding_expanded: bool,
    pub display_expanded: bool,
    pub advanced_video_expanded: bool,
    pub cursor_expanded: bool,
    pub cursor_predictor_expanded: bool,
    pub egfx_expert_mode: bool,
    pub multimon_expanded: bool,
    pub logging_expanded: bool,
    pub log_auto_scroll: bool,
}

/// What the configuration window shows and edits.
#[derive(Debug, Clone)]
pub struct AppState {
    pub config: Config,
    pub edit_strings: EditStrings,
    pub config_path: String,
    pub is_dirty: bool,
    pub last_saved: Option<Timestamp>,
    pub validation: ValidationState,
    pub server_status: ServerStatus,
    pub detected_gpus: Vec<GpuInfo>,
    pub detected_vaapi_devices: Vec<String>,
    pub detected_capabilities: Option<DetectedCapabilities>,
    pub active_preset: Option<String>,
    pub sections: Sections,
    pub cert_gen_dialog: Option<CertGenState>,
    pub log_buffer: Vec<LogLine>,
    pub log_filter_level: LogLevel,
    pub max_log_lines: usize,
    pub messages: Vec<UserMessage>,
    pub confirm_discard_dialog: bool,
    pub pending_action: Option<PendingAction>,
    pub first_run_cert_dialog: bool,
    pub first_run_cert_generating: bool,
    /// Closing the window stops the server; otherwise the server keeps running.
    pub close_stops_server: bool,
}

impl AppState {
    /// What the window remembers of itself, with `level` for the log filter.
    pub open spec fn remembered_as(self, level: String) -> GuiStateConfig {
        GuiStateConfig {
            expert_mode: self.sections.expert_mode,
            egfx_expert_mode: self.sections.egfx_expert_mode,
            video_pipeline_expanded: self.sections.video_pipeline_expanded,
            adaptive_fps_expanded: self.sections.adaptive_fps_expanded,
            latency_expanded: self.sections.latency_expanded,
            damage_tracking_expanded: self.sections.damage_tracking_expanded,
            hardware_encoding_expanded: self.sections.hardware_encoding_expanded,
            display_expanded: self.sections.display_expanded,
            advanced_video_expanded: self.sections.advanced_video_expanded,
            cursor_expanded: self.sections.cursor_expanded,
            cursor_predictor_expanded: self.sections.cursor_predictor_expanded,
            log_auto_scroll: self.sections.log_auto_scroll,
            close_stops_server: self.close_stops_server,
            log_filter_level: level,
        }
    }

    /// The state of a window that was just opened on a configuration, but for its input
    /// fields: what the window remembered of itself is back, and nothing has happened yet.
    pub open spec fn opened_on(self, config: Config) -> bool {
        &&& self.config == config
        &&& !self.is_dirty
        &&& self.last_saved is None
        &&& self.validation.is_default()
        &&& self.server_status == ServerStatus::Unknown
        &&& self.detected_gpus@.len() == 0
        &&& self.detected_vaapi_devices@.len() == 0
        &&& self.detected_capabilities is None
        &&& self.active_preset is None
        &&& !self.sections.multimon_expanded
        &&& !self.sections.logging_expanded
        &&& self.cert_gen_dialog is None
        &&& self.log_buffer@.len() == 0
        &&& self.log_filter_level == log_level_named(config.gui_state.log_filter_level@)
        &&& self.max_log_lines == 1000
        &&& self.messages@.len() == 0
        &&& !self.confirm_discard_dialog
        &&& self.pending_action is None
        &&& !self.first_run_cert_dialog
        &&& !self.first_run_cert_generating
        &&& self.close_stops_server == config.gui_state.close_stops_server
        &&& self.sections.expert_mode == config.gui_state.expert_mode
        &&& self.sections.egfx_expert_mode == config.gui_state.egfx_expert_mode
        &&& self.sections.video_pipeline_expanded == config.gui_state.video_pipeline_expanded
        &&& self.sections.adaptive_fps_expanded == config.gui_state.adaptive_fps_expanded
        &&& self.sections.latency_expanded == config.gui_state.latency_expanded
        &&& self.sections.damage_tracking_expanded == config.gui_state.damage_tracking_expanded
        &&& self.sections.hardware_encoding_expanded == config.gui_state.hardware_encoding_expanded
        &&& self.sections.display_expanded == config.gui_state.display_expanded
        &&& self.sections.advanced_video_expanded == config.gui_state.advanced_video_expanded
        &&& self.sections.cursor_expanded == config.gui_state.cursor_expanded
        &&& self.sections.cursor_predictor_expanded == config.gui_state.cursor_predictor_expanded
        &&& self.sections.log_auto_scroll == config.gui_state.log_auto_scroll
    }

    /// The state of a window that was just opened on a configuration.
    pub fn load_or_default(
        config: Config,
        config_path: String,
        formatted: &FormattedSettings,
    ) -> (state: Self)
        ensures
            state.opened_on(config),
            state.config_path == config_path,
            state.edit_strings.shows(config, *formatted),
    {
        let edit_strings = EditStrings::from_config(&config, formatted);
        let close_stops_server = config.gui_state.close_stops_server;
        let sections = Sections {
            expert_mode: config.gui_state.expert_mode,
            egfx_expert_mode: config.gui_state.egfx_expert_mode,
            video_pipeline_expanded: config.gui_state.video_pipeline_expanded,
            adaptive_fps_expanded: config.gui_state.adaptive_fps_expanded,
            latency_expanded: config.gui_state.latency_expanded,
            damage_tracking_expanded: config.gui_state.damage_tracking_expanded,
            hardware_encoding_expanded: config.gui_state.hardware_encoding_expanded,
            display_expanded: config.gui_state.display_expanded,
            advanced_video_expanded: config.gui_state.advanced_video_expanded,
            cursor_expanded: config.gui_state.cursor_expanded,
            cursor_predictor_expanded: config.gui_state.cursor_predictor_expanded,
            log_auto_scroll: config.gui_state.log_auto_scroll,
            multimon_expanded: false,
            logging_expanded: false,
        };
        let log_filter_level = LogLevel::named(config.gui_state.log_filter_level.as_str());
        AppState {
            config,
            edit_strings,
            config_path,
            is_dirty: false,
            last_saved: None,
            validation: ValidationState::default(),
            server_status: ServerStatus::Unknown,
            detected_gpus: Vec::new(),
            detected_vaapi_devices: Vec::new(),
            detected_capabilities: None,
            active_preset: None,
            sections,
            cert_gen_dialog: None,
            log_buffer: Vec::new(),
            log_filter_level,
            max_log_lines: 1000,
            messages: Vec::new(),
            confirm_discard_dialog: false,
            pending_action: None,
            first_run_cert_dialog: false,
            first_run_cert_generating: false,
            close_stops_server,
        }
    }

    /// Marks the configuration as modified. The preset no longer describes it.
    pub fn mark_dirty(&mut self)
        ensures
            *final(self) == (AppState { is_dirty: true, active_preset: None, ..*old(self) }),
    {
        self.is_dirty = true;
        self.active_preset = None;
    }

    /// Marks the configuration as saved at `now`.
    pub fn mark_clean(&mut self, now: Timestamp)
        ensures
            *final(self) == (AppState { is_dirty: false, last_saved: Some(now), ..*old(self) }),
    {
        self.is_dirty = false;
        self.last_saved = Some(now);
    }

    /// Copies what the window remembers of itself into the configuration, so that
    /// saving the configuration keeps it.
    pub fn sync_gui_state_to_config(&mut self)
        ensures
            *final(self) == (AppState {
                config: Config {
                    gui_state: old(self).remembered_as(
                        final(self).config.gui_state.log_filter_level,
                    ),
                    ..old(self).config
                },
                ..*old(self)
            }),
            final(self).config.gui_state.log_filter_level@
                == old(self).log_filter_level.config_name(),
    {
        let log_filter_level = (match self.log_filter_level {
            LogLevel::Trace => "trace",
            LogLevel::Debug => "debug",
            LogLevel::Info => "info",
            LogLevel::Warn => "warn",
            LogLevel::Error => "error",
        }).to_owned();
        self.config.gui_state = GuiStateConfig {
            expert_mode: self.sections.expert_mode,
            egfx_expert_mode: self.sections.egfx_expert_mode,
            video_pipeline_expanded: self.sections.video_pipeline_expanded,
            adaptive_fps_expanded: self.sections.adaptive_fps_expanded,
            latency_expanded: self.sections.latency_expanded,
            damage_tracking_expanded: self.sections.damage_tracking_expanded,
            hardware_encoding_expanded: self.sections.hardware_encoding_expanded,
            display_expanded: self.sections.display_expanded,
            advanced_video_expanded: self.sections.advanced_video_expanded,
            cursor_expanded: self.sections.cursor_expanded,
            cursor_predictor_expanded: self.sections.cursor_predictor_expanded,
            log_auto_scroll: self.sections.log_auto_scroll,
            close_stops_server: self.close_stops_server,
            log_filter_level,
        };
    }

    /// The configuration file: in a sandbox that of its private configuration
    /// directory; else the user's if it exists, else the system's if that exists,
    /// else where the user's would be.
    pub fn default_config_path(
        is_flatpak: bool,
        config_dir: &Option<String>,
        user_config_exists: bool,
        system_config_exists: bool,
    ) -> (path: String)
        ensures
            path@ == config_location(
                is_flatpak,
                (match *config_dir {
                    Some(d) => Some(d@),
                    None => None,
                }),
                user_config_exists,
                system_config_exists,
            ),
    {
        match config_dir {
            Some(dir) => {
                if is_flatpak {
                    join_path(dir.as_str(), "config.toml")
                } else if !user_config_exists && system_config_exists {
                    "/etc/lamco-rdp-server/config.toml".to_owned()
                } else {
                    join_path(join_path(dir.as_str(), "lamco-rdp-server").as_str(), "config.toml")
                }
            },
            None => {
                if is_flatpak {
                    join_path("/app/config", "config.toml")
                } else if system_config_exists {
                    "/etc/lamco-rdp-server/config.toml".to_owned()
                } else {
                    join_path(join_path("/etc", "lamco-rdp-server").as_str(), "config.toml")
                }
            },
        }
    }

    /// Adds a notification.
    pub fn add_message(&mut self, level: MessageLevel, text: String, now: Timestamp)
        ensures
            final(self).messages@ == old(self).messages@.push(
                UserMessage { level, text, timestamp: now },
            ),
            *final(self) == (AppState { messages: final(self).messages, ..*old(self) }),
    {
        self.messages.push(UserMessage { level, text, timestamp: now });
    }

    /// Adds a line to the log view. A full view drops its oldest line.
    pub fn add_log_line(&mut self, line: LogLine)
        ensures
            final(self).log_buffer@ == logged(
                old(self).log_buffer@,
                line,
                old(self).max_log_lines as nat,
            ),
            *final(self) == (AppState { log_buffer: final(self).log_buffer, ..*old(self) }),
    {
        push_log_line(&mut self.log_buffer, line, self.max_log_lines);
    }

    /// The lines of the log view at or above the filter level.
    pub open spec fn visible_lines(self) -> Seq<LogLine> {
        self.log_buffer@.filter(|l: LogLine| l.level.rank() >= self.log_filter_level.rank())
    }

    /// The lines of the log view at or above the filter level.
    pub fn filtered_log_lines(&self) -> (r: Vec<&LogLine>)
        ensures
            r@.map_values(|l: &LogLine| *l) == self.visible_lines(),
    {
        let mut r: Vec<&LogLine> = Vec::new();
        let mut i: usize = 0;
        let ghost keep = |l: LogLine| l.level.rank() >= self.log_filter_level.rank();
        assert(self.log_buffer@.take(0).filter(keep) =~= Seq::<LogLine>::empty()) by {
            reveal(Seq::filter);
        }
        assert(r@.map_values(|l: &LogLine| *l) =~= Seq::<LogLine>::empty());
        while i < self.log_buffer.len()
            invariant
                i <= self.log_buffer@.len(),
                keep == (|l: LogLine| l.level.rank() >= self.log_filter_level.rank()),
                r@.map_values(|l: &LogLine| *l) == self.log_buffer@.take(i as int).filter(keep),
            decreases self.log_buffer@.len() - i,
        {
            let ghost before = r@;
            let line = &self.log_buffer[i];
            if line.level.number() >= self.log_filter_level.number() {
                r.push(line);
            }
            proof {
                let upto = self.log_buffer@.take(i + 1);
                assert(upto.drop_last() =~= self.log_buffer@.take(i as int));
                assert(upto.filter(keep) == if keep(upto.last()) {
                    upto.drop_last().filter(keep).push(upto.last())
                } else {
                    upto.drop_last().filter(keep)
                }) by {
                    reveal(Seq::filter);
                }
                assert(r@.map_values(|l: &LogLine| *l) =~= upto.filter(keep));
            }
            i += 1;
        }
        assert(self.log_buffer@.take(i as int) =~= self.log_buffer@);
        r
    }
}

/// Where the configuration file is.
pub open spec fn config_location(
    is_flatpak: bool,
    config_dir: Option<Seq<char>>,
    user_config_exists: bool,
    system_config_exists: bool,
) -> Seq<char> {
    if is_flatpak {
        path_joined(
            match config_dir {
                Some(d) => d,
                None => "/app/config"@,
            },
            "config.toml"@,
        )
    } else if system_config_exists && (config_dir is None || !user_config_exists) {
        "/etc/lamco-rdp-server/config.toml"@
    } else {
        path_joined(
            path_joined(
                match config_dir {
                    Some(d) => d,
                    None => "/etc"@,
                },
                "lamco-rdp-server"@,
            ),
            "config.toml"@,
        )
    }
}

/// A log view of at most `max` lines after one more line came in.
pub open spec fn logged(lines: Seq<LogLine>, line: LogLine, max: nat) -> Seq<LogLine> {
    if lines.len() + 1 > max {
        lines.push(line).drop_first()
    } else {
        lines.push(line)
    }
}

fn push_log_line(lines: &mut Vec<LogLine>, line: LogLine, max: usize)
    ensures
        final(lines)@ == logged(old(lines)@, line, max as nat),
{
    lines.push(line);
    if lines.len() > max {
        lines.remove(0);
        assert(lines@ =~= old(lines)@.push(line).drop_first());
    }
}

/// A log view never outgrows its limit, and the newest line is in it unless the
/// limit is zero.
pub proof fn log_view_is_bounded(lines: Seq<LogLine>, line: LogLine, max: nat)
    requires
        lines.len() <= max,
    ensures
        logged(lines, line, max).len() <= max,
        max > 0 ==> logged(lines, line, max).last() == line,
{
}

/// Outcome of the last validation of the configuration.
#[derive(Debug, Clone)]
pub struct ValidationState {
    pub is_valid: bool,
    pub errors: Vec<ValidationError>,
    pub warnings: Vec<ValidationWarning>,
}

/// A setting that makes the configuration unusable.
#[derive(Debug, Clone)]
pub struct ValidationError {
    pub field: String,
    pub message: String,
}

/// A setting that is doubtful.
#[derive(Debug, Clone)]
pub struct ValidationWarning {
    pub field: String,
    pub message: String,
}

/// What a validation found.
#[derive(Debug, Clone)]
pub struct ValidationResult {
    pub is_valid: bool,
    pub errors: Vec<ValidationError>,
    pub warnings: Vec<ValidationWarning>,
}

impl ValidationState {
    /// Nothing validated yet.
    pub open spec fn is_default(self) -> bool {
        !self.is_valid && self.errors@.len() == 0 && self.warnings@.len() == 0
    }
}

impl Default for ValidationState {
    fn default() -> (r: ValidationState)
        ensures
            r.is_default(),
    {
        ValidationState { is_valid: false, errors: Vec::new(), warnings: Vec::new() }
    }
}

impl From<ValidationResult> for ValidationState {
    fn from(result: ValidationResult) -> (r: Self) {
        ValidationState {
            is_valid: result.is_valid,
            errors: result.errors,
            warnings: result.warnings,
        }
    }
}

impl FromSpecImpl<ValidationResult> for ValidationState {
    open spec fn obeys_from_spec() -> bool {
        true
    }

    open spec fn from_spec(result: ValidationResult) -> Self {
        ValidationState {
            is_valid: result.is_valid,
            errors: result.errors,
            warnings: result.warnings,
        }
    }
}

/// What is known of the server.
#[derive(Debug, Clone, PartialEq)]
pub enum ServerStatus {
    Unknown,
    Stopped,
    Starting,
    Running { connections: usize, uptime: Span, address: String },
    Error(String),
}

impl Default for ServerStatus {
    fn default() -> (r: ServerStatus)
        ensures
            r == ServerStatus::Unknown,
    {
        ServerStatus::Unknown
    }
}

impl ServerStatus {
    /// Whether the server is running.
    pub fn is_running(&self) -> (r: bool)
        ensures
            r == (*self is Running),
    {
        matches!(self, ServerStatus::Running { .. })
    }

    /// The status as shown to the user.
    pub open spec fn label(self) -> Seq<char> {
        match self {
            ServerStatus::Unknown => "Unknown"@,
            ServerStatus::Stopped => "Stopped"@,
            ServerStatus::Starting => "Starting..."@,
            ServerStatus::Running { .. } => "Running"@,
            ServerStatus::Error(_) => "Error"@,
        }
    }

    /// The status as shown to the user.
    pub fn display_text(&self) -> (r: &str)
        ensures
            r@ == self.label(),
    {
        match self {
            ServerStatus::Unknown => "Unknown",
            ServerStatus::Stopped => "Stopped",
            ServerStatus::Starting => "Starting...",
            ServerStatus::Running { .. } => "Running",
            ServerStatus::Error(_) => "Error",
        }
    }
}

/// A graphics card.
#[derive(Debug, Clone)]
pub struct GpuInfo {
    pub vendor: String,
    pub model: String,
    pub driver: String,
    pub vaapi_device: Option<String>,
    pub nvenc_available: bool,
    pub supports_h264: bool,
}

/// What the system offers, as reported by the server binary.
#[derive(Debug, Clone)]
pub struct DetectedCapabilities {
    pub compositor_name: String,
    pub compositor_version: Option<String>,
    pub distribution: String,
    pub kernel_version: String,
    pub portal_version: u32,
    pub portal_backend: String,
    pub screencast_version: Option<u32>,
    pub remote_desktop_version: Option<u32>,
    pub secret_portal_version: Option<u32>,
    pub deployment_context: DeploymentContext,
    pub xdg_runtime_dir: String,
    pub quirks: Vec<PlatformQuirk>,
    pub persistence_strategy: String,
    pub persistence_notes: Vec<String>,
    pub services: Vec<ServiceInfo>,
    pub guaranteed_count: usize,
    pub best_effort_count: usize,
    pub degraded_count: usize,
    pub unavailable_count: usize,
    pub recommended_fps: Option<u32>,
    pub recommended_codec: Option<String>,
    pub zero_copy_available: bool,
    /// Authentication methods, derived from the service levels.
    pub available_auth_methods: Vec<String>,
    pub detected_at: Timestamp,
}

/// One service of the service registry.
#[derive(Debug, Clone)]
pub struct ServiceInfo {
    pub id: String,
    pub name: String,
    pub level: ServiceLevel,
    pub level_emoji: String,
    pub wayland_source: Option<String>,
    pub rdp_capability: Option<String>,
    pub notes: Vec<String>,
}

/// How well a service works.
#[derive(Debug, Clone, Copy, PartialEq, Eq, Structural)]
pub enum ServiceLevel {
    Guaranteed,
    BestEffort,
    Degraded,
    Unavailable,
}

impl ServiceLevel {
    /// The level's symbol.
    pub open spec fn symbol(self) -> Seq<char> {
        match self {
            ServiceLevel::Guaranteed => "✅"@,
            ServiceLevel::BestEffort => "🔶"@,
            ServiceLevel::Degraded => "⚠️"@,
            ServiceLevel::Unavailable => "❌"@,
        }
    }

    /// The level's symbol.
    pub fn emoji(&self) -> (r: &'static str)
        ensures
            r@ == self.symbol(),
    {
        match self {
            ServiceLevel::Guaranteed => "✅",
            ServiceLevel::BestEffort => "🔶",
            ServiceLevel::Degraded => "⚠️",
            ServiceLevel::Unavailable => "❌",
        }
    }

    /// The level's name.
    pub open spec fn label(self) -> Seq<char> {
        match self {
            ServiceLevel::Guaranteed => "Guaranteed"@,
            ServiceLevel::BestEffort => "BestEffort"@,
            ServiceLevel::Degraded => "Degraded"@,
            ServiceLevel::Unavailable => "Unavailable"@,
        }
    }

    /// The level's name.
    pub fn to_text(&self) -> (r: String)
        ensures
            r@ == self.label(),
    {
        (match self {
            ServiceLevel::Guaranteed => "Guaranteed",
            ServiceLevel::BestEffort => "BestEffort",
            ServiceLevel::Degraded => "Degraded",
            ServiceLevel::Unavailable => "Unavailable",
        }).to_owned()
    }
}

/// A known peculiarity of the platform.
#[derive(Debug, Clone)]
pub struct PlatformQuirk {
    pub quirk_id: String,
    pub description: String,
    pub impact: String,
}

/// How the server is deployed.
#[derive(Debug, Clone, Copy, PartialEq, Eq, Structural)]
pub enum DeploymentContext {
    Native,
    Flatpak,
    SystemdUser { linger: bool },
    SystemdSystem,
    InitD,
    Unknown,
}

impl DeploymentContext {
    /// The deployment as shown to the user.
    pub open spec fn label(self) -> Seq<char> {
        match self {
            DeploymentContext::Native => "Native"@,
            DeploymentContext::Flatpak => "Flatpak"@,
            DeploymentContext::SystemdUser { linger } => if linger {
                "systemd-user (linger: true)"@
            } else {
                "systemd-user (linger: false)"@
            },
            DeploymentContext::SystemdSystem => "systemd-system"@,
            DeploymentContext::InitD => "init.d"@,
            DeploymentContext::Unknown => "Unknown"@,
        }
    }

    /// The deployment as shown to the user.
    pub fn to_text(&self) -> (r: String)
        ensures
            r@ == self.label(),
    {
        (match self {
            DeploymentContext::Native => "Native",
            DeploymentContext::Flatpak => "Flatpak",
            DeploymentContext::SystemdUser { linger } => if *linger {
                "systemd-user (linger: true)"
            } else {
                "systemd-user (linger: false)"
            },
            DeploymentContext::SystemdSystem => "systemd-system",
            DeploymentContext::InitD => "init.d",
            DeploymentContext::Unknown => "Unknown",
        }).to_owned()
    }
}

/// The certificate generation dialog.
#[derive(Debug, Clone)]
pub struct CertGenState {
    pub common_name: String,
    pub organization: String,
    pub valid_days: u32,
    pub valid_days_str: String,
    pub generating: bool,
}

impl CertGenState {
    /// What a dialog that was just opened offers.
    pub open spec fn is_default(self) -> bool {
        &&& self.common_name@ == "localhost"@
        &&& self.organization@ == "My Organization"@
        &&& self.valid_days == 365
        &&& self.valid_days_str@ == "365"@
        &&& !self.generating
    }
}

impl Default for CertGenState {
    fn default() -> (r: CertGenState)
        ensures
            r.is_default(),
    {
        CertGenState {
            common_name: "localhost".to_owned(),
            organization: "My Organization".to_owned(),
            valid_days: 365,
            valid_days_str: "365".to_owned(),
            generating: false,
        }
    }
}

/// A line of the server's log.
#[derive(Debug, Clone)]
pub struct LogLine {
    pub timestamp: String,
    pub level: LogLevel,
    pub message: String,
    pub raw: String,
}

/// The level that a tag of a log line stands for; `tag` is in upper case.
pub open spec fn tagged_level(tag: Seq<char>) -> LogLevel {
    if tag == "TRACE"@ {
        LogLevel::Trace
    } else if tag == "DEBUG"@ {
        LogLevel::Debug
    } else if tag == "INFO"@ {
        LogLevel::Info
    } else if tag == "WARN"@ || tag == "WARNING"@ {
        LogLevel::Warn
    } else if tag == "ERROR"@ {
        LogLevel::Error
    } else {
        LogLevel::Info
    }
}

impl LogLine {
    /// The line that `raw` stands for: date, time, level in brackets, message.
    pub open spec fn reads(self, raw: Seq<char>) -> bool {
        let parts = split_at_most(raw, 4, ' ');
        &&& self.raw@ == raw
        &&& self.timestamp@ == (if parts.len() >= 2 {
            parts[0] + " "@ + parts[1]
        } else {
            "??:??:??"@
        })
        &&& self.level == (if parts.len() >= 3 {
            tagged_level(
                uppercase(
                    skip_end(
                        skip_start(parts[2], CharClass::Either('[', ']')),
                        CharClass::Either('[', ']'),
                    ),
                ),
            )
        } else {
            LogLevel::Info
        })
        &&& self.message@ == (if parts.len() >= 4 {
            parts[3]
        } else {
            Seq::empty()
        })
    }

    /// Reads a line such as `2026-01-19 14:23:45 [INFO] Server listening...`.
    pub fn parse(raw: &str) -> (r: Self)
        ensures
            r.reads(raw@),
    {
        let parts = splitn(raw, 4, ' ');
        let timestamp = if parts.len() >= 2 {
            let mut t = parts[0].clone();
            t.append(" ");
            t.append(parts[1].as_str());
            t
        } else {
            "??:??:??".to_owned()
        };
        let level = if parts.len() >= 3 {
            let tag = strip(
                parts[2].as_str(),
                CharClass::Either('[', ']'),
                CharClass::Either('[', ']'),
            );
            LogLevel::tagged(to_uppercase(tag.as_str()).as_str())
        } else {
            LogLevel::Info
        };
        let message = if parts.len() >= 4 {
            parts[3].clone()
        } else {
            String::new()
        };
        let ghost cut = texts(parts@);
        assert(cut == split_at_most(raw@, 4, ' '));
        assert(parts@.len() >= 1 ==> cut[0] == parts@[0]@);
        assert(parts@.len() >= 2 ==> cut[1] == parts@[1]@);
        assert(parts@.len() >= 3 ==> cut[2] == parts@[2]@);
        assert(parts@.len() >= 4 ==> cut[3] == parts@[3]@);
        LogLine { timestamp, level, message, raw: raw.to_owned() }
    }
}

/// Severity of a log line.
#[derive(Debug, Clone, Copy, PartialEq, Eq, PartialOrd, Ord, Structural)]
pub enum LogLevel {
    Trace,
    Debug,
    Info,
    Warn,
    Error,
}

/// The level of a name in the configuration; anything else is `Info`.
pub open spec fn log_level_named(name: Seq<char>) -> LogLevel {
    if name == "trace"@ {
        LogLevel::Trace
    } else if name == "debug"@ {
        LogLevel::Debug
    } else if name == "info"@ {
        LogLevel::Info
    } else if name == "warn"@ {
        LogLevel::Warn
    } else if name == "error"@ {
        LogLevel::Error
    } else {
        LogLevel::Info
    }
}

impl LogLevel {
    /// Levels by rising severity.
    pub open spec fn rank(self) -> int {
        match self {
            LogLevel::Trace => 0,
            LogLevel::Debug => 1,
            LogLevel::Info => 2,
            LogLevel::Warn => 3,
            LogLevel::Error => 4,
        }
    }

    fn number(self) -> (r: u8)
        ensures
            r == self.rank(),
    {
        match self {
            LogLevel::Trace => 0,
            LogLevel::Debug => 1,
            LogLevel::Info => 2,
            LogLevel::Warn => 3,
            LogLevel::Error => 4,
        }
    }

    /// The name of the level in the configuration.
    pub open spec fn config_name(self) -> Seq<char> {
        match self {
            LogLevel::Trace => "trace"@,
            LogLevel::Debug => "debug"@,
            LogLevel::Info => "info"@,
            LogLevel::Warn => "warn"@,
            LogLevel::Error => "error"@,
        }
    }

    /// The level of a name in the configuration; anything else is `Info`.
    pub fn named(name: &str) -> (r: LogLevel)
        ensures
            r == log_level_named(name@),
    {
        if same_text(name, "trace") {
            LogLevel::Trace
        } else if same_text(name, "debug") {
            LogLevel::Debug
        } else if same_text(name, "info") {
            LogLevel::Info
        } else if same_text(name, "warn") {
            LogLevel::Warn
        } else if same_text(name, "error") {
            LogLevel::Error
        } else {
            LogLevel::Info
        }
    }

    /// The level that an upper case tag of a log line stands for.
    pub fn tagged(tag: &str) -> (r: LogLevel)
        ensures
            r == tagged_level(tag@),
    {
        if same_text(tag, "TRACE") {
            LogLevel::Trace
        } else if same_text(tag, "DEBUG") {
            LogLevel::Debug
        } else if same_text(tag, "INFO") {
            LogLevel::Info
        } else if same_text(tag, "WARN") || same_text(tag, "WARNING") {
            LogLevel::Warn
        } else if same_text(tag, "ERROR") {
            LogLevel::Error
        } else {
            LogLevel::Info
        }
    }

    /// All levels by rising severity.
    pub fn all() -> (r: &'static [LogLevel])
        ensures
            r@ == seq![
                LogLevel::Trace,
                LogLevel::Debug,
                LogLevel::Info,
                LogLevel::Warn,
                LogLevel::Error,
            ],
    {
        &[LogLevel::Trace, LogLevel::Debug, LogLevel::Info, LogLevel::Warn, LogLevel::Error]
    }

    /// The level in upper case, as in a log line.
    pub open spec fn tag(self) -> Seq<char> {
        match self {
            LogLevel::Trace => "TRACE"@,
            LogLevel::Debug => "DEBUG"@,
            LogLevel::Info => "INFO"@,
            LogLevel::Warn => "WARN"@,
            LogLevel::Error => "ERROR"@,
        }
    }

    /// The level in upper case, as in a log line.
    pub fn to_text(&self) -> (r: String)
        ensures
            r@ == self.tag(),
    {
        (match self {
            LogLevel::Trace => "TRACE",
            LogLevel::Debug => "DEBUG",
            LogLevel::Info => "INFO",
            LogLevel::Warn => "WARN",
            LogLevel::Error => "ERROR",
        }).to_owned()
    }

    /// The level's name, capitalized.
    pub open spec fn title(self) -> Seq<char> {
        match self {
            LogLevel::Trace => "Trace"@,
            LogLevel::Debug => "Debug"@,
            LogLevel::Info => "Info"@,
            LogLevel::Warn => "Warn"@,
            LogLevel::Error => "Error"@,
        }
    }

    /// The level's name, capitalized.
    pub fn to_title(&self) -> (r: &'static str)
        ensures
            r@ == self.title(),
    {
        match self {
            LogLevel::Trace => "Trace",
            LogLevel::Debug => "Debug",
            LogLevel::Info => "Info",
            LogLevel::Warn => "Warn",
            LogLevel::Error => "Error",
        }
    }
}

/// The log filter survives saving and loading: the level that a configuration
/// stores under its name is read back from that name.
pub proof fn log_level_round_trip(level: LogLevel)
    ensures
        log_level_named(level.config_name()) == level,
        tagged_level(level.tag()) == level,
{
    reveal_strlit("trace");
    reveal_strlit("debug");
    reveal_strlit("info");
    reveal_strlit("warn");
    reveal_strlit("error");
    reveal_strlit("TRACE");
    reveal_strlit("DEBUG");
    reveal_strlit("INFO");
    reveal_strlit("WARN");
    reveal_strlit("WARNING");
    reveal_strlit("ERROR");
    let name = level.config_name();
    let tag = level.tag();
    assert(name[0] == 't' || name[0] == 'd' || name[0] == 'i' || name[0] == 'w' || name[0] == 'e');
    assert(tag[0] == 'T' || tag[0] == 'D' || tag[0] == 'I' || tag[0] == 'W' || tag[0] == 'E');
    assert("trace"@[0] == 't' && "debug"@[0] == 'd' && "info"@[0] == 'i' && "warn"@[0] == 'w'
        && "error"@[0] == 'e');
    assert("TRACE"@[0] == 'T' && "DEBUG"@[0] == 'D' && "INFO"@[0] == 'I' && "WARN"@[0] == 'W'
        && "WARNING"@[0] == 'W' && "ERROR"@[0] == 'E');
}

/// A notification.
#[derive(Debug, Clone)]
pub struct UserMessage {
    pub level: MessageLevel,
    pub text: String,
    pub timestamp: Timestamp,
}

/// Kind of a notification.
#[derive(Debug, Clone, Copy, PartialEq, Eq, Structural)]
pub enum MessageLevel {
    Info,
    Warning,
    Error,
    Success,
}

/// What the user was about to do when unsaved changes came up.
#[derive(Debug, Clone)]
pub enum PendingAction {
    CloseWindow,
    SwitchTab(Tab),
    LoadConfig(String),
}

/// The number fields of server, the clipboard, sound and monitors show the configured
/// numbers: read back, each gives its own setting.
pub proof fn server_and_media_fields_show_their_settings(
    e: EditStrings,
    config: Config,
    formatted: FormattedSettings,
)
    requires
        e.shows(config, formatted),
    ensures
        parsed(e.max_connections@, u64::MAX as nat) == Some(config.server.max_connections as nat),
        parsed(e.session_timeout@, u64::MAX as nat) == Some(config.server.session_timeout as nat),
        parsed(e.rate_limit@, u64::MAX as nat) == Some(config.clipboard.rate_limit_ms as nat),
        parsed(e.audio_sample_rate@, u64::MAX as nat) == Some(config.audio.sample_rate as nat),
        parsed(e.audio_frame_ms@, u64::MAX as nat) == Some(config.audio.frame_ms as nat),
        parsed(e.max_monitors@, u64::MAX as nat) == Some(config.multimon.max_monitors as nat),
{
    number_text_round_trip(config.server.max_connections as nat, u64::MAX as nat);
    number_text_round_trip(config.server.session_timeout as nat, u64::MAX as nat);
    number_text_round_trip(config.clipboard.rate_limit_ms as nat, u64::MAX as nat);
    number_text_round_trip(config.audio.sample_rate as nat, u64::MAX as nat);
    number_text_round_trip(config.audio.frame_ms as nat, u64::MAX as nat);
    number_text_round_trip(config.multimon.max_monitors as nat, u64::MAX as nat);
}

/// The number fields of performance and the video pipeline show the configured
/// numbers: read back, each gives its own setting.
pub proof fn performance_fields_show_their_settings(
    e: EditStrings,
    config: Config,
    formatted: FormattedSettings,
)
    requires
        e.shows(config, formatted),
    ensures
        parsed(e.buffer_pool_size@, u64::MAX as nat) == Some(config.performance.buffer_pool_size as nat),
        parsed(e.network_threads@, u64::MAX as nat) == Some(config.performance.network_threads as nat),
        parsed(e.encoder_threads@, u64::MAX as nat) == Some(config.performance.encoder_threads as nat),
        parsed(e.quality_delay@, u64::MAX as nat) == Some(config.performance.latency.quality_max_delay_ms as nat),
        parsed(e.balanced_delay@, u64::MAX as nat) == Some(config.performance.latency.balanced_max_delay_ms as nat),
        parsed(e.interactive_delay@, u64::MAX as nat) == Some(config.performance.latency.interactive_max_delay_ms as nat),
        parsed(e.max_frame_age@, u64::MAX as nat) == Some(config.video_pipeline.dispatcher.max_frame_age_ms as nat),
        parsed(e.channel_size@, u64::MAX as nat) == Some(config.video_pipeline.dispatcher.channel_size as nat),
        parsed(e.max_queue_depth@, u64::MAX as nat) == Some(config.video_pipeline.processor.max_queue_depth as nat),
        parsed(e.converter_buffer_pool_size@, u64::MAX as nat) == Some(config.video_pipeline.converter.buffer_pool_size as nat),
{
    number_text_round_trip(config.performance.buffer_pool_size as nat, u64::MAX as nat);
    number_text_round_trip(config.performance.network_threads as nat, u64::MAX as nat);
    number_text_round_trip(config.performance.encoder_threads as nat, u64::MAX as nat);
    number_text_round_trip(config.performance.latency.quality_max_delay_ms as nat, u64::MAX as nat);
    number_text_round_trip(config.performance.latency.balanced_max_delay_ms as nat, u64::MAX as nat);
    number_text_round_trip(config.performance.latency.interactive_max_delay_ms as nat, u64::MAX as nat);
    number_text_round_trip(config.video_pipeline.dispatcher.max_frame_age_ms as nat, u64::MAX as nat);
    number_text_round_trip(config.video_pipeline.dispatcher.channel_size as nat, u64::MAX as nat);
    number_text_round_trip(config.video_pipeline.processor.max_queue_depth as nat, u64::MAX as nat);
    number_text_round_trip(config.video_pipeline.converter.buffer_pool_size as nat, u64::MAX as nat);
}

/// The number fields of graphics, damage tracking and the cursor show the configured
/// numbers: read back, each gives its own setting.
pub proof fn video_fields_show_their_settings(
    e: EditStrings,
    config: Config,
    formatted: FormattedSettings,
)
    requires
        e.shows(config, formatted),
    ensures
        parsed(e.frame_ack_timeout@, u64::MAX as nat) == Some(config.egfx.frame_ack_timeout as nat),
        parsed(e.max_frames@, u64::MAX as nat) == Some(config.egfx.max_frames_in_flight as nat),
        parsed(e.h264_bitrate@, u64::MAX as nat) == Some(config.egfx.h264_bitrate as nat),
        parsed(e.qp_min@, u64::MAX as nat) == Some(config.egfx.qp_min as nat),
        parsed(e.qp_default@, u64::MAX as nat) == Some(config.egfx.qp_default as nat),
        parsed(e.qp_max@, u64::MAX as nat) == Some(config.egfx.qp_max as nat),
        parsed(e.periodic_idr@, u64::MAX as nat) == Some(config.egfx.periodic_idr_interval as nat),
        parsed(e.max_aux_interval@, u64::MAX as nat) == Some(config.egfx.avc444_max_aux_interval as nat),
        parsed(e.tile_size@, u64::MAX as nat) == Some(config.damage_tracking.tile_size as nat),
        parsed(e.pixel_threshold@, u64::MAX as nat) == Some(config.damage_tracking.pixel_threshold as nat),
        parsed(e.merge_distance@, u64::MAX as nat) == Some(config.damage_tracking.merge_distance as nat),
        parsed(e.min_region_area@, u64::MAX as nat) == Some(config.damage_tracking.min_region_area as nat),
        parsed(e.intra_refresh@, u64::MAX as nat) == Some(config.advanced_video.intra_refresh_interval as nat),
        parsed(e.cursor_update_fps@, u64::MAX as nat) == Some(config.cursor.cursor_update_fps as nat),
        parsed(e.predictive_threshold@, u64::MAX as nat) == Some(config.cursor.predictive_latency_threshold_ms as nat),
        parsed(e.history_size@, u64::MAX as nat) == Some(config.cursor.predictor.history_size as nat),
        parsed(e.max_pred_dist@, u64::MAX as nat) == Some(config.cursor.predictor.max_prediction_distance as nat),
{
    number_text_round_trip(config.egfx.frame_ack_timeout as nat, u64::MAX as nat);
    number_text_round_trip(config.egfx.max_frames_in_flight as nat, u64::MAX as nat);
    number_text_round_trip(config.egfx.h264_bitrate as nat, u64::MAX as nat);
    number_text_round_trip(config.egfx.qp_min as nat, u64::MAX as nat);
    number_text_round_trip(config.egfx.qp_default as nat, u64::MAX as nat);
    number_text_round_trip(config.egfx.qp_max as nat, u64::MAX as nat);
    number_text_round_trip(config.egfx.periodic_idr_interval as nat, u64::MAX as nat);
    number_text_round_trip(config.egfx.avc444_max_aux_interval as nat, u64::MAX as nat);
    number_text_round_trip(config.damage_tracking.tile_size as nat, u64::MAX as nat);
    number_text_round_trip(config.damage_tracking.pixel_threshold as nat, u64::MAX as nat);
    number_text_round_trip(config.damage_tracking.merge_distance as nat, u64::MAX as nat);
    number_text_round_trip(config.damage_tracking.min_region_area as nat, u64::MAX as nat);
    number_text_round_trip(config.advanced_video.intra_refresh_interval as nat, u64::MAX as nat);
    number_text_round_trip(config.cursor.cursor_update_fps as nat, u64::MAX as nat);
    number_text_round_trip(config.cursor.predictive_latency_threshold_ms as nat, u64::MAX as nat);
    number_text_round_trip(config.cursor.predictor.history_size as nat, u64::MAX as nat);
    number_text_round_trip(config.cursor.predictor.max_prediction_distance as nat, u64::MAX as nat);
}

/// The clipboard limit is shown in whole mebibytes and the audio bitrate in whole
/// kilobits, both rounded down.
pub proof fn large_units_are_rounded_down(
    e: EditStrings,
    config: Config,
    formatted: FormattedSettings,
)
    requires
        e.shows(config, formatted),
    ensures
        ({
            let mib = parsed(e.max_size_mb@, u64::MAX as nat);
            &&& mib is Some
            &&& mib->0 * 1024 * 1024 <= config.clipboard.max_size
            &&& config.clipboard.max_size < (mib->0 + 1) * 1024 * 1024
        }),
        ({
            let kbps = parsed(e.audio_opus_bitrate@, u64::MAX as nat);
            &&& kbps is Some
            &&& kbps->0 * 1000 <= config.audio.opus_bitrate
            &&& config.audio.opus_bitrate < (kbps->0 + 1) * 1000
        }),
{
    number_text_round_trip((config.clipboard.max_size / 1048576) as nat, u64::MAX as nat);
    number_text_round_trip((config.audio.opus_bitrate / 1000) as nat, u64::MAX as nat);
}

/// Text fields show the configured texts, prepared texts are shown as prepared, and the
/// password field is empty whatever is stored.
pub proof fn text_fields_show_their_settings(
    e: EditStrings,
    config: Config,
    formatted: FormattedSettings,
)
    requires
        e.shows(config, formatted),
    ensures
        e.password@.len() == 0,
        e.cert_path@ == config.security.cert_path@,
        e.key_path@ == config.security.key_path@,
        e.vaapi_device@ == config.hardware_encoding.vaapi_device@,
        config.logging.log_dir is None ==> e.log_dir@.len() == 0,
        config.logging.log_dir is Some ==> e.log_dir@ == (config.logging.log_dir->0)@,
        parsed(e.valid_days@, u32::MAX as nat) == Some(365nat),
        e.aux_threshold_pct@ == formatted.aux_threshold_pct@,
        e.lookahead@ == formatted.lookahead@,
        e.min_velocity@ == formatted.min_velocity@,
        formatted.listen_socket is Some ==> e.server_ip@ == (formatted.listen_socket->0).0@
            && e.server_port@ == (formatted.listen_socket->0).1@,
        config.display.allowed_resolutions@.len() == 0 ==> e.resolutions_text@.len() == 0,
        config.display.allowed_resolutions@.len() == 1 ==> e.resolutions_text@
            == config.display.allowed_resolutions@[0]@,
{
    reveal_strlit("");
    reveal_strlit("365");
    assert("365"@ =~= decimal(365)) by {
        reveal_with_fuel(decimal, 4);
    }
    number_text_round_trip(365, u32::MAX as nat);
    let list = texts(config.display.allowed_resolutions@);
    reveal_with_fuel(joined, 3);
    if list.len() == 1 {
        assert(list[0] == config.display.allowed_resolutions@[0]@);
        assert(joined(list, "\n"@) =~= list[0]);
    }
}

/// The user name field shows the first user with a password. Who has none stored sees
/// the configured name.
pub proof fn first_user_is_shown(config: Config)
    ensures
        config.security.password_credentials.entries@.len() == 0 ==> shown_username(config)
            == config.security.password_username@,
        config.security.password_credentials.entries@.len() > 0 ==> shown_username(config)
            == config.security.password_credentials.entries@.first().0@,
{
}

/// A listen address ends in a colon and the port as entered, without the white space
/// around it; no port means 3389.
pub proof fn listen_addresses_end_in_their_port(host: Seq<char>, port: Seq<char>, i: int)
    ensures
        ({
            let addr = composed_addr(host, port);
            let p = trimmed(port);
            let shown = if p.len() == 0 {
                "3389"@
            } else {
                p
            };
            &&& addr.len() > shown.len()
            &&& 0 <= i < shown.len() ==> addr[addr.len() - shown.len() + i] == shown[i]
            &&& addr[addr.len() - shown.len() - 1] == ':'
        }),
{
    reveal_strlit(":");
    reveal_strlit("3389");
}

/// A listen address begins with the host: every interface if none is entered, brackets
/// around a host with colons unless it has them, and any other host as it is.
pub proof fn listen_addresses_begin_with_their_host(host: Seq<char>, port: Seq<char>, i: int)
    requires
        0 <= i,
    ensures
        ({
            let addr = composed_addr(host, port);
            let h = trimmed(host);
            let bracketed = h.len() > 0 && h.first() == '[' && h.last() == ']';
            &&& h.len() == 0 && i < 7 ==> addr.len() > 7 && addr[i] == "0.0.0.0"@[i]
            &&& h.len() == 0 ==> addr[7] == ':'
            &&& h.len() > 0 && (bracketed || !h.contains(':')) ==> {
                &&& addr.len() > h.len()
                &&& i < h.len() ==> addr[i] == h[i]
                &&& addr[h.len() as int] == ':'
            }
            &&& !bracketed && h.contains(':') ==> {
                &&& addr.len() > h.len() + 2
                &&& addr[0] == '['
                &&& i < h.len() ==> addr[i + 1] == h[i]
                &&& addr[h.len() as int + 1] == ']'
                &&& addr[h.len() as int + 2] == ':'
            }
        }),
{
    reveal_strlit(":");
    reveal_strlit("[");
    reveal_strlit("]");
    reveal_strlit("0.0.0.0");
    assert("0.0.0.0"@.len() == 7);
}

/// An address without a colon is a host, to be reached at port 3389.
pub proof fn hosts_alone_use_the_standard_port(addr: Seq<char>)
    requires
        !addr.contains(':'),
    ensures
        split_addr(addr).0 == addr,
        split_addr(addr).1 == "3389"@,
{
    last_cut_is_last(addr, ':');
}

/// Each category opens with its first tab, and every tab bar begins with what is used
/// most.
pub proof fn categories_open_with_their_first_tab(category: TabCategory)
    ensures
        category.tab_list().len() > 0,
        category.tab_list()[0].category_of() == category,
        TabCategory::Core.tab_list()[0] == Tab::Server,
        TabCategory::System.tab_list()[0] == Tab::Performance,
        TabCategory::Media.tab_list()[0] == Tab::Video,
        TabCategory::Core.tab_list().len() == 2,
        TabCategory::System.tab_list().len() == 3,
        TabCategory::Media.tab_list().len() == 5,
        Tab::listing().len() == 10,
{
}

/// The configuration file of a sandbox lies in its own configuration directory,
/// whatever else exists.
pub proof fn sandboxes_keep_their_configuration(
    dir: Option<Seq<char>>,
    user: bool,
    system: bool,
    other_user: bool,
    other_system: bool,
)
    ensures
        config_location(true, dir, user, system) == config_location(
            true,
            dir,
            other_user,
            other_system,
        ),
        dir is Some ==> config_location(true, dir, user, system) == path_joined(
            dir->0,
            "config.toml"@,
        ),
        dir is None ==> config_location(true, dir, user, system) == path_joined(
            "/app/config"@,
            "config.toml"@,
        ),
{
}

/// Outside of a sandbox the user's configuration file comes before the system's. With
/// neither there, a new one is the user's.
pub proof fn own_configuration_comes_first(dir: Seq<char>, user: bool, system: bool)
    ensures
        ({
            let own = path_joined(path_joined(dir, "lamco-rdp-server"@), "config.toml"@);
            let path = config_location(false, Some(dir), user, system);
            &&& user ==> path == own
            &&& !user && system ==> path == "/etc/lamco-rdp-server/config.toml"@
            &&& !user && !system ==> path == own
        }),
        system ==> config_location(false, None, user, system)
            == "/etc/lamco-rdp-server/config.toml"@,
{
}

/// A log view with room keeps every line, in order, with the new one at the end. A full
/// one gives up its oldest line for it.
pub proof fn log_view_keeps_the_newest(lines: Seq<LogLine>, line: LogLine, max: nat, i: int)
    requires
        lines.len() <= max,
        max > 0,
    ensures
        lines.len() < max ==> {
            &&& logged(lines, line, max).len() == lines.len() + 1
            &&& 0 <= i < lines.len() ==> logged(lines, line, max)[i] == lines[i]
        },
        lines.len() == max ==> {
            &&& logged(lines, line, max).len() == max
            &&& 0 < i < lines.len() ==> logged(lines, line, max)[i - 1] == lines[i]
        },
        logged(lines, line, max).last() == line,
{
}

/// What the window remembers of itself carries the window's own flags under their own
/// names.
pub proof fn window_remembers_its_flags(s: AppState, level: String)
    ensures
        ({
            let g = s.remembered_as(level);
            &&& g.expert_mode == s.sections.expert_mode
            &&& g.egfx_expert_mode == s.sections.egfx_expert_mode
            &&& g.video_pipeline_expanded == s.sections.video_pipeline_expanded
            &&& g.adaptive_fps_expanded == s.sections.adaptive_fps_expanded
            &&& g.latency_expanded == s.sections.latency_expanded
            &&& g.damage_tracking_expanded == s.sections.damage_tracking_expanded
            &&& g.hardware_encoding_expanded == s.sections.hardware_encoding_expanded
            &&& g.display_expanded == s.sections.display_expanded
            &&& g.advanced_video_expanded == s.sections.advanced_video_expanded
            &&& g.cursor_expanded == s.sections.cursor_expanded
            &&& g.cursor_predictor_expanded == s.sections.cursor_predictor_expanded
            &&& g.log_auto_scroll == s.sections.log_auto_scroll
            &&& g.close_stops_server == s.close_stops_server
            &&& g.log_filter_level == level
        }),
{
}

/// A window that was just opened remembers of itself what the configuration said: saving
/// it changes nothing.
pub proof fn opened_windows_remember_the_same(s: AppState, config: Config)
    requires
        s.opened_on(config),
    ensures
        s.remembered_as(config.gui_state.log_filter_level) == config.gui_state,
        !s.sections.multimon_expanded,
        !s.sections.logging_expanded,
        !s.is_dirty,
        s.messages@.len() == 0,
        s.log_buffer@.len() == 0,
        s.server_status is Unknown,
        s.config == config,
        s.max_log_lines == 1000,
        s.last_saved is None,
        s.active_preset is None,
        !s.validation.is_valid,
        s.cert_gen_dialog is None,
        !s.first_run_cert_dialog,
        !s.confirm_discard_dialog,
        s.pending_action is None,
        s.detected_capabilities is None,
{
}

/// Severity rises from trace over debug, info and warning to error.
pub proof fn levels_rise()
    ensures
        LogLevel::Trace.rank() < LogLevel::Debug.rank(),
        LogLevel::Debug.rank() < LogLevel::Info.rank(),
        LogLevel::Info.rank() < LogLevel::Warn.rank(),
        LogLevel::Warn.rank() < LogLevel::Error.rank(),
{
}

/// The log view shows exactly the lines that are at least as severe as the filter.
/// Traces and up are all lines.
pub proof fn severe_lines_are_shown(s: AppState, line: LogLine)
    ensures
        s.visible_lines().contains(line) <==> s.log_buffer@.contains(line) && line.level.rank()
            >= s.log_filter_level.rank(),
        s.log_filter_level is Trace ==> s.visible_lines() == s.log_buffer@,
{
    let keep = |l: LogLine| l.level.rank() >= s.log_filter_level.rank();
    lemma_filter(s.log_buffer@, keep, line);
    if s.log_filter_level is Trace {
        lemma_filter_all(s.log_buffer@, keep);
    }
}

proof fn lemma_filter(lines: Seq<LogLine>, keep: spec_fn(LogLine) -> bool, line: LogLine)
    ensures
        lines.filter(keep).contains(line) <==> lines.contains(line) && keep(line),
    decreases lines.len(),
{
    reveal(Seq::filter);
    if lines.len() > 0 {
        let rest = lines.drop_last();
        lemma_filter(rest, keep, line);
        assert(lines =~= rest.push(lines.last()));
        assert(lines.contains(line) <==> rest.contains(line) || lines.last() == line) by {
            if rest.contains(line) {
                let i = choose|i: int| 0 <= i < rest.len() && rest[i] == line;
                assert(lines[i] == line);
            }
            if lines.last() == line {
                assert(lines[lines.len() - 1] == line);
            }
        }
        let kept = rest.filter(keep);
        let longer = kept.push(lines.last());
        assert(longer.contains(line) <==> kept.contains(line) || lines.last() == line) by {
            if kept.contains(line) {
                let i = choose|i: int| 0 <= i < kept.len() && kept[i] == line;
                assert(longer[i] == line);
            }
            if lines.last() == line {
                assert(longer[longer.len() - 1] == line);
            }
        }
    }
}

proof fn lemma_filter_all(lines: Seq<LogLine>, keep: spec_fn(LogLine) -> bool)
    requires
        forall|l: LogLine| #[trigger] keep(l),
    ensures
        lines.filter(keep) == lines,
    decreases lines.len(),
{
    reveal(Seq::filter);
    if lines.len() > 0 {
        lemma_filter_all(lines.drop_last(), keep);
        assert(lines.drop_last().push(lines.last()) =~= lines);
    }
    assert(lines.filter(keep) =~= lines);
}

/// Of a log line such as the server writes, date and time make the timestamp, the word
/// in brackets the level, and what is behind it, spaces and all, the message.
pub proof fn log_lines_are_read_as_written(
    line: LogLine,
    date: Seq<char>,
    time: Seq<char>,
    level: LogLevel,
    message: Seq<char>,
)
    requires
        line.reads(
            date + seq![' '] + time + seq![' '] + seq!['['] + level.tag() + seq![']'] + seq![' ']
                + message,
        ),
        !date.contains(' '),
        !time.contains(' '),
    ensures
        line.timestamp@ == date + seq![' '] + time,
        line.level == level,
        line.message@ == message,
{
    let tag = seq!['['] + level.tag() + seq![']'];
    let raw = date + seq![' '] + time + seq![' '] + seq!['['] + level.tag() + seq![']'] + seq![' ']
        + message;
    reveal_strlit("TRACE");
    reveal_strlit("DEBUG");
    reveal_strlit("INFO");
    reveal_strlit("WARN");
    reveal_strlit("ERROR");
    reveal_strlit(" ");
    assert(" "@ =~= seq![' ']);
    assert(!tag.contains(' ')) by {
        assert(forall|i: int| 0 <= i < level.tag().len() ==> level.tag()[i] != ' ');
    }
    let rest = tag + seq![' '] + message;
    let late = time + seq![' '] + rest;
    assert(raw =~= date + seq![' '] + late);
    lemma_first_word(date, late, 4);
    lemma_first_word(time, rest, 3);
    lemma_first_word(tag, message, 2);
    reveal_with_fuel(split_at_most, 2);
    let parts = split_at_most(raw, 4, ' ');
    assert(split_at_most(message, 1, ' ') =~= seq![message]);
    assert(parts =~= seq![date, time, tag, message]);
    let open = CharClass::Either('[', ']');
    let word = level.tag();
    assert(tag.drop_first() =~= word + seq![']']);
    reveal_with_fuel(skip_start, 3);
    reveal_with_fuel(skip_end, 3);
    assert((word + seq![']'])[0] == word[0]);
    assert(skip_start(tag, open) =~= word + seq![']']);
    assert((word + seq![']']).drop_last() =~= word);
    assert(skip_end(word + seq![']'], open) =~= word);
    assert(is_ascii_text(word));
    assert(uppercase(word) =~= word);
    log_level_round_trip(level);
}

proof fn lemma_first_word(word: Seq<char>, rest: Seq<char>, n: nat)
    requires
        !word.contains(' '),
        n > 1,
    ensures
        split_at_most(word + seq![' '] + rest, n, ' ') == seq![word] + split_at_most(
            rest,
            (n - 1) as nat,
            ' ',
        ),
{
    let s = word + seq![' '] + rest;
    lemma_first_at(s, ' ');
    let at = first_at(s, ' ');
    assert(s[word.len() as int] == ' ');
    assert(s.contains(' '));
    if at < word.len() {
        assert(word[at] == s[at]);
        assert(word.contains(' '));
    }
    assert(at == word.len());
    assert(s.take(at) =~= word);
    assert(s.skip(at + 1) =~= rest);
}

/// The long form of a warning is a warning, and a word that names no level counts as
/// information, in a log line as in the configuration.
pub proof fn other_words_are_information(word: Seq<char>)
    ensures
        word == "WARNING"@ ==> tagged_level(word) is Warn,
        tagged_level(word) is Info || word == tagged_level(word).tag() || word == "WARNING"@,
        log_level_named(word) is Info || word == log_level_named(word).config_name(),
{
    reveal_strlit("TRACE");
    reveal_strlit("DEBUG");
    reveal_strlit("INFO");
    reveal_strlit("ERROR");
    reveal_strlit("WARNING");
    assert("WARNING"@.len() == 7 && "TRACE"@.len() == 5 && "DEBUG"@.len() == 5 && "INFO"@.len() == 4
        && "ERROR"@.len() == 5);
}

/// A certificate dialog opens with a year of validity, shown as it is set, and is not
/// generating yet.
pub proof fn certificate_dialogs_begin_with_a_year(dialog: CertGenState)
    requires
        dialog.is_default(),
    ensures
        dialog.valid_days == 365,
        parsed(dialog.valid_days_str@, u32::MAX as nat) == Some(dialog.valid_days as nat),
        !dialog.generating,
        dialog.common_name@ == "localhost"@,
        dialog.organization@ == "My Organization"@,
{
    reveal_strlit("365");
    assert("365"@ =~= decimal(365)) by {
        reveal_with_fuel(decimal, 4);
    }
    number_text_round_trip(365, u32::MAX as nat);
}

/// Levels of service go by names that tell them apart.
pub proof fn services_go_by_their_names(a: ServiceLevel, b: ServiceLevel)
    ensures
        a.label() == b.label() ==> a == b,
        a is Guaranteed ==> a.label() == "Guaranteed"@ && a.symbol() == "✅"@,
        a is BestEffort ==> a.label() == "BestEffort"@ && a.symbol() == "🔶"@,
        a is Degraded ==> a.label() == "Degraded"@ && a.symbol() == "⚠️"@,
        a is Unavailable ==> a.label() == "Unavailable"@ && a.symbol() == "❌"@,
{
    reveal_strlit("Guaranteed");
    reveal_strlit("BestEffort");
    reveal_strlit("Degraded");
    reveal_strlit("Unavailable");
    assert("Guaranteed"@[0] == 'G' && "BestEffort"@[0] == 'B' && "Degraded"@[0] == 'D'
        && "Unavailable"@[0] == 'U');
}

/// A deployment is shown by its name, a user service with whether it lingers.
pub proof fn deployments_go_by_their_names(context: DeploymentContext)
    ensures
        context is Native ==> context.label() == "Native"@,
        context is Flatpak ==> context.label() == "Flatpak"@,
        context is SystemdUser && context->linger ==> context.label()
            == "systemd-user (linger: true)"@,
        context is SystemdUser && !context->linger ==> context.label()
            == "systemd-user (linger: false)"@,
        context is SystemdSystem ==> context.label() == "systemd-system"@,
        context is InitD ==> context.label() == "init.d"@,
        context is Unknown ==> context.label() == "Unknown"@,
{
}

/// Tabs and categories go by their own labels and icons.
pub proof fn tabs_go_by_their_labels(tab: Tab, category: TabCategory)
    ensures
        tab == Tab::Server ==> tab.label() == "Server"@ && tab.symbol() == "🖥"@,
        tab == Tab::Security ==> tab.label() == "Security"@ && tab.symbol() == "🔒"@,
        tab == Tab::Video ==> tab.label() == "Video"@ && tab.symbol() == "🎬"@,
        tab == Tab::Audio ==> tab.label() == "Audio"@ && tab.symbol() == "🔊"@,
        tab == Tab::Input ==> tab.label() == "Input"@ && tab.symbol() == "⌨"@,
        tab == Tab::Clipboard ==> tab.label() == "Clipboard"@ && tab.symbol() == "📋"@,
        tab == Tab::Performance ==> tab.label() == "Performance"@ && tab.symbol() == "⚡"@,
        tab == Tab::Egfx ==> tab.label() == "EGFX"@ && tab.symbol() == "🎨"@,
        tab == Tab::Advanced ==> tab.label() == "Advanced"@ && tab.symbol() == "⚙"@,
        tab == Tab::Status ==> tab.label() == "Status"@ && tab.symbol() == "📊"@,
        category == TabCategory::Core ==> category.label() == "Core"@ && category.symbol() == "🖥"@,
        category == TabCategory::System ==> category.label() == "System"@ && category.symbol()
            == "⚙"@,
        category == TabCategory::Media ==> category.label() == "Media & I/O"@ && category.symbol()
            == "🎬"@,
{
}

/// The status of the server is shown in a word.
pub proof fn statuses_go_by_their_names(status: ServerStatus)
    ensures
        status is Unknown ==> status.label() == "Unknown"@,
        status is Stopped ==> status.label() == "Stopped"@,
        status is Starting ==> status.label() == "Starting..."@,
        status is Running ==> status.label() == "Running"@,
        status is Error ==> status.label() == "Error"@,
{
}

/// Levels in a log line are in upper case.
pub proof fn tags_are_the_names_in_upper_case(level: LogLevel)
    ensures
        uppercase(level.config_name()) == level.tag(),
        uppercase(level.title()) == level.tag(),
{
    reveal_strlit("trace");
    reveal_strlit("debug");
    reveal_strlit("info");
    reveal_strlit("warn");
    reveal_strlit("error");
    reveal_strlit("TRACE");
    reveal_strlit("DEBUG");
    reveal_strlit("INFO");
    reveal_strlit("WARN");
    reveal_strlit("ERROR");
    reveal_strlit("Trace");
    reveal_strlit("Debug");
    reveal_strlit("Info");
    reveal_strlit("Warn");
    reveal_strlit("Error");
    assert(is_ascii_text(level.config_name()));
    assert(is_ascii_text(level.title()));
    assert(uppercase(level.config_name()) =~= level.tag());
    assert(uppercase(level.title()) =~= level.tag());
}

/// A configuration that was not validated yet counts as invalid, with nothing found in it.
pub proof fn unvalidated_configurations_are_invalid(validation: ValidationState)
    requires
        validation.is_default(),
    ensures
        !validation.is_valid,
        validation.errors@.len() == 0,
        validation.warnings@.len() == 0,
{
}

} // verus!
