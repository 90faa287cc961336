//! The display as the client sees it: its size, its updates and its graphics channel.

use crate::config::DisplayConfig;
use crate::server::gfx_factory::HandlerState;
use crate::session::strategy::StreamInfo;
use crate::text::{decimal, number, same_text};
use ironrdp_displaycontrol::pdu::MonitorLayoutEntry;
use ironrdp_graphics::image_processing::PixelFormat as GraphicsFormat;
use vstd::prelude::*;

verus! {

/// Pixels that a desktop may have.
pub const MAX_AREA: u64 = 9_216_000;

/// Frames per second that a stream is asked for.
pub const STREAM_FRAMERATE: u32 = 60;

/// Buffers that a stream has.
pub const STREAM_BUFFERS: u32 = 3;

/// The size of the desktop.
#[derive(Debug, Clone, Copy, PartialEq, Eq, Structural)]
pub struct DesktopSize {
    pub width: u16,
    pub height: u16,
}

/// A size that the client asked for.
#[derive(Debug, Clone, Copy, PartialEq, Eq, Structural)]
pub struct ResizeRequest {
    pub width: u16,
    pub height: u16,
}

/// The pixel formats that a capture can be asked for.
#[derive(Debug, Clone, Copy, PartialEq, Eq, Structural)]
pub enum CaptureFormat {
    /// Blue, green, red and a byte without meaning.
    BgrX,
    /// Blue, green, red and how opaque the pixel is.
    Bgra,
}

/// How a stream of frames is opened.
#[derive(Debug)]
pub struct StreamConfig {
    pub name: String,
    pub width: u32,
    pub height: u32,
    pub framerate: u32,
    pub use_dmabuf: bool,
    pub buffer_count: u32,
    pub preferred_format: CaptureFormat,
}

impl StreamConfig {
    /// The settings for the stream of a monitor.
    pub open spec fn is_for(self, index: nat, width: u32, height: u32) -> bool {
        &&& self.name@ == "monitor-"@ + decimal(index)
        &&& self.width == width
        &&& self.height == height
        &&& self.framerate == STREAM_FRAMERATE
        &&& self.use_dmabuf
        &&& self.buffer_count == STREAM_BUFFERS
        &&& self.preferred_format == CaptureFormat::BgrX
    }

    /// The settings for the stream of a monitor.
    pub fn for_monitor(index: usize, width: u32, height: u32) -> (r: Self)
        ensures
            r.is_for(index as nat, width, height),
    {
        let mut name = "monitor-".to_owned();
        name.append(number(index as u64).as_str());
        StreamConfig {
            name,
            width,
            height,
            framerate: STREAM_FRAMERATE,
            use_dmabuf: true,
            buffer_count: STREAM_BUFFERS,
            preferred_format: CaptureFormat::BgrX,
        }
    }
}

/// Every stream is opened, in the order of the monitors, on its own node and in its own size.
pub open spec fn opens(configs: Seq<(u32, StreamConfig)>, streams: Seq<StreamInfo>) -> bool {
    &&& configs.len() == streams.len()
    &&& forall|i: int|
        #![trigger configs[i]]
        0 <= i < configs.len() ==> {
            let (node_id, config) = configs[i];
            &&& node_id == streams[i].node_id
            &&& config.is_for(i as nat, streams[i].width, streams[i].height)
        }
}

/// The settings for the streams of all monitors, next to the nodes that they come from.
pub fn stream_configs(streams: &Vec<StreamInfo>) -> (r: Vec<(u32, StreamConfig)>)
    ensures
        opens(r@, streams@),
{
    let mut r: Vec<(u32, StreamConfig)> = Vec::new();
    let mut i: usize = 0;
    while i < streams.len()
        invariant
            i <= streams@.len(),
            r@.len() == i,
            forall|k: int|
                #![trigger r@[k]]
                0 <= k < i ==> {
                    let (node_id, config) = r@[k];
                    &&& node_id == streams@[k].node_id
                    &&& config.is_for(k as nat, streams@[k].width, streams@[k].height)
                },
        decreases streams@.len() - i,
    {
        r.push(
            (
                streams[i].node_id,
                StreamConfig::for_monitor(i, streams[i].width, streams[i].height),
            ),
        );
        i += 1;
    }
    r
}

/// What became of the request to open a stream.
#[derive(Debug)]
pub enum StreamReply {
    /// The capture thread takes no requests.
    NotSent(String),
    /// There was no answer in time.
    TimedOut,
    /// The stream could not be opened.
    Refused(String),
    Opened,
}

impl StreamReply {
    /// Why the stream cannot be used.
    pub open spec fn refusal(self) -> Option<Seq<char>> {
        match self {
            StreamReply::NotSent(e) => Some("Failed to send create stream command: "@ + e@),
            StreamReply::TimedOut => Some("Timeout creating stream"@),
            StreamReply::Refused(e) => Some("Stream creation failed: "@ + e@),
            StreamReply::Opened => None,
        }
    }
}

/// Whether a stream can be used, and else why not.
pub fn stream_opened(reply: &StreamReply) -> (r: Result<(), String>)
    ensures
        match r {
            Ok(_) => reply.refusal() is None,
            Err(t) => reply.refusal() == Some(t@),
        },
{
    match reply {
        StreamReply::NotSent(e) => {
            let mut t = "Failed to send create stream command: ".to_owned();
            t.append(e.as_str());
            Err(t)
        },
        StreamReply::TimedOut => Err("Timeout creating stream".to_owned()),
        StreamReply::Refused(e) => {
            let mut t = "Stream creation failed: ".to_owned();
            t.append(e.as_str());
            Err(t)
        },
        StreamReply::Opened => Ok(()),
    }
}

/// How starting the capture went.
#[derive(Debug)]
pub enum CaptureStart {
    /// The capture thread could not be started.
    NoThread(String),
    /// The thread runs, and the streams were asked for one after the other.
    Streams(Vec<StreamReply>),
}

/// Why the first of the streams that cannot be used cannot, from `i` on.
pub open spec fn first_refusal(replies: Seq<StreamReply>, i: int) -> Option<Seq<char>>
    decreases replies.len() - i,
{
    if i >= replies.len() {
        None
    } else {
        match replies[i].refusal() {
            Some(t) => Some(t),
            None => first_refusal(replies, i + 1),
        }
    }
}

impl CaptureStart {
    /// Why nothing can be captured: there is no capture thread, or one of the streams cannot be
    /// used.
    pub open spec fn problem(self) -> Option<Seq<char>> {
        match self {
            CaptureStart::NoThread(e) => Some("Failed to create PipeWire thread: "@ + e@),
            CaptureStart::Streams(replies) => first_refusal(replies@, 0),
        }
    }

    /// Whether the capture can be used, and else why not.
    fn check(&self) -> (r: Result<(), String>)
        ensures
            match r {
                Ok(_) => self.problem() is None,
                Err(t) => self.problem() == Some(t@),
            },
    {
        match self {
            CaptureStart::NoThread(e) => {
                let mut t = "Failed to create PipeWire thread: ".to_owned();
                t.append(e.as_str());
                Err(t)
            },
            CaptureStart::Streams(replies) => {
                let mut i: usize = 0;
                while i < replies.len()
                    invariant
                        i <= replies@.len(),
                        self.problem() == first_refusal(replies@, i as int),
                    decreases replies@.len() - i,
                {
                    if let Err(t) = stream_opened(&replies[i]) {
                        return Err(t);
                    }
                    i += 1;
                }
                Ok(())
            },
        }
    }
}

/// A monitor of the client.
#[derive(Debug, Clone, Copy, PartialEq, Eq, Structural)]
pub struct ClientMonitor {
    pub is_primary: bool,
    pub width: u32,
    pub height: u32,
}

/// The monitor that decides on the size: the first primary one from `i` on, or else none.
pub open spec fn first_primary(monitors: Seq<ClientMonitor>, i: int) -> Option<ClientMonitor>
    decreases monitors.len() - i,
{
    if i >= monitors.len() {
        None
    } else if monitors[i].is_primary {
        Some(monitors[i])
    } else {
        first_primary(monitors, i + 1)
    }
}

/// The monitor that decides on the size: the first primary one, or else the first.
pub open spec fn deciding_monitor(monitors: Seq<ClientMonitor>) -> Option<ClientMonitor> {
    match first_primary(monitors, 0) {
        Some(m) => Some(m),
        None => if monitors.len() > 0 {
            Some(monitors[0])
        } else {
            None
        },
    }
}

fn find_monitor(monitors: &Vec<ClientMonitor>) -> (r: Option<ClientMonitor>)
    ensures
        r == deciding_monitor(monitors@),
{
    let mut i: usize = 0;
    while i < monitors.len()
        invariant
            i <= monitors@.len(),
            first_primary(monitors@, 0) == first_primary(monitors@, i as int),
        decreases monitors@.len() - i,
    {
        if monitors[i].is_primary {
            return Some(monitors[i]);
        }
        i += 1;
    }
    if monitors.len() > 0 {
        Some(monitors[0])
    } else {
        None
    }
}

/// A number between the limits of a display.
pub open spec fn constrained(n: int) -> int {
    if n < 200 {
        200
    } else if n > 8192 {
        8192
    } else {
        n
    }
}

/// `ironrdp_displaycontrol::pdu::MonitorLayoutEntry::adjust_display_size`: an even width and a
/// height, both between the limits of a display.
#[verifier::external_body]
fn adjust_display_size(width: u32, height: u32) -> (r: (u32, u32))
    ensures
        r.0 == constrained(width - width % 2),
        r.1 == constrained(height as int),
{
    MonitorLayoutEntry::adjust_display_size(width, height)
}

/// What becomes of a layout that the client asks for.
#[derive(Debug, Clone, Copy, PartialEq, Eq, Structural)]
pub enum LayoutDecision {
    /// The layout has no monitors.
    Empty,
    /// The size may not be changed.
    Disabled,
    /// The desktop would be too large.
    TooLarge,
    /// The size is not one of the allowed ones.
    NotAllowed,
    /// The desktop has that size already.
    Unchanged,
    /// The desktop is to get this size.
    Resize(ResizeRequest),
}

/// The size in words.
pub open spec fn size_text(width: int, height: int) -> Seq<char> {
    decimal(width as nat) + "x"@ + decimal(height as nat)
}

/// One of the texts is `t`.
pub open spec fn lists(v: Seq<String>, t: Seq<char>) -> bool {
    exists|i: int| 0 <= i < v.len() && (#[trigger] v[i])@ == t
}

fn is_listed(v: &Vec<String>, t: &str) -> (r: bool)
    ensures
        r == lists(v@, t@),
{
    let mut i: usize = 0;
    while i < v.len()
        invariant
            i <= v@.len(),
            forall|k: int| 0 <= k < i ==> (#[trigger] v@[k])@ != t@,
        decreases v@.len() - i,
    {
        if same_text(v[i].as_str(), t) {
            return true;
        }
        i += 1;
    }
    false
}

/// What becomes of a layout, given the size of the desktop where it can be read.
pub open spec fn layout_decision(
    monitors: Seq<ClientMonitor>,
    config: DisplayConfig,
    current: Option<DesktopSize>,
) -> LayoutDecision {
    match deciding_monitor(monitors) {
        None => LayoutDecision::Empty,
        Some(m) => {
            let width = constrained(m.width - m.width % 2);
            let height = constrained(m.height as int);
            if !config.allow_resize {
                LayoutDecision::Disabled
            } else if width * height > MAX_AREA {
                LayoutDecision::TooLarge
            } else if config.allowed_resolutions@.len() > 0 && !lists(
                config.allowed_resolutions@,
                size_text(width, height),
            ) {
                LayoutDecision::NotAllowed
            } else if current == Some(
                DesktopSize { width: width as u16, height: height as u16 },
            ) {
                LayoutDecision::Unchanged
            } else {
                LayoutDecision::Resize(
                    ResizeRequest { width: width as u16, height: height as u16 },
                )
            }
        },
    }
}

/// What a caller of [`LamcoDisplayHandler::updates`] has to do.
#[derive(Debug, Clone, Copy, PartialEq, Eq, Structural)]
pub struct UpdatesPlan {
    /// The client came back: everything that belonged to the connection before is reset, and
    /// the input handler is told.
    pub reconnected: bool,
    /// The size that pictures are converted for.
    pub converter_size: DesktopSize,
}

/// The display as the client sees it.
#[derive(Debug)]
pub struct LamcoDisplayHandler {
    pub size: DesktopSize,
    pub streams: Vec<StreamInfo>,
    /// Whether the connection takes events.
    pub has_event_sender: bool,
    /// Whether there is a graphics server.
    pub has_gfx_server: bool,
    pub gfx_state: Option<HandlerState>,
    /// Whether the graphics channel of the client is not set up yet.
    pub egfx_needs_init: bool,
    pub client_active: bool,
    /// Whether frames come over a channel inside the process.
    pub direct_channel_mode: bool,
    /// Whether the receiving end of the updates is still to be handed out.
    pub has_receiver: bool,
}

impl LamcoDisplayHandler {
    fn build(width: u16, height: u16, streams: Vec<StreamInfo>, direct_channel_mode: bool) -> (r:
        Self)
        ensures
            r.is_new(width, height, streams, direct_channel_mode),
    {
        LamcoDisplayHandler {
            size: DesktopSize { width, height },
            streams,
            has_event_sender: false,
            has_gfx_server: false,
            gfx_state: None,
            egfx_needs_init: true,
            client_active: false,
            direct_channel_mode,
            has_receiver: true,
        }
    }

    /// A display without a client.
    pub open spec fn is_new(
        self,
        width: u16,
        height: u16,
        streams: Vec<StreamInfo>,
        direct: bool,
    ) -> bool {
        &&& self.size == DesktopSize { width, height }
        &&& self.streams == streams
        &&& !self.has_event_sender
        &&& !self.has_gfx_server
        &&& self.gfx_state is None
        &&& self.egfx_needs_init
        &&& !self.client_active
        &&& self.direct_channel_mode == direct
        &&& self.has_receiver
    }

    /// A display whose frames come from streams, where they can be captured.
    pub fn new(
        initial_width: u16,
        initial_height: u16,
        stream_info: Vec<StreamInfo>,
        capture: CaptureStart,
    ) -> (r: Result<Self, String>)
        ensures
            match r {
                Ok(d) => capture.problem() is None && d.is_new(
                    initial_width,
                    initial_height,
                    stream_info,
                    false,
                ),
                Err(t) => capture.problem() == Some(t@),
            },
    {
        match capture.check() {
            Ok(_) => Ok(Self::build(initial_width, initial_height, stream_info, false)),
            Err(t) => Err(t),
        }
    }

    /// A display whose frames come over a channel inside the process.
    pub fn new_direct(initial_width: u16, initial_height: u16, stream_info: Vec<StreamInfo>) -> (r:
        Self)
        ensures
            r.is_new(initial_width, initial_height, stream_info, true),
    {
        Self::build(initial_width, initial_height, stream_info, true)
    }

    /// The client is gone.
    pub fn on_client_disconnect(&mut self)
        ensures
            *final(self) == (LamcoDisplayHandler { client_active: false, ..*old(self) }),
    {
        self.client_active = false;
    }

    /// Whether a client is there.
    pub fn is_client_active(&self) -> (r: bool)
        ensures
            r == self.client_active,
    {
        self.client_active
    }

    /// The connection takes events now.
    pub fn set_server_event_sender(&mut self)
        ensures
            *final(self) == (LamcoDisplayHandler { has_event_sender: true, ..*old(self) }),
    {
        self.has_event_sender = true;
    }

    /// The updates get a new channel.
    pub fn reset_update_channel(&mut self)
        ensures
            *final(self) == (LamcoDisplayHandler { has_receiver: true, ..*old(self) }),
    {
        self.has_receiver = true;
    }

    /// The graphics channel can take frames.
    pub open spec fn egfx_ready(self) -> bool {
        self.has_event_sender && self.has_gfx_server && (self.gfx_state matches Some(s)
            && s.is_ready)
    }

    /// Whether the graphics channel can take frames.
    pub fn is_egfx_ready(&self) -> (r: bool)
        ensures
            r == self.egfx_ready(),
    {
        if !self.has_event_sender || !self.has_gfx_server {
            return false;
        }
        match &self.gfx_state {
            Some(s) => s.is_ready,
            None => false,
        }
    }

    /// The client decodes H.264.
    pub open spec fn avc_supported(self) -> bool {
        self.gfx_state matches Some(s) && s.is_avc420_enabled
    }

    /// Whether the client decodes H.264.
    pub fn is_avc_supported(&self) -> (r: bool)
        ensures
            r == self.avc_supported(),
    {
        match &self.gfx_state {
            Some(s) => s.is_avc420_enabled,
            None => false,
        }
    }

    /// What the graphics channel is waiting for.
    pub open spec fn wait_reason(self) -> Seq<char> {
        if !self.has_event_sender {
            "waiting for client connection"@
        } else if !self.has_gfx_server {
            "client connected, waiting for EGFX channel"@
        } else {
            match self.gfx_state {
                None => "EGFX channel open, initializing handler state"@,
                Some(s) => if !s.is_ready {
                    "EGFX channel open, negotiating capabilities"@
                } else if !s.is_avc420_enabled {
                    "EGFX ready, no AVC420 - using bitmap fallback"@
                } else {
                    "ready"@
                },
            }
        }
    }

    /// What the graphics channel is waiting for.
    pub fn egfx_wait_reason(&self) -> (r: &'static str)
        ensures
            r@ == self.wait_reason(),
    {
        if !self.has_event_sender {
            return "waiting for client connection";
        }
        if !self.has_gfx_server {
            return "client connected, waiting for EGFX channel";
        }
        match &self.gfx_state {
            None => "EGFX channel open, initializing handler state",
            Some(s) => if !s.is_ready {
                "EGFX channel open, negotiating capabilities"
            } else if !s.is_avc420_enabled {
                "EGFX ready, no AVC420 - using bitmap fallback"
            } else {
                "ready"
            },
        }
    }

    /// Takes a new size of the desktop, and hands out the update that tells the client.
    pub fn update_size(&mut self, width: u16, height: u16) -> (r: DesktopSize)
        ensures
            r == (DesktopSize { width, height }),
            *final(self) == (LamcoDisplayHandler { size: r, ..*old(self) }),
    {
        self.size = DesktopSize { width, height };
        self.size
    }

    /// The display once a client has the updates. Where an earlier one had them, everything that
    /// belonged to it is gone.
    pub open spec fn with_client(self) -> Self {
        if self.has_receiver {
            LamcoDisplayHandler { has_receiver: false, client_active: true, ..self }
        } else {
            LamcoDisplayHandler {
                has_receiver: false,
                client_active: true,
                egfx_needs_init: true,
                gfx_state: None,
                has_gfx_server: false,
                ..self
            }
        }
    }

    /// A client wants the updates. Where an earlier one had them, everything that belonged to
    /// it is reset first.
    pub fn updates(&mut self) -> (r: UpdatesPlan)
        ensures
            r == (UpdatesPlan {
                reconnected: !old(self).has_receiver,
                converter_size: old(self).size,
            }),
            *final(self) == old(self).with_client(),
    {
        let reconnected = !self.has_receiver;
        if reconnected {
            self.egfx_needs_init = true;
            self.gfx_state = None;
            self.has_gfx_server = false;
        }
        self.client_active = true;
        self.has_receiver = false;
        UpdatesPlan { reconnected, converter_size: self.size }
    }

    /// What becomes of a layout that the client asks for. The size of the desktop may be
    /// locked just then, and is not compared in that case.
    pub fn request_layout(
        &self,
        monitors: &Vec<ClientMonitor>,
        config: &DisplayConfig,
        size_readable: bool,
    ) -> (r: LayoutDecision)
        ensures
            r == layout_decision(
                monitors@,
                *config,
                if size_readable {
                    Some(self.size)
                } else {
                    None
                },
            ),
    {
        let monitor: ClientMonitor = match find_monitor(monitors) {
            Some(m) => m,
            None => {
                return LayoutDecision::Empty;
            },
        };
        if !config.allow_resize {
            return LayoutDecision::Disabled;
        }
        let (w, h) = adjust_display_size(monitor.width, monitor.height);
        assert(0 <= w * h <= 8192 * 8192) by (nonlinear_arith)
            requires
                0 <= w <= 8192,
                0 <= h <= 8192,
        ;
        if w as u64 * h as u64 > MAX_AREA {
            return LayoutDecision::TooLarge;
        }
        let width: u16 = w as u16;
        let height: u16 = h as u16;
        if config.allowed_resolutions.len() > 0 {
            let mut target = number(width as u64);
            target.append("x");
            target.append(number(height as u64).as_str());
            if !is_listed(&config.allowed_resolutions, target.as_str()) {
                return LayoutDecision::NotAllowed;
            }
        }
        if size_readable && self.size.width == width && self.size.height == height {
            return LayoutDecision::Unchanged;
        }
        LayoutDecision::Resize(ResizeRequest { width, height })
    }
}

/// The pixel formats of converted pictures.
#[derive(Debug, Clone, Copy, PartialEq, Eq, Structural)]
pub enum RdpPixelFormat {
    BgrX32,
    Bgr24,
    Rgb16,
    Rgb15,
}

/// The pixel formats of the protocol that pictures are sent in.
#[derive(Debug, Clone, Copy, PartialEq, Eq, Structural)]
pub enum IronPixelFormat {
    BgrX32,
    XBgr32,
    XRgb32,
}

/// `ironrdp_graphics::image_processing::PixelFormat::bytes_per_pixel`: four for every format.
#[verifier::external_body]
fn format_bytes(format: IronPixelFormat) -> (r: u8)
    ensures
        r == 4,
{
    match format {
        IronPixelFormat::BgrX32 => GraphicsFormat::BgrX32,
        IronPixelFormat::XBgr32 => GraphicsFormat::XBgr32,
        IronPixelFormat::XRgb32 => GraphicsFormat::XRgb32,
    }.bytes_per_pixel()
}

impl IronPixelFormat {
    /// The bytes of a pixel.
    pub fn bytes_per_pixel(&self) -> (r: u8)
        ensures
            r == 4,
    {
        format_bytes(*self)
    }
}

impl RdpPixelFormat {
    /// The format that a picture is sent in.
    pub open spec fn sent_as(self) -> IronPixelFormat {
        match self {
            RdpPixelFormat::BgrX32 => IronPixelFormat::BgrX32,
            RdpPixelFormat::Bgr24 => IronPixelFormat::XBgr32,
            RdpPixelFormat::Rgb16 => IronPixelFormat::XRgb32,
            RdpPixelFormat::Rgb15 => IronPixelFormat::XRgb32,
        }
    }

    /// The format that a picture is sent in.
    pub fn iron_format(&self) -> (r: IronPixelFormat)
        ensures
            r == self.sent_as(),
    {
        match self {
            RdpPixelFormat::BgrX32 => IronPixelFormat::BgrX32,
            RdpPixelFormat::Bgr24 => IronPixelFormat::XBgr32,
            RdpPixelFormat::Rgb16 => IronPixelFormat::XRgb32,
            RdpPixelFormat::Rgb15 => IronPixelFormat::XRgb32,
        }
    }
}

/// A part of the desktop. The far edges do not belong to it.
#[derive(Debug, Clone, Copy, PartialEq, Eq, Structural)]
pub struct Rectangle {
    pub left: u16,
    pub top: u16,
    pub right: u16,
    pub bottom: u16,
}

impl Rectangle {
    /// A part of the desktop.
    pub fn new(left: u16, top: u16, right: u16, bottom: u16) -> (r: Self)
        ensures
            r == (Rectangle { left, top, right, bottom }),
    {
        Rectangle { left, top, right, bottom }
    }

    /// The width, which is zero where the edges are crossed.
    pub open spec fn width(self) -> int {
        if self.right > self.left {
            self.right - self.left
        } else {
            0
        }
    }

    /// The height, which is zero where the edges are crossed.
    pub open spec fn height(self) -> int {
        if self.bottom > self.top {
            self.bottom - self.top
        } else {
            0
        }
    }
}

/// A converted picture of a part of the desktop.
#[derive(Debug)]
pub struct BitmapData {
    pub rectangle: Rectangle,
    pub format: RdpPixelFormat,
    pub data: Vec<u8>,
    pub compressed: bool,
}

/// Converted pictures of the parts that changed.
#[derive(Debug)]
pub struct BitmapUpdate {
    pub rectangles: Vec<BitmapData>,
}

/// A picture as the protocol sends it.
#[derive(Debug)]
pub struct IronBitmapUpdate {
    pub x: u16,
    pub y: u16,
    /// Never zero.
    pub width: u16,
    /// Never zero.
    pub height: u16,
    pub format: IronPixelFormat,
    pub data: Vec<u8>,
    /// The bytes of a row.
    pub stride: usize,
}

impl IronBitmapUpdate {
    /// The picture that is sent for a converted one.
    pub open spec fn is_of(self, from: BitmapData) -> bool {
        &&& self.x == from.rectangle.left
        &&& self.y == from.rectangle.top
        &&& self.width == from.rectangle.width()
        &&& self.height == from.rectangle.height()
        &&& self.width > 0
        &&& self.height > 0
        &&& self.format == from.format.sent_as()
        &&& self.data@ == from.data@
        &&& self.stride == self.width * 4
    }
}

/// Why a picture cannot be sent: it has no pixels.
pub open spec fn conversion_error(from: BitmapData) -> Option<Seq<char>> {
    if from.rectangle.width() == 0 {
        Some("Invalid stride calculation: width=0"@)
    } else if from.rectangle.height() == 0 {
        Some("Invalid height: 0"@)
    } else {
        None
    }
}

/// The first picture from `i` on that cannot be sent.
pub open spec fn first_unsendable(rs: Seq<BitmapData>, i: int) -> Option<Seq<char>>
    decreases rs.len() - i,
{
    if i >= rs.len() {
        None
    } else {
        match conversion_error(rs[i]) {
            Some(e) => Some(e),
            None => first_unsendable(rs, i + 1),
        }
    }
}

fn iron_bitmap(from: &BitmapData) -> (r: Result<IronBitmapUpdate, String>)
    ensures
        match r {
            Ok(b) => b.is_of(*from) && conversion_error(*from) is None,
            Err(e) => conversion_error(*from) == Some(e@),
        },
{
    let format = from.format.iron_format();
    let width: u16 = from.rectangle.right.saturating_sub(from.rectangle.left);
    let height: u16 = from.rectangle.bottom.saturating_sub(from.rectangle.top);
    let bytes: usize = format.bytes_per_pixel() as usize;
    assert(width * bytes == width * 4) by (nonlinear_arith)
        requires
            bytes == 4,
    ;
    let stride: usize = width as usize * bytes;
    if stride == 0 {
        return Err("Invalid stride calculation: width=0".to_owned());
    }
    if height == 0 {
        return Err("Invalid height: 0".to_owned());
    }
    Ok(
        IronBitmapUpdate {
            x: from.rectangle.left,
            y: from.rectangle.top,
            width,
            height,
            format,
            data: copy_bytes(&from.data),
            stride,
        },
    )
}

fn copy_bytes(v: &Vec<u8>) -> (r: Vec<u8>)
    ensures
        r@ == v@,
{
    let r = v.clone();
    assert(r@ =~= v@);
    r
}

/// The pictures are converted in their order, or the first bad one is the reason why not.
pub open spec fn converts(
    rectangles: Seq<BitmapData>,
    r: Result<Vec<IronBitmapUpdate>, String>,
) -> bool {
    match r {
        Ok(v) => first_unsendable(rectangles, 0) is None && v@.len() == rectangles.len() && forall|
            i: int,
        |
            0 <= i < v@.len() ==> (#[trigger] v@[i]).is_of(rectangles[i]),
        Err(e) => first_unsendable(rectangles, 0) == Some(e@),
    }
}

/// The pictures as the protocol sends them, in their order, or why the first bad one cannot
/// be sent.
pub fn convert_to_iron_format(update: &BitmapUpdate) -> (r: Result<Vec<IronBitmapUpdate>, String>)
    ensures
        converts(update.rectangles@, r),
{
    let mut v: Vec<IronBitmapUpdate> = Vec::new();
    let mut i: usize = 0;
    while i < update.rectangles.len()
        invariant
            i <= update.rectangles@.len(),
            v@.len() == i,
            first_unsendable(update.rectangles@, 0) == first_unsendable(
                update.rectangles@,
                i as int,
            ),
            forall|k: int| 0 <= k < i ==> (#[trigger] v@[k]).is_of(update.rectangles@[k]),
        decreases update.rectangles@.len() - i,
    {
        match iron_bitmap(&update.rectangles[i]) {
            Ok(b) => v.push(b),
            Err(e) => {
                return Err(e);
            },
        }
        i += 1;
    }
    Ok(v)
}

/// A size that the client gets is even in width, within the limits of a display and of the
/// largest area.
pub proof fn accepted_sizes_are_valid(
    monitors: Seq<ClientMonitor>,
    config: DisplayConfig,
    current: Option<DesktopSize>,
)
    ensures
        layout_decision(monitors, config, current) matches LayoutDecision::Resize(size) ==> {
            &&& config.allow_resize
            &&& 200 <= size.width <= 8192
            &&& 200 <= size.height <= 8192
            &&& size.width % 2 == 0
            &&& size.width * size.height <= MAX_AREA
            &&& current != Some(DesktopSize { width: size.width, height: size.height })
        },
{
}

/// Asking again for a size that was granted changes nothing.
pub proof fn granted_size_is_stable(
    monitors: Seq<ClientMonitor>,
    config: DisplayConfig,
    current: Option<DesktopSize>,
)
    ensures
        layout_decision(monitors, config, current) matches LayoutDecision::Resize(size)
            ==> layout_decision(
            monitors,
            config,
            Some(DesktopSize { width: size.width, height: size.height }),
        ) == LayoutDecision::Unchanged,
{
}

/// The graphics channel is waiting for nothing exactly where it can take H.264 frames.
pub proof fn ready_reason_means_ready(handler: LamcoDisplayHandler)
    ensures
        handler.egfx_ready() && handler.avc_supported() <==> handler.wait_reason() == "ready"@,
{
    reveal_strlit("ready");
    reveal_strlit("waiting for client connection");
    reveal_strlit("client connected, waiting for EGFX channel");
    reveal_strlit("EGFX channel open, initializing handler state");
    reveal_strlit("EGFX channel open, negotiating capabilities");
    reveal_strlit("EGFX ready, no AVC420 - using bitmap fallback");
    assert("ready"@.len() == 5);
    assert("waiting for client connection"@.len() > 5);
    assert("client connected, waiting for EGFX channel"@.len() > 5);
    assert("EGFX channel open, initializing handler state"@.len() > 5);
    assert("EGFX channel open, negotiating capabilities"@.len() > 5);
    assert("EGFX ready, no AVC420 - using bitmap fallback"@.len() > 5);
}

/// The first primary monitor of the client decides on the size; where none is primary, the
/// first one does.
pub proof fn primary_monitor_decides(monitors: Seq<ClientMonitor>, i: int)
    requires
        0 <= i < monitors.len(),
    ensures
        monitors[i].is_primary && (forall|k: int|
            0 <= k < i ==> !(#[trigger] monitors[k]).is_primary) ==> deciding_monitor(monitors)
            == Some(monitors[i]),
        (forall|k: int| 0 <= k < monitors.len() ==> !(#[trigger] monitors[k]).is_primary)
            ==> deciding_monitor(monitors) == Some(monitors[0]),
{
    if monitors[i].is_primary && forall|k: int|
        0 <= k < i ==> !(#[trigger] monitors[k]).is_primary {
        lemma_first_primary(monitors, 0, i);
    }
    if forall|k: int| 0 <= k < monitors.len() ==> !(#[trigger] monitors[k]).is_primary {
        lemma_no_primary(monitors, 0);
    }
}

proof fn lemma_first_primary(monitors: Seq<ClientMonitor>, from: int, i: int)
    requires
        0 <= from <= i < monitors.len(),
        monitors[i].is_primary,
        forall|k: int| 0 <= k < i ==> !(#[trigger] monitors[k]).is_primary,
    ensures
        first_primary(monitors, from) == Some(monitors[i]),
    decreases i - from,
{
    if from < i {
        lemma_first_primary(monitors, from + 1, i);
    }
}

proof fn lemma_no_primary(monitors: Seq<ClientMonitor>, from: int)
    requires
        0 <= from <= monitors.len(),
        forall|k: int| 0 <= k < monitors.len() ==> !(#[trigger] monitors[k]).is_primary,
    ensures
        first_primary(monitors, from) is None,
    decreases monitors.len() - from,
{
    if from < monitors.len() {
        lemma_no_primary(monitors, from + 1);
    }
}

/// A layout without monitors asks for nothing, and none is granted where the size may not be
/// changed.
pub proof fn empty_and_forbidden_layouts_change_nothing(
    monitors: Seq<ClientMonitor>,
    config: DisplayConfig,
    current: Option<DesktopSize>,
)
    ensures
        monitors.len() == 0 ==> layout_decision(monitors, config, current)
            == LayoutDecision::Empty,
        monitors.len() > 0 && !config.allow_resize ==> layout_decision(monitors, config, current)
            == LayoutDecision::Disabled,
{
    if monitors.len() > 0 {
        assert(deciding_monitor(monitors) is Some);
    }
}

/// A size that a display can have is granted as it was asked for, where sizes may be changed,
/// all of them are allowed or this one is, it is not too large, and the desktop does not have
/// it already.
pub proof fn valid_sizes_are_granted(
    monitors: Seq<ClientMonitor>,
    config: DisplayConfig,
    current: Option<DesktopSize>,
    m: ClientMonitor,
)
    requires
        deciding_monitor(monitors) == Some(m),
        config.allow_resize,
        200 <= m.width <= 8192,
        200 <= m.height <= 8192,
        m.width % 2 == 0,
    ensures
        m.width * m.height > 9_216_000 ==> layout_decision(monitors, config, current)
            == LayoutDecision::TooLarge,
        m.width * m.height <= 9_216_000 && config.allowed_resolutions@.len() > 0 && !(exists|
            i: int,
        |
            0 <= i < config.allowed_resolutions@.len() && (#[trigger] config.allowed_resolutions@[
            i])@ == decimal(m.width as nat) + "x"@ + decimal(m.height as nat)) ==> layout_decision(
            monitors,
            config,
            current,
        ) == LayoutDecision::NotAllowed,
        m.width * m.height <= 9_216_000 && config.allowed_resolutions@.len() == 0 && current
            == Some(DesktopSize { width: m.width as u16, height: m.height as u16 })
            ==> layout_decision(monitors, config, current) == LayoutDecision::Unchanged,
        m.width * m.height <= 9_216_000 && config.allowed_resolutions@.len() == 0 && current
            != Some(DesktopSize { width: m.width as u16, height: m.height as u16 }) ==> (
        layout_decision(monitors, config, current) matches LayoutDecision::Resize(size)
            && size.width == m.width && size.height == m.height),
        m.width * m.height <= 9_216_000 && (exists|i: int|
            0 <= i < config.allowed_resolutions@.len() && (#[trigger] config.allowed_resolutions@[
            i])@ == decimal(m.width as nat) + "x"@ + decimal(m.height as nat)) && current is None
            ==> (layout_decision(monitors, config, current) matches LayoutDecision::Resize(size)
            && size.width == m.width && size.height == m.height),
{
}

/// A size that a display cannot have is brought to the nearest one that it can: an odd width to
/// the even one below, and what is too small or too large to the limit.
pub proof fn sizes_are_brought_in_range(
    monitors: Seq<ClientMonitor>,
    config: DisplayConfig,
    current: Option<DesktopSize>,
    m: ClientMonitor,
    size: ResizeRequest,
)
    requires
        deciding_monitor(monitors) == Some(m),
        layout_decision(monitors, config, current) == LayoutDecision::Resize(size),
    ensures
        m.width < 202 ==> size.width == 200,
        200 <= m.width <= 8192 && m.width % 2 == 0 ==> size.width == m.width,
        200 <= m.width <= 8192 && m.width % 2 == 1 ==> size.width == m.width - 1,
        m.width > 8192 ==> size.width == 8192,
        m.height < 200 ==> size.height == 200,
        200 <= m.height <= 8192 ==> size.height == m.height,
        m.height > 8192 ==> size.height == 8192,
{
}

/// A stream is opened under the name of its monitor in the size that was asked for, at sixty
/// frames a second, in three buffers of shared memory, in the format that needs no conversion.
pub proof fn streams_are_opened_as_asked_for(
    configs: Seq<(u32, StreamConfig)>,
    streams: Seq<StreamInfo>,
    i: int,
)
    requires
        opens(configs, streams),
        0 <= i < streams.len(),
    ensures
        configs.len() == streams.len(),
        configs[i].0 == streams[i].node_id,
        configs[i].1.name@ == "monitor-"@ + decimal(i as nat),
        configs[i].1.width == streams[i].width,
        configs[i].1.height == streams[i].height,
        configs[i].1.framerate == 60,
        configs[i].1.buffer_count == 3,
        configs[i].1.use_dmabuf,
        configs[i].1.preferred_format == CaptureFormat::BgrX,
{
    let (node_id, config) = configs[i];
    assert(config.is_for(i as nat, streams[i].width, streams[i].height));
}

/// A display needs all its streams: the first that could not be opened is the reason why there
/// is none, and where all were opened there is no reason.
pub proof fn displays_need_every_stream(replies: Vec<StreamReply>, i: int)
    requires
        0 <= i < replies@.len(),
        forall|k: int| 0 <= k < i ==> (#[trigger] replies@[k]) is Opened,
    ensures
        replies@[i] is Opened && (forall|k: int|
            0 <= k < replies@.len() ==> (#[trigger] replies@[k]) is Opened)
            ==> CaptureStart::Streams(replies).problem() is None,
        replies@[i] is TimedOut ==> CaptureStart::Streams(replies).problem() == Some(
            "Timeout creating stream"@,
        ),
        replies@[i] matches StreamReply::Refused(e) ==> CaptureStart::Streams(replies).problem()
            == Some("Stream creation failed: "@ + e@),
        replies@[i] matches StreamReply::NotSent(e) ==> CaptureStart::Streams(replies).problem()
            == Some("Failed to send create stream command: "@ + e@),
{
    if forall|k: int| 0 <= k < replies@.len() ==> (#[trigger] replies@[k]) is Opened {
        lemma_no_refusal(replies@, 0);
    }
    lemma_first_refusal(replies@, 0, i);
}

proof fn lemma_first_refusal(replies: Seq<StreamReply>, from: int, i: int)
    requires
        0 <= from <= i < replies.len(),
        forall|k: int| 0 <= k < i ==> (#[trigger] replies[k]) is Opened,
    ensures
        first_refusal(replies, from) == first_refusal(replies, i),
    decreases i - from,
{
    if from < i {
        assert(replies[from] is Opened);
        lemma_first_refusal(replies, from + 1, i);
    }
}

proof fn lemma_no_refusal(replies: Seq<StreamReply>, from: int)
    requires
        0 <= from <= replies.len(),
        forall|k: int| 0 <= k < replies.len() ==> (#[trigger] replies[k]) is Opened,
    ensures
        first_refusal(replies, from) is None,
    decreases replies.len() - from,
{
    if from < replies.len() {
        assert(replies[from] is Opened);
        lemma_no_refusal(replies, from + 1);
    }
}

/// The channel can take frames exactly where the connection takes events, the graphics server
/// is there and was negotiated; and H.264 frames where the client decodes them.
pub proof fn ready_channels_are_negotiated(handler: LamcoDisplayHandler)
    ensures
        handler.egfx_ready() <==> (handler.has_event_sender && handler.has_gfx_server
            && handler.gfx_state is Some && handler.gfx_state->0.is_ready),
        handler.avc_supported() <==> (handler.gfx_state is Some
            && handler.gfx_state->0.is_avc420_enabled),
        !handler.has_event_sender ==> handler.wait_reason() == "waiting for client connection"@,
        handler.has_event_sender && !handler.has_gfx_server ==> handler.wait_reason()
            == "client connected, waiting for EGFX channel"@,
        handler.has_event_sender && handler.has_gfx_server && handler.gfx_state is None
            ==> handler.wait_reason() == "EGFX channel open, initializing handler state"@,
        handler.has_event_sender && handler.has_gfx_server && handler.gfx_state is Some
            && !handler.gfx_state->0.is_ready ==> handler.wait_reason()
            == "EGFX channel open, negotiating capabilities"@,
        handler.egfx_ready() && !handler.avc_supported() ==> handler.wait_reason()
            == "EGFX ready, no AVC420 - using bitmap fallback"@,
{
}

/// The first client finds the display as it is. One that comes after another finds nothing of
/// that one's graphics channel, which has to be set up again, but the same desktop.
pub proof fn second_clients_start_afresh(handler: LamcoDisplayHandler)
    ensures
        handler.with_client().client_active,
        !handler.with_client().has_receiver,
        handler.with_client().size == handler.size,
        handler.with_client().streams == handler.streams,
        handler.with_client().direct_channel_mode == handler.direct_channel_mode,
        handler.has_receiver ==> handler.with_client().gfx_state == handler.gfx_state
            && handler.with_client().has_gfx_server == handler.has_gfx_server
            && handler.with_client().egfx_needs_init == handler.egfx_needs_init,
        !handler.has_receiver ==> handler.with_client().gfx_state is None
            && !handler.with_client().has_gfx_server && handler.with_client().egfx_needs_init,
        !handler.with_client().with_client().egfx_ready(),
{
}

/// Every picture is sent where it belongs and with its own pixels: from the near corner of its
/// rectangle to the far one, four bytes to a pixel in every row.
pub proof fn pictures_are_sent_where_they_belong(
    rectangles: Seq<BitmapData>,
    r: Result<Vec<IronBitmapUpdate>, String>,
    i: int,
)
    requires
        converts(rectangles, r),
        0 <= i < rectangles.len(),
    ensures
        r matches Ok(v) ==> {
            &&& v@.len() == rectangles.len()
            &&& v@[i].x == rectangles[i].rectangle.left
            &&& v@[i].y == rectangles[i].rectangle.top
            &&& v@[i].x + v@[i].width == rectangles[i].rectangle.right
            &&& v@[i].y + v@[i].height == rectangles[i].rectangle.bottom
            &&& v@[i].data@ == rectangles[i].data@
            &&& v@[i].stride == 4 * v@[i].width
            &&& rectangles[i].format == RdpPixelFormat::BgrX32 ==> v@[i].format
                == IronPixelFormat::BgrX32
            &&& rectangles[i].format == RdpPixelFormat::Bgr24 ==> v@[i].format
                == IronPixelFormat::XBgr32
            &&& rectangles[i].format == RdpPixelFormat::Rgb16 || rectangles[i].format
                == RdpPixelFormat::Rgb15 ==> v@[i].format == IronPixelFormat::XRgb32
        },
        rectangles[i].rectangle.right <= rectangles[i].rectangle.left
            || rectangles[i].rectangle.bottom <= rectangles[i].rectangle.top ==> r is Err,
{
    if let Ok(v) = r {
        assert(v@[i].is_of(rectangles[i]));
        lemma_all_sendable(rectangles, 0, i);
    }
}

proof fn lemma_all_sendable(rectangles: Seq<BitmapData>, from: int, i: int)
    requires
        0 <= from <= i < rectangles.len(),
        first_unsendable(rectangles, from) is None,
    ensures
        conversion_error(rectangles[i]) is None,
    decreases i - from,
{
    if from < i {
        lemma_all_sendable(rectangles, from + 1, i);
    }
}

/// Where every picture has pixels, all of them are sent.
pub proof fn pictures_with_pixels_are_sent(
    rectangles: Seq<BitmapData>,
    r: Result<Vec<IronBitmapUpdate>, String>,
)
    requires
        converts(rectangles, r),
        forall|k: int|
            0 <= k < rectangles.len() ==> (#[trigger] rectangles[k]).rectangle.left
                < rectangles[k].rectangle.right && rectangles[k].rectangle.top
                < rectangles[k].rectangle.bottom,
    ensures
        r is Ok,
{
    lemma_none_unsendable(rectangles, 0);
}

proof fn lemma_none_unsendable(rectangles: Seq<BitmapData>, from: int)
    requires
        0 <= from <= rectangles.len(),
        forall|k: int|
            0 <= k < rectangles.len() ==> (#[trigger] rectangles[k]).rectangle.left
                < rectangles[k].rectangle.right && rectangles[k].rectangle.top
                < rectangles[k].rectangle.bottom,
    ensures
        first_unsendable(rectangles, from) is None,
    decreases rectangles.len() - from,
{
    if from < rectangles.len() {
        assert(rectangles[from].rectangle.left < rectangles[from].rectangle.right);
        lemma_none_unsendable(rectangles, from + 1);
    }
}

/// A stream can be used once it was opened. Each other reply is told in its own words, with
/// the reason that came with it.
pub proof fn refused_streams_are_told(reply: StreamReply)
    ensures
        reply.refusal() is None <==> reply is Opened,
        reply is TimedOut ==> reply.refusal() == Some("Timeout creating stream"@),
        reply is NotSent ==> reply.refusal() == Some(
            "Failed to send create stream command: "@ + (reply->NotSent_0)@,
        ),
        reply is Refused ==> reply.refusal() == Some(
            "Stream creation failed: "@ + (reply->Refused_0)@,
        ),
{
}

/// The sides of a display are kept between 200 and 8192: what is between them stays, and what
/// is not becomes the nearer of the two.
pub proof fn sides_are_kept_between_limits(n: int, other: int)
    ensures
        200 <= constrained(n) <= 8192,
        200 <= n <= 8192 ==> constrained(n) == n,
        n <= 200 ==> constrained(n) == 200,
        n >= 8192 ==> constrained(n) == 8192,
        n <= other ==> constrained(n) <= constrained(other),
{
}

/// A new display has the size and the streams that it was made with, no client, and a graphics
/// channel that is yet to be set up.
pub proof fn new_displays_wait_for_a_client(
    display: LamcoDisplayHandler,
    width: u16,
    height: u16,
    streams: Vec<StreamInfo>,
    direct: bool,
)
    requires
        display.is_new(width, height, streams, direct),
    ensures
        display.size.width == width,
        display.size.height == height,
        display.streams == streams,
        display.direct_channel_mode == direct,
        !display.client_active,
        !display.has_event_sender,
        !display.has_gfx_server,
        display.gfx_state is None,
        display.egfx_needs_init,
        display.has_receiver,
{
}

/// Pictures are sent at their place and size, byte for byte, with four bytes to a pixel and
/// rows that follow one another without a gap. What has no width or no height is not sent, and
/// the missing width is told first.
pub proof fn pictures_are_sent_byte_for_byte(update: IronBitmapUpdate, from: BitmapData)
    requires
        update.is_of(from),
    ensures
        update.x == from.rectangle.left,
        update.y == from.rectangle.top,
        from.rectangle.left <= from.rectangle.right ==> update.x + update.width
            == from.rectangle.right,
        from.rectangle.top <= from.rectangle.bottom ==> update.y + update.height
            == from.rectangle.bottom,
        update.data@ == from.data@,
        update.stride == 4 * update.width,
        conversion_error(from) is None,
{
}

/// Colours keep their order: blue before red stays so, and red before blue too.
pub proof fn colours_keep_their_order(format: RdpPixelFormat)
    ensures
        format is BgrX32 ==> format.sent_as() is BgrX32,
        format is Bgr24 ==> format.sent_as() is XBgr32,
        format is Rgb16 || format is Rgb15 ==> format.sent_as() is XRgb32,
{
}

/// A picture without pixels is not sent: without a width, or else without a height.
pub proof fn empty_pictures_are_not_sent(from: BitmapData)
    ensures
        conversion_error(from) is None <==> from.rectangle.left < from.rectangle.right
            && from.rectangle.top < from.rectangle.bottom,
        from.rectangle.left >= from.rectangle.right ==> conversion_error(from) == Some(
            "Invalid stride calculation: width=0"@,
        ),
        from.rectangle.left < from.rectangle.right && from.rectangle.top >= from.rectangle.bottom
            ==> conversion_error(from) == Some("Invalid height: 0"@),
{
}

} // verus!
