//! Sessions on wlroots compositors, through the embedded portal backend.

use crate::failure::Failure;
use crate::health::HealthEvent;
use crate::session::strategy::{ClipboardSource, CursorMode, PipeWireAccess, SessionType,
    StreamInfo};
use vstd::prelude::*;

verus! {

/// The protocols that a compositor offers.
#[derive(Debug, Clone, Copy, PartialEq, Eq, Structural)]
pub struct AvailableProtocols {
    pub ext_image_copy_capture: bool,
    pub wlr_screencopy: bool,
    pub wlr_virtual_pointer: bool,
    pub zwp_virtual_keyboard: bool,
}

/// A capture protocol.
#[derive(Debug, Clone, Copy, PartialEq, Eq, Structural)]
pub enum CaptureProtocol {
    WlrScreencopy,
    ExtImageCopyCapture,
}

/// The capture that suits a compositor.
#[derive(Debug, Clone, Copy, PartialEq, Eq, Structural)]
pub enum ProfileCaptureBackend {
    Portal,
    WlrScreencopy,
    ExtImageCopyCapture,
}

/// How capture is set up.
#[derive(Debug)]
pub struct CapturePreference {
    pub preferred: Option<CaptureProtocol>,
    pub broken_protocols: Vec<CaptureProtocol>,
    /// How long a compositor may take to answer; zero for the default.
    pub handshake_timeout_ms: u64,
}

impl CapturePreference {
    /// The older protocol is used even where the newer one is offered.
    pub open spec fn forces_wlr(self) -> bool {
        self.preferred == Some(CaptureProtocol::WlrScreencopy) || self.broken_protocols@.contains(
            CaptureProtocol::ExtImageCopyCapture,
        )
    }

    /// Capture is set up as the environment says, and where it names no protocol, as suits the
    /// compositor.
    pub open spec fn suits(
        self,
        from_env: CapturePreference,
        recommended: ProfileCaptureBackend,
        ext_capture_incomplete: bool,
    ) -> bool {
        if from_env.preferred is Some {
            self == from_env
        } else {
            &&& self.handshake_timeout_ms == from_env.handshake_timeout_ms
            &&& self.preferred == match recommended {
                ProfileCaptureBackend::WlrScreencopy => Some(CaptureProtocol::WlrScreencopy),
                ProfileCaptureBackend::ExtImageCopyCapture => Some(
                    CaptureProtocol::ExtImageCopyCapture,
                ),
                ProfileCaptureBackend::Portal => None,
            }
            &&& self.broken_protocols@ == if ext_capture_incomplete {
                from_env.broken_protocols@.push(CaptureProtocol::ExtImageCopyCapture)
            } else {
                from_env.broken_protocols@
            }
        }
    }

    /// Whether the older protocol is used even where the newer one is offered.
    pub fn force_wlr_screencopy(&self) -> (r: bool)
        ensures
            r == self.forces_wlr(),
    {
        if let Some(p) = self.preferred {
            if p == CaptureProtocol::WlrScreencopy {
                return true;
            }
        }
        let mut i: usize = 0;
        while i < self.broken_protocols.len()
            invariant
                i <= self.broken_protocols@.len(),
                forall|k: int|
                    0 <= k < i ==> #[trigger] self.broken_protocols@[k]
                        != CaptureProtocol::ExtImageCopyCapture,
            decreases self.broken_protocols@.len() - i,
        {
            if self.broken_protocols[i] == CaptureProtocol::ExtImageCopyCapture {
                assert(self.broken_protocols@[i as int] == CaptureProtocol::ExtImageCopyCapture);
                return true;
            }
            i += 1;
        }
        false
    }

    /// How long a compositor may take to answer, where that is set.
    pub open spec fn timeout(self) -> Option<u64> {
        if self.handshake_timeout_ms > 0 {
            Some(self.handshake_timeout_ms)
        } else {
            None
        }
    }

    /// How long a compositor may take to answer, where that is set.
    pub fn handshake_timeout(&self) -> (r: Option<u64>)
        ensures
            r == self.timeout(),
    {
        if self.handshake_timeout_ms > 0 {
            Some(self.handshake_timeout_ms)
        } else {
            None
        }
    }
}

/// The devices that input comes from.
#[derive(Debug, Clone, Copy, PartialEq, Eq, Structural)]
pub struct DeviceTypes {
    pub keyboard: bool,
    pub pointer: bool,
    pub touchscreen: bool,
}

/// What can be captured.
#[derive(Debug, Clone, Copy, PartialEq, Eq, Structural)]
pub enum SourceType {
    Monitor,
    Window,
    Virtual,
}

/// What the backend is asked for when a session is made.
#[derive(Debug)]
pub struct SetupPlan {
    pub session_id: String,
    /// The capture protocols to prefer and to avoid.
    pub capture: CapturePreference,
    /// Use the older capture protocol even where the newer one is offered.
    pub force_wlr_screencopy: bool,
    /// How long the compositor may take to answer, where that is set.
    pub handshake_timeout_ms: Option<u64>,
    /// Prefer the compositor's virtual devices for input.
    pub virtual_input: bool,
    /// The devices of the session's input.
    pub devices: DeviceTypes,
    /// What is captured.
    pub sources: Vec<SourceType>,
    /// How the pointer is shown.
    pub cursor: CursorMode,
}

/// The compositor can be reached and offers a capture protocol and both input protocols.
pub open spec fn suffices(protocols: Option<AvailableProtocols>) -> bool {
    protocols matches Some(p) && (p.ext_image_copy_capture || p.wlr_screencopy)
        && p.wlr_virtual_pointer && p.zwp_virtual_keyboard
}

impl SetupPlan {
    /// The plan is the one for a session: monitors with the pointer in the picture, a keyboard
    /// and a pointer but no touch screen.
    pub open spec fn is_for(
        self,
        session_id: String,
        from_env: CapturePreference,
        recommended: ProfileCaptureBackend,
        ext_capture_incomplete: bool,
        input_named_in_env: bool,
    ) -> bool {
        &&& self.session_id == session_id
        &&& self.capture.suits(from_env, recommended, ext_capture_incomplete)
        &&& self.force_wlr_screencopy == self.capture.forces_wlr()
        &&& self.handshake_timeout_ms == self.capture.timeout()
        &&& self.virtual_input == !input_named_in_env
        &&& self.devices == (DeviceTypes { keyboard: true, pointer: true, touchscreen: false })
        &&& self.sources@ == seq![SourceType::Monitor]
        &&& self.cursor == CursorMode::Embedded
    }
}

/// Makes sessions through the embedded portal backend.
#[derive(Debug, Clone, Copy, PartialEq, Eq, Structural)]
pub struct PortalGenericStrategy {}

impl PortalGenericStrategy {
    /// The strategy.
    pub fn new() -> (r: Self)
        ensures
            r == (PortalGenericStrategy {  }),
    {
        PortalGenericStrategy {  }
    }

    /// Whether the compositor can be reached and offers a capture protocol and both input
    /// protocols.
    pub fn is_available(protocols: Option<AvailableProtocols>) -> (r: bool)
        ensures
            r == suffices(protocols),
    {
        match protocols {
            None => false,
            Some(p) => {
                let has_capture = p.ext_image_copy_capture || p.wlr_screencopy;
                let has_input = p.wlr_virtual_pointer && p.zwp_virtual_keyboard;
                has_capture && has_input
            },
        }
    }

    /// How capture is set up: as the environment says, and where it names no protocol, as suits
    /// the compositor.
    pub fn build_capture_preferences(
        from_env: CapturePreference,
        recommended: ProfileCaptureBackend,
        ext_capture_incomplete: bool,
    ) -> (r: CapturePreference)
        ensures
            r.suits(from_env, recommended, ext_capture_incomplete),
            from_env.preferred is None && ext_capture_incomplete ==> r.forces_wlr(),
    {
        let mut prefs = from_env;
        if prefs.preferred.is_none() {
            prefs.preferred = match recommended {
                ProfileCaptureBackend::WlrScreencopy => Some(CaptureProtocol::WlrScreencopy),
                ProfileCaptureBackend::ExtImageCopyCapture => Some(
                    CaptureProtocol::ExtImageCopyCapture,
                ),
                ProfileCaptureBackend::Portal => None,
            };
            if ext_capture_incomplete {
                prefs.broken_protocols.push(CaptureProtocol::ExtImageCopyCapture);
                assert(prefs.broken_protocols@.last() == CaptureProtocol::ExtImageCopyCapture);
            }
        }
        prefs
    }

    /// What the backend is asked for: monitors are captured with the pointer in the picture, and
    /// input comes from a keyboard and a pointer but no touch screen. The virtual devices are
    /// preferred where the environment names no input protocol.
    pub fn plan_session(
        session_id: String,
        from_env: CapturePreference,
        recommended: ProfileCaptureBackend,
        ext_capture_incomplete: bool,
        input_named_in_env: bool,
    ) -> (r: SetupPlan)
        ensures
            r.is_for(session_id, from_env, recommended, ext_capture_incomplete, input_named_in_env),
    {
        let capture = PortalGenericStrategy::build_capture_preferences(
            from_env,
            recommended,
            ext_capture_incomplete,
        );
        let force_wlr_screencopy = capture.force_wlr_screencopy();
        let handshake_timeout_ms: Option<u64> = capture.handshake_timeout();
        let sources: Vec<SourceType> = vec![SourceType::Monitor];
        assert(sources@ =~= seq![SourceType::Monitor]);
        SetupPlan {
            session_id,
            capture,
            force_wlr_screencopy,
            handshake_timeout_ms,
            virtual_input: overrides_input_protocol(input_named_in_env),
            devices: DeviceTypes { keyboard: true, pointer: true, touchscreen: false },
            sources,
            cursor: CursorMode::Embedded,
        }
    }

    /// The strategy's name.
    pub fn name(&self) -> (r: &'static str)
        ensures
            r@ == "portal-generic"@,
    {
        "portal-generic"
    }

    /// Whether the user has to agree at first, which is not so.
    pub fn requires_initial_setup(&self) -> (r: bool)
        ensures
            !r,
    {
        false
    }

    /// Whether a session can be restored without the user, which is so.
    pub fn supports_unattended_restore(&self) -> (r: bool)
        ensures
            r,
    {
        true
    }
}

/// A stage of making a session.
#[derive(Debug, Clone, Copy, PartialEq, Eq, Structural)]
pub enum SetupStage {
    /// Connect to the compositor.
    Connect,
    /// Start the frame delivery.
    PipeWire,
    /// Find an input protocol.
    InputBackend,
    /// Make a keyboard and a pointer.
    InputContext,
    /// Find a capture protocol.
    CaptureBackend,
    /// List the monitors.
    Sources,
    /// Capture the monitors, with the pointer in the picture.
    CaptureSession,
    /// Find a clipboard protocol, which may be missing.
    Clipboard,
    Done,
}

impl SetupStage {
    /// The stage that follows. Without monitors nothing is captured.
    pub open spec fn following(self, has_sources: bool) -> SetupStage {
        match self {
            SetupStage::Connect => SetupStage::PipeWire,
            SetupStage::PipeWire => SetupStage::InputBackend,
            SetupStage::InputBackend => SetupStage::InputContext,
            SetupStage::InputContext => SetupStage::CaptureBackend,
            SetupStage::CaptureBackend => SetupStage::Sources,
            SetupStage::Sources => if has_sources {
                SetupStage::CaptureSession
            } else {
                SetupStage::Clipboard
            },
            SetupStage::CaptureSession => SetupStage::Clipboard,
            SetupStage::Clipboard | SetupStage::Done => SetupStage::Done,
        }
    }

    /// The stage that follows.
    pub fn next(&self, has_sources: bool) -> (r: SetupStage)
        ensures
            r == self.following(has_sources),
    {
        match self {
            SetupStage::Connect => SetupStage::PipeWire,
            SetupStage::PipeWire => SetupStage::InputBackend,
            SetupStage::InputBackend => SetupStage::InputContext,
            SetupStage::InputContext => SetupStage::CaptureBackend,
            SetupStage::CaptureBackend => SetupStage::Sources,
            SetupStage::Sources => if has_sources {
                SetupStage::CaptureSession
            } else {
                SetupStage::Clipboard
            },
            SetupStage::CaptureSession => SetupStage::Clipboard,
            SetupStage::Clipboard | SetupStage::Done => SetupStage::Done,
        }
    }

    /// Why no session can be made where the stage fails with an error: a message, and the error
    /// as its cause where the message does not hold it.
    pub open spec fn error(self, e: Seq<char>) -> Option<(Seq<char>, Option<Seq<char>>)> {
        match self {
            SetupStage::Connect => Some(("Failed to connect to Wayland display"@, Some(e))),
            SetupStage::PipeWire => Some(("Failed to start PipeWire manager"@, Some(e))),
            SetupStage::InputBackend => Some(("Input backend: "@ + e, None)),
            SetupStage::InputContext => Some(("Input context: "@ + e, None)),
            SetupStage::CaptureBackend => Some(("Capture backend: "@ + e, None)),
            SetupStage::Sources => Some(("Get sources: "@ + e, None)),
            SetupStage::CaptureSession => Some(("Create capture session: "@ + e, None)),
            SetupStage::Clipboard | SetupStage::Done => None,
        }
    }

    /// Why no session can be made where the stage fails. A missing clipboard is no reason.
    pub fn failure(&self, e: &str) -> (r: Option<Failure>)
        ensures
            match self.error(e@) {
                Some((message, cause)) => r matches Some(f) && f.is(message, cause),
                None => r is None,
            },
    {
        let start: &'static str = match self {
            SetupStage::Connect => {
                return Some(
                    Failure::caused_by(
                        "Failed to connect to Wayland display".to_owned(),
                        e.to_owned(),
                    ),
                );
            },
            SetupStage::PipeWire => {
                return Some(
                    Failure::caused_by(
                        "Failed to start PipeWire manager".to_owned(),
                        e.to_owned(),
                    ),
                );
            },
            SetupStage::InputBackend => "Input backend: ",
            SetupStage::InputContext => "Input context: ",
            SetupStage::CaptureBackend => "Capture backend: ",
            SetupStage::Sources => "Get sources: ",
            SetupStage::CaptureSession => "Create capture session: ",
            SetupStage::Clipboard | SetupStage::Done => {
                return None;
            },
        };
        let mut text = start.to_owned();
        text.append(e);
        Some(Failure::new(text))
    }
}

/// A stream as the capture names it.
#[derive(Debug, Clone, Copy)]
pub struct CapturedStream {
    pub node_id: u32,
    pub size: (u32, u32),
    pub position: (i32, i32),
}

impl CapturedStream {
    /// The stream as sessions name it.
    pub open spec fn info(self) -> StreamInfo {
        let (width, height) = self.size;
        let (position_x, position_y) = self.position;
        StreamInfo { node_id: self.node_id, width, height, position_x, position_y }
    }
}

/// The streams as sessions name them, in their order.
pub open spec fn infos(captured: Seq<CapturedStream>) -> Seq<StreamInfo> {
    captured.map_values(|s: CapturedStream| s.info())
}

/// The streams as sessions name them, in their order.
pub fn stream_infos(captured: &Vec<CapturedStream>) -> (r: Vec<StreamInfo>)
    ensures
        r@ == infos(captured@),
{
    let mut r: Vec<StreamInfo> = Vec::new();
    let mut i: usize = 0;
    while i < captured.len()
        invariant
            i <= captured@.len(),
            r@ =~= captured@.take(i as int).map_values(|s: CapturedStream| s.info()),
        decreases captured@.len() - i,
    {
        let s: CapturedStream = captured[i];
        let (width, height) = s.size;
        let (position_x, position_y) = s.position;
        r.push(StreamInfo { node_id: s.node_id, width, height, position_x, position_y });
        i += 1;
    }
    assert(captured@.take(i as int) =~= captured@);
    r
}

/// Whether the input protocol is set to the virtual devices: where the environment names none.
pub fn overrides_input_protocol(named_in_env: bool) -> (r: bool)
    ensures
        r == !named_in_env,
{
    !named_in_env
}

/// The time of an event in microseconds: since the epoch, or zero before it. Times beyond the
/// range of the number wrap.
pub open spec fn micros(since_epoch: Option<(u64, u32)>) -> u64 {
    match since_epoch {
        None => 0,
        Some((secs, nanos)) => (secs * 1_000_000 + nanos / 1000) as u64,
    }
}

/// The time of an event in microseconds: since the epoch, or zero before it. Times beyond the
/// range of the number wrap.
pub fn current_time_usec(since_epoch: Option<(u64, u32)>) -> (r: u64)
    ensures
        r == micros(since_epoch),
{
    match since_epoch {
        None => 0,
        Some((secs, nanos)) => {
            let micros: u128 = secs as u128 * 1_000_000 + (nanos / 1000) as u128;
            #[verifier::truncate]
            (micros as u64)
        },
    }
}

/// An event to inject.
#[derive(Debug, Clone, Copy, PartialEq, Eq, Structural)]
pub enum InjectedEvent {
    Keyboard { keycode: u32, pressed: bool, time_usec: u64 },
    Button { button: u32, pressed: bool, time_usec: u64 },
}

/// What could not be injected.
#[derive(Debug, Clone, Copy, PartialEq, Eq, Structural)]
pub enum Injection {
    Keyboard,
    PointerMotion,
    PointerButton,
    PointerAxis,
}

impl Injection {
    /// Why an event was not injected.
    pub open spec fn failure(self, poisoned: bool, e: Seq<char>) -> Seq<char> {
        (if poisoned {
            "Input backend lock poisoned: "@
        } else {
            match self {
                Injection::Keyboard => "Keyboard inject: "@,
                Injection::PointerMotion => "Pointer motion inject: "@,
                Injection::PointerButton => "Pointer button inject: "@,
                Injection::PointerAxis => "Pointer axis inject: "@,
            }
        }) + e
    }
}

/// Why an event was not injected: its backend is broken, or it refused.
pub fn injection_error(what: Injection, poisoned: bool, e: &str) -> (r: String)
    ensures
        r@ == what.failure(poisoned, e@),
{
    let mut r = if poisoned {
        "Input backend lock poisoned: ".to_owned()
    } else {
        match what {
            Injection::Keyboard => "Keyboard inject: ".to_owned(),
            Injection::PointerMotion => "Pointer motion inject: ".to_owned(),
            Injection::PointerButton => "Pointer button inject: ".to_owned(),
            Injection::PointerAxis => "Pointer axis inject: ".to_owned(),
        }
    };
    r.append(e);
    r
}

/// A session through the embedded portal backend.
#[derive(Debug)]
pub struct PortalGenericSessionHandle {
    pub session_id: String,
    pub stream_list: Vec<StreamInfo>,
    pub has_clipboard: bool,
    /// Whether the frame channel was not handed out yet.
    pub has_frames: bool,
}

/// The first stream from `i` on with the given node, if any.
pub open spec fn stream_of(streams: Seq<StreamInfo>, node_id: u32, i: int) -> Option<StreamInfo>
    decreases streams.len() - i,
{
    if i >= streams.len() {
        None
    } else if streams[i].node_id == node_id {
        Some(streams[i])
    } else {
        stream_of(streams, node_id, i + 1)
    }
}

impl PortalGenericSessionHandle {
    /// A session under a name, on the streams that are captured.
    pub fn new(session_id: String, captured: &Vec<CapturedStream>, has_clipboard: bool) -> (r: Self)
        ensures
            r.session_id == session_id,
            r.stream_list@ == infos(captured@),
            r.has_clipboard == has_clipboard,
            r.has_frames,
    {
        PortalGenericSessionHandle {
            session_id,
            stream_list: stream_infos(captured),
            has_clipboard,
            has_frames: true,
        }
    }

    /// The node of the first stream, or zero where there is none.
    pub open spec fn first_node(self) -> u32 {
        if self.stream_list@.len() > 0 {
            self.stream_list@[0].node_id
        } else {
            0
        }
    }

    /// How frames are reached: over the frame channel, which is handed out once, and else
    /// through the first node. The channel needs a thread that forwards frames; without it the
    /// channel is lost.
    pub fn pipewire_access(&mut self, forwarding: bool) -> (r: PipeWireAccess)
        ensures
            r == old(self).access(forwarding),
            *final(self) == (PortalGenericSessionHandle { has_frames: false, ..*old(self) }),
    {
        let had_frames = self.has_frames;
        self.has_frames = false;
        if had_frames && forwarding {
            return PipeWireAccess::DirectChannel;
        }
        let node_id: u32 = if self.stream_list.len() > 0 {
            self.stream_list[0].node_id
        } else {
            0
        };
        PipeWireAccess::NodeId(node_id)
    }

    /// The session's streams.
    pub fn streams(&self) -> (r: &Vec<StreamInfo>)
        ensures
            r@ == self.stream_list@,
    {
        &self.stream_list
    }

    /// The session's kind.
    pub fn session_type(&self) -> (r: SessionType)
        ensures
            r == SessionType::PortalGeneric,
    {
        SessionType::PortalGeneric
    }

    /// The event for a key.
    pub fn notify_keyboard_keycode(&self, keycode: i32, pressed: bool, time_usec: u64) -> (r:
        InjectedEvent)
        ensures
            r == (InjectedEvent::Keyboard { keycode: keycode as u32, pressed, time_usec }),
    {
        InjectedEvent::Keyboard {
            keycode: #[verifier::truncate] (keycode as u32),
            pressed,
            time_usec,
        }
    }

    /// The event for a button.
    pub fn notify_pointer_button(&self, button: i32, pressed: bool, time_usec: u64) -> (r:
        InjectedEvent)
        ensures
            r == (InjectedEvent::Button { button: button as u32, pressed, time_usec }),
    {
        InjectedEvent::Button {
            button: #[verifier::truncate] (button as u32),
            pressed,
            time_usec,
        }
    }

    /// The stream that a position is on: the named one, or else the first.
    pub open spec fn pointer_stream(self, stream_id: u32) -> Option<StreamInfo> {
        match stream_of(self.stream_list@, stream_id, 0) {
            Some(s) => Some(s),
            None => if self.stream_list@.len() > 0 {
                Some(self.stream_list@[0])
            } else {
                None
            },
        }
    }

    /// The size that a position is divided by, never zero. Positions inside the unit square are
    /// fractions already and are not divided.
    pub open spec fn scale(self, stream_id: u32, beyond_unit: bool) -> Option<(u32, u32)> {
        match self.pointer_stream(stream_id) {
            Some(s) => if beyond_unit {
                Some(
                    (
                        if s.width > 0 {
                            s.width
                        } else {
                            1
                        },
                        if s.height > 0 {
                            s.height
                        } else {
                            1
                        },
                    ),
                )
            } else {
                None
            },
            None => None,
        }
    }

    /// How frames are reached: over the frame channel where it is left and forwarded, and else
    /// through the first node.
    pub open spec fn access(self, forwarding: bool) -> PipeWireAccess {
        if self.has_frames && forwarding {
            PipeWireAccess::DirectChannel
        } else {
            PipeWireAccess::NodeId(self.first_node())
        }
    }

    /// The size that a position is divided by, never zero. Positions inside the unit square are
    /// fractions already and are not divided.
    pub fn pointer_scale(&self, stream_id: u32, beyond_unit: bool) -> (r: Option<(u32, u32)>)
        ensures
            r == self.scale(stream_id, beyond_unit),
    {
        if !beyond_unit {
            return None;
        }
        let n: usize = self.stream_list.len();
        let mut i: usize = 0;
        while i < n && self.stream_list[i].node_id != stream_id
            invariant
                n == self.stream_list@.len(),
                i <= n,
                stream_of(self.stream_list@, stream_id, 0) == stream_of(
                    self.stream_list@,
                    stream_id,
                    i as int,
                ),
            decreases n - i,
        {
            i += 1;
        }
        if n == 0 {
            return None;
        }
        let stream: StreamInfo = if i < n {
            self.stream_list[i]
        } else {
            self.stream_list[0]
        };
        let width: u32 = if stream.width > 0 {
            stream.width
        } else {
            1
        };
        let height: u32 = if stream.height > 0 {
            stream.height
        } else {
            1
        };
        Some((width, height))
    }

    /// How the clipboard is reached.
    pub fn clipboard_source(&self) -> (r: ClipboardSource)
        ensures
            r == if self.has_clipboard {
                ClipboardSource::DataControl
            } else {
                ClipboardSource::Unsupported
            },
    {
        if self.has_clipboard {
            ClipboardSource::DataControl
        } else {
            ClipboardSource::Unsupported
        }
    }
}

/// What the health monitor is told when the session ends.
pub fn session_dropped() -> (r: HealthEvent)
    ensures
        r matches HealthEvent::SessionClosed { reason } && reason@
            == "portal-generic session dropped"@,
{
    HealthEvent::SessionClosed { reason: "portal-generic session dropped".to_owned() }
}

/// A session is made in at most eight stages, whether there are monitors or not.
pub proof fn setup_ends(has_sources: bool)
    ensures
        SetupStage::Connect.following(has_sources).following(has_sources).following(
            has_sources,
        ).following(has_sources).following(has_sources).following(has_sources).following(
            has_sources,
        ).following(has_sources) == SetupStage::Done,
{
}

/// A session is set up in one order: the connection, the frame delivery, input, then capture,
/// and the clipboard last. Where there is nothing to capture, no capture is started.
pub proof fn setup_keeps_its_order(has_sources: bool)
    ensures
        SetupStage::Connect.following(has_sources) == SetupStage::PipeWire,
        SetupStage::PipeWire.following(has_sources) == SetupStage::InputBackend,
        SetupStage::InputBackend.following(has_sources) == SetupStage::InputContext,
        SetupStage::InputContext.following(has_sources) == SetupStage::CaptureBackend,
        SetupStage::CaptureBackend.following(has_sources) == SetupStage::Sources,
        SetupStage::Sources.following(true) == SetupStage::CaptureSession,
        SetupStage::Sources.following(false) == SetupStage::Clipboard,
        SetupStage::CaptureSession.following(has_sources) == SetupStage::Clipboard,
        SetupStage::Clipboard.following(has_sources) == SetupStage::Done,
        SetupStage::Done.following(has_sources) == SetupStage::Done,
{
}

/// A session can do without a clipboard, and without nothing else. Every other stage that fails
/// ends the setup, with its error in the message or beside it.
pub proof fn only_the_clipboard_may_be_missing(stage: SetupStage, e: Seq<char>)
    ensures
        stage.error(e) is None <==> stage == SetupStage::Clipboard || stage == SetupStage::Done,
        stage == SetupStage::Connect || stage == SetupStage::PipeWire ==> (
        stage.error(e) matches Some(p) && p.1 == Some(e)),
        stage.error(e) matches Some(p) ==> p.1 == Some(e) || exists|start: Seq<char>|
            p.0 == #[trigger] (start + e),
        SetupStage::InputBackend.error(e) == Some(
            ("Input backend: "@ + e, None::<Seq<char>>),
        ),
        SetupStage::InputContext.error(e) == Some(
            ("Input context: "@ + e, None::<Seq<char>>),
        ),
        SetupStage::CaptureBackend.error(e) == Some(
            ("Capture backend: "@ + e, None::<Seq<char>>),
        ),
        SetupStage::Sources.error(e) == Some(("Get sources: "@ + e, None::<Seq<char>>)),
        SetupStage::CaptureSession.error(e) == Some(
            ("Create capture session: "@ + e, None::<Seq<char>>),
        ),
{
}

/// What the environment says of capture stands; only where it names no protocol does the
/// compositor's own profile decide, and then a capture that is known to be incomplete is
/// avoided too.
pub proof fn environment_comes_before_the_profile(
    prefs: CapturePreference,
    from_env: CapturePreference,
    recommended: ProfileCaptureBackend,
    incomplete: bool,
)
    requires
        prefs.suits(from_env, recommended, incomplete),
    ensures
        from_env.preferred is Some ==> prefs == from_env,
        prefs.handshake_timeout_ms == from_env.handshake_timeout_ms,
        from_env.preferred is None && recommended == ProfileCaptureBackend::WlrScreencopy
            ==> prefs.preferred == Some(CaptureProtocol::WlrScreencopy),
        from_env.preferred is None && recommended == ProfileCaptureBackend::ExtImageCopyCapture
            ==> prefs.preferred == Some(CaptureProtocol::ExtImageCopyCapture),
        from_env.preferred is None && recommended == ProfileCaptureBackend::Portal
            ==> prefs.preferred is None,
        from_env.preferred is None && incomplete ==> prefs.broken_protocols@.contains(
            CaptureProtocol::ExtImageCopyCapture,
        ) && prefs.broken_protocols@.len() == from_env.broken_protocols@.len() + 1,
        from_env.preferred is None && !incomplete ==> prefs.broken_protocols@
            == from_env.broken_protocols@,
{
    if from_env.preferred is None && incomplete {
        assert(prefs.broken_protocols@.last() == CaptureProtocol::ExtImageCopyCapture);
    }
}

/// The older protocol is forced exactly where it is preferred or the newer one is broken, and
/// a time to answer is set exactly where it is not zero.
pub proof fn broken_capture_is_avoided(prefs: CapturePreference, i: int)
    ensures
        prefs.preferred == Some(CaptureProtocol::WlrScreencopy) ==> prefs.forces_wlr(),
        0 <= i < prefs.broken_protocols@.len() && prefs.broken_protocols@[i]
            == CaptureProtocol::ExtImageCopyCapture ==> prefs.forces_wlr(),
        prefs.preferred != Some(CaptureProtocol::WlrScreencopy) && prefs.broken_protocols@.len()
            == 0 ==> !prefs.forces_wlr(),
        prefs.handshake_timeout_ms == 0 ==> prefs.timeout() is None,
        prefs.handshake_timeout_ms > 0 ==> prefs.timeout() == Some(prefs.handshake_timeout_ms),
{
}

/// A session captures monitors with the pointer in the picture and takes keys and a pointer,
/// but no touch; the virtual devices are used unless the environment names an input protocol.
pub proof fn sessions_are_planned_alike(
    plan: SetupPlan,
    session_id: String,
    from_env: CapturePreference,
    recommended: ProfileCaptureBackend,
    incomplete: bool,
    named: bool,
)
    requires
        plan.is_for(session_id, from_env, recommended, incomplete, named),
    ensures
        plan.session_id == session_id,
        plan.sources@.len() == 1 && plan.sources@[0] == SourceType::Monitor,
        plan.cursor == CursorMode::Embedded,
        plan.devices.keyboard && plan.devices.pointer && !plan.devices.touchscreen,
        named ==> !plan.virtual_input,
        !named ==> plan.virtual_input,
        plan.capture.preferred == Some(CaptureProtocol::WlrScreencopy)
            ==> plan.force_wlr_screencopy,
        from_env.handshake_timeout_ms > 0 ==> plan.handshake_timeout_ms == Some(
            from_env.handshake_timeout_ms,
        ),
        from_env.handshake_timeout_ms == 0 ==> plan.handshake_timeout_ms is None,
{
}

/// The backend can be used with either capture protocol, but needs both input protocols and a
/// compositor that can be reached.
pub proof fn either_capture_will_do(p: AvailableProtocols)
    ensures
        !suffices(None),
        !p.wlr_virtual_pointer ==> !suffices(Some(p)),
        !p.zwp_virtual_keyboard ==> !suffices(Some(p)),
        !p.ext_image_copy_capture && !p.wlr_screencopy ==> !suffices(Some(p)),
        p.wlr_virtual_pointer && p.zwp_virtual_keyboard && p.ext_image_copy_capture ==> suffices(
            Some(p),
        ),
        p.wlr_virtual_pointer && p.zwp_virtual_keyboard && p.wlr_screencopy ==> suffices(Some(p)),
{
}

/// Streams keep their order, nodes, sizes and positions.
pub proof fn captured_streams_are_kept(captured: Seq<CapturedStream>, i: int)
    requires
        0 <= i < captured.len(),
    ensures
        infos(captured).len() == captured.len(),
        infos(captured)[i].node_id == captured[i].node_id,
        infos(captured)[i].width == captured[i].size.0,
        infos(captured)[i].height == captured[i].size.1,
        infos(captured)[i].position_x == captured[i].position.0,
        infos(captured)[i].position_y == captured[i].position.1,
{
}

proof fn lemma_stream_of(streams: Seq<StreamInfo>, node_id: u32, from: int, i: int)
    requires
        0 <= from <= i < streams.len(),
        streams[i].node_id == node_id,
        forall|k: int| 0 <= k < i ==> (#[trigger] streams[k]).node_id != node_id,
    ensures
        stream_of(streams, node_id, from) == Some(streams[i]),
    decreases i - from,
{
    if from < i {
        lemma_stream_of(streams, node_id, from + 1, i);
    }
}

proof fn lemma_no_stream(streams: Seq<StreamInfo>, node_id: u32, from: int)
    requires
        0 <= from <= streams.len(),
        forall|k: int| 0 <= k < streams.len() ==> (#[trigger] streams[k]).node_id != node_id,
    ensures
        stream_of(streams, node_id, from) is None,
    decreases streams.len() - from,
{
    if from < streams.len() {
        lemma_no_stream(streams, node_id, from + 1);
    }
}

/// A position beyond the unit square is divided by the size of the stream that it names: of the
/// first stream with that node, or of the first stream where none has it. A size of zero counts
/// as one. Positions inside the unit square are not divided.
pub proof fn positions_are_scaled_to_their_stream(
    session: PortalGenericSessionHandle,
    stream_id: u32,
    i: int,
)
    requires
        0 <= i < session.stream_list@.len(),
        session.stream_list@[i].width > 0,
        session.stream_list@[i].height > 0,
    ensures
        session.scale(stream_id, false) is None,
        session.stream_list@[i].node_id == stream_id && (forall|k: int|
            0 <= k < i ==> (#[trigger] session.stream_list@[k]).node_id != stream_id)
            ==> session.scale(stream_id, true) == Some(
            (session.stream_list@[i].width, session.stream_list@[i].height),
        ),
        i == 0 && (forall|k: int|
            0 <= k < session.stream_list@.len() ==> (#[trigger] session.stream_list@[k]).node_id
                != stream_id) ==> session.scale(stream_id, true) == Some(
            (session.stream_list@[0].width, session.stream_list@[0].height),
        ),
        session.scale(stream_id, true) matches Some(p) ==> p.0 >= 1 && p.1 >= 1,
{
    if session.stream_list@[i].node_id == stream_id && forall|k: int|
        0 <= k < i ==> (#[trigger] session.stream_list@[k]).node_id != stream_id {
        lemma_stream_of(session.stream_list@, stream_id, 0, i);
    }
    if forall|k: int|
        0 <= k < session.stream_list@.len() ==> (#[trigger] session.stream_list@[k]).node_id
            != stream_id {
        lemma_no_stream(session.stream_list@, stream_id, 0);
    }
}

/// Frames are reached over the channel the first time, as long as it is forwarded, and through
/// the first stream's node after that; without streams there is no node.
pub proof fn frame_channel_is_used_once(session: PortalGenericSessionHandle, forwarding: bool)
    ensures
        session.has_frames && forwarding ==> session.access(forwarding)
            == PipeWireAccess::DirectChannel,
        !session.has_frames && session.stream_list@.len() > 0 ==> session.access(forwarding)
            == PipeWireAccess::NodeId(session.stream_list@[0].node_id),
        !forwarding && session.stream_list@.len() > 0 ==> session.access(forwarding)
            == PipeWireAccess::NodeId(session.stream_list@[0].node_id),
        !forwarding && session.stream_list@.len() == 0 ==> session.access(forwarding)
            == PipeWireAccess::NodeId(0),
{
}

/// Times are counted in microseconds.
pub proof fn times_are_in_microseconds(secs: u64, nanos: u32)
    requires
        secs < 0x1000_0000_0000,
    ensures
        micros(Some((secs, nanos))) == 1_000_000 * secs + nanos / 1000,
        micros(None) == 0,
{
}

/// What went wrong with an injection is told with its reason. A broken backend is told in the
/// same words whatever was to be injected, and a refusal in words of its own.
pub proof fn failed_injections_are_told(what: Injection, other: Injection, e: Seq<char>)
    ensures
        what.failure(true, e) == other.failure(true, e),
        what.failure(true, e) == "Input backend lock poisoned: "@ + e,
        what is Keyboard ==> what.failure(false, e) == "Keyboard inject: "@ + e,
        what is PointerMotion ==> what.failure(false, e) == "Pointer motion inject: "@ + e,
        what is PointerButton ==> what.failure(false, e) == "Pointer button inject: "@ + e,
        what is PointerAxis ==> what.failure(false, e) == "Pointer axis inject: "@ + e,
{
}

} // verus!
