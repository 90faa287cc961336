//! What every session strategy speaks of.

use crate::ids::{is_random_id, random_id, session_name};
use crate::session::strategies::portal_token::PortalSessionHandleImpl;
use crate::text::has_prefix;
use vstd::prelude::*;

verus! {

/// What the clipboard is reached by on a session of the portal. Whether the session lasts is
/// not kept here, for it may end at any time: the session itself is asked.
#[derive(Debug, Clone, Copy, PartialEq, Eq, Structural)]
pub struct ClipboardComponents {
    /// Whether the portal has a clipboard.
    pub has_manager: bool,
}

impl ClipboardComponents {
    /// Whether clipboard operations may go to a session that is now in a given state.
    pub open spec fn may_use(self, session: PortalSessionHandleImpl) -> bool {
        session.session_valid
    }

    /// Whether clipboard operations may go to the session, as it is now.
    pub fn is_session_valid(&self, session: &PortalSessionHandleImpl) -> (r: bool)
        ensures
            r == self.may_use(*session),
    {
        session.session_valid
    }
}

/// How a strategy provides the clipboard.
#[derive(Debug, Clone, Copy, PartialEq, Eq, Structural)]
pub enum ClipboardSource {
    /// Through the portal's session.
    Portal(ClipboardComponents),
    /// Through the compositor's own interface.
    Mutter,
    /// Through the data control protocol.
    DataControl,
    /// Not at all.
    Unsupported,
}

/// How captured frames are reached.
#[derive(Debug, PartialEq, Eq, Structural)]
pub enum PipeWireAccess {
    /// A connection that the portal opened.
    FileDescriptor(i32),
    /// A node of the PipeWire graph.
    NodeId(u32),
    /// A channel inside the process, which has one receiver only.
    DirectChannel,
}

impl PipeWireAccess {
    /// Another access to the same frames. A channel has none.
    pub fn duplicate(&self) -> (r: Self)
        requires
            !(self is DirectChannel),
        ensures
            r == *self,
    {
        match self {
            PipeWireAccess::FileDescriptor(fd) => PipeWireAccess::FileDescriptor(*fd),
            PipeWireAccess::NodeId(id) => PipeWireAccess::NodeId(*id),
            PipeWireAccess::DirectChannel => PipeWireAccess::DirectChannel,
        }
    }
}

/// A stream of captured frames.
#[derive(Debug, Clone, Copy, PartialEq, Eq, Structural)]
pub struct StreamInfo {
    pub node_id: u32,
    pub width: u32,
    pub height: u32,
    pub position_x: i32,
    pub position_y: i32,
}

/// What kind of session was made.
#[derive(Debug, Clone, Copy, PartialEq, Eq, Structural)]
pub enum SessionType {
    /// A session of the desktop portal.
    Portal,
    /// A session of the compositor's own interface.
    MutterDirect,
    /// The protocols of a wlroots compositor.
    WlrDirect,
    /// Emulated input through the portal.
    Libei,
    /// The embedded portal backend.
    PortalGeneric,
    /// Video without input.
    ScreenCastOnly,
}

impl SessionType {
    /// The kind as shown to the user.
    pub open spec fn text(self) -> Seq<char> {
        match self {
            SessionType::Portal => "Portal"@,
            SessionType::MutterDirect => "Mutter Direct API"@,
            SessionType::WlrDirect => "wlr-direct"@,
            SessionType::Libei => "libei/EIS"@,
            SessionType::PortalGeneric => "portal-generic (embedded)"@,
            SessionType::ScreenCastOnly => "ScreenCast-only (view-only)"@,
        }
    }

    /// The kind as shown to the user.
    pub fn to_text(&self) -> (r: String)
        ensures
            r@ == self.text(),
    {
        match self {
            SessionType::Portal => "Portal".to_owned(),
            SessionType::MutterDirect => "Mutter Direct API".to_owned(),
            SessionType::WlrDirect => "wlr-direct".to_owned(),
            SessionType::Libei => "libei/EIS".to_owned(),
            SessionType::PortalGeneric => "portal-generic (embedded)".to_owned(),
            SessionType::ScreenCastOnly => "ScreenCast-only (view-only)".to_owned(),
        }
    }
}

/// What a session says to a keysym that it cannot inject.
pub fn keysym_unavailable() -> (r: String)
    ensures
        r@ == "Keyboard keysym injection is not available for this session strategy"@,
{
    "Keyboard keysym injection is not available for this session strategy".to_owned()
}

/// How the pointer is shown.
#[derive(Debug, Clone, Copy, PartialEq, Eq, Structural)]
pub enum CursorMode {
    /// In the video.
    Embedded,
    /// As data next to the video.
    Metadata,
    /// Not at all.
    Hidden,
}

/// How a session is made.
#[derive(Debug)]
pub struct SessionConfig {
    pub session_id: String,
    pub cursor_mode: CursorMode,
    /// The monitor to capture; without one, all of them.
    pub monitor_connector: Option<String>,
    pub enable_clipboard: bool,
}

impl SessionConfig {
    /// The default settings under a given identifier.
    pub fn with_id(id: &str) -> (r: Self)
        ensures
            r.session_id@ == "lamco-rdp-"@ + id@,
            r.cursor_mode == CursorMode::Metadata,
            r.monitor_connector is None,
            r.enable_clipboard,
    {
        SessionConfig {
            session_id: session_name(id),
            cursor_mode: CursorMode::Metadata,
            monitor_connector: None,
            enable_clipboard: true,
        }
    }
}

impl Default for SessionConfig {
    /// The default settings under a random identifier.
    fn default() -> (r: Self)
        ensures
            has_prefix(r.session_id@, "lamco-rdp-"@),
            is_random_id(r.session_id@.skip("lamco-rdp-"@.len() as int)),
            r.cursor_mode == CursorMode::Metadata,
            r.monitor_connector is None,
            r.enable_clipboard,
    {
        let id = random_id();
        let r = SessionConfig::with_id(id.as_str());
        assert(r.session_id@.take("lamco-rdp-"@.len() as int) =~= "lamco-rdp-"@);
        assert(r.session_id@.skip("lamco-rdp-"@.len() as int) =~= id@);
        r
    }
}

/// Each kind of session is shown by its own name.
pub proof fn session_types_go_by_their_names(kind: SessionType)
    ensures
        kind is Portal ==> kind.text() == "Portal"@,
        kind is MutterDirect ==> kind.text() == "Mutter Direct API"@,
        kind is WlrDirect ==> kind.text() == "wlr-direct"@,
        kind is Libei ==> kind.text() == "libei/EIS"@,
        kind is PortalGeneric ==> kind.text() == "portal-generic (embedded)"@,
        kind is ScreenCastOnly ==> kind.text() == "ScreenCast-only (view-only)"@,
{
}

/// The clipboard of a portal is usable as long as its session lasts.
pub proof fn clipboards_end_with_their_session(
    clipboard: ClipboardComponents,
    session: PortalSessionHandleImpl,
)
    ensures
        clipboard.may_use(session) <==> session.session_valid,
{
}

} // verus!
