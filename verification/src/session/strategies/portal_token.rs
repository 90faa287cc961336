//! Sessions of the desktop portal, restored by a token.

use crate::health::HealthEvent;
use crate::session::strategy::{ClipboardComponents, ClipboardSource, PipeWireAccess, SessionType,
    StreamInfo};
use crate::text::{contains_text, has_part, part_at};
use vstd::prelude::*;

verus! {

/// An operation on the portal's session.
#[derive(Debug, Clone, Copy, PartialEq, Eq, Structural)]
pub enum InputOperation {
    KeyboardKeycode,
    KeyboardKeysym,
    /// Reaching the portal for a keysym.
    KeyboardKeysymProxy,
    PointerMotion,
    PointerButton,
    PointerAxis,
}

impl InputOperation {
    /// The operation's name.
    pub open spec fn text(self) -> Seq<char> {
        match self {
            InputOperation::KeyboardKeycode => "keyboard keycode"@,
            InputOperation::KeyboardKeysym => "keyboard keysym"@,
            InputOperation::KeyboardKeysymProxy => "keyboard keysym proxy"@,
            InputOperation::PointerMotion => "pointer motion"@,
            InputOperation::PointerButton => "pointer button"@,
            InputOperation::PointerAxis => "pointer axis"@,
        }
    }

    fn name(&self) -> (r: &'static str)
        ensures
            r@ == self.text(),
    {
        match self {
            InputOperation::KeyboardKeycode => "keyboard keycode",
            InputOperation::KeyboardKeysym => "keyboard keysym",
            InputOperation::KeyboardKeysymProxy => "keyboard keysym proxy",
            InputOperation::PointerMotion => "pointer motion",
            InputOperation::PointerButton => "pointer button",
            InputOperation::PointerAxis => "pointer axis",
        }
    }

    /// Why the operation is refused on a session that is gone.
    pub open spec fn refusal(self) -> Seq<char> {
        match self {
            InputOperation::KeyboardKeycode =>
                "Portal session invalid — cannot send keyboard event"@,
            InputOperation::KeyboardKeysym | InputOperation::KeyboardKeysymProxy =>
                "Portal session invalid — cannot send keyboard keysym"@,
            InputOperation::PointerMotion =>
                "Portal session invalid — cannot send pointer motion"@,
            InputOperation::PointerButton =>
                "Portal session invalid — cannot send pointer button"@,
            InputOperation::PointerAxis => "Portal session invalid — cannot send pointer axis"@,
        }
    }

    fn refuse(&self) -> (r: String)
        ensures
            r@ == self.refusal(),
    {
        match self {
            InputOperation::KeyboardKeycode =>
                "Portal session invalid — cannot send keyboard event".to_owned(),
            InputOperation::KeyboardKeysym | InputOperation::KeyboardKeysymProxy =>
                "Portal session invalid — cannot send keyboard keysym".to_owned(),
            InputOperation::PointerMotion =>
                "Portal session invalid — cannot send pointer motion".to_owned(),
            InputOperation::PointerButton =>
                "Portal session invalid — cannot send pointer button".to_owned(),
            InputOperation::PointerAxis =>
                "Portal session invalid — cannot send pointer axis".to_owned(),
        }
    }
}

/// The message says that the compositor no longer knows the session.
pub open spec fn session_is_gone(msg: Seq<char>) -> bool {
    ||| has_part(msg, "non-existing session"@)
    ||| has_part(msg, "non existing session"@)
    ||| has_part(msg, "Invalid session"@)
    ||| has_part(msg, "UnknownObject"@)
}

/// What follows from an operation that failed.
#[derive(Debug)]
pub struct InputFailure {
    /// What the health monitor is told.
    pub event: HealthEvent,
    /// What the caller is told.
    pub message: String,
}

impl InputFailure {
    /// What follows from an operation that failed with a message.
    pub open spec fn is_for(self, msg: Seq<char>, operation: InputOperation) -> bool {
        if session_is_gone(msg) {
            &&& self.event matches HealthEvent::SessionInvalidated { reason } && reason@
                == "D-Bus error during "@ + operation.text() + ": "@ + msg
            &&& self.message@ == "Portal session destroyed: "@ + msg
        } else {
            &&& self.event matches HealthEvent::InputFailed { reason, permanent } && reason@
                == operation.text() + ": "@ + msg && !permanent
            &&& self.message@ == "Failed to inject "@ + operation.text() + " via Portal: "@ + msg
        }
    }
}

/// A session of the desktop portal.
#[derive(Debug)]
pub struct PortalSessionHandleImpl {
    pub pipewire_fd: i32,
    pub stream_list: Vec<StreamInfo>,
    /// Whether the portal has a clipboard.
    pub has_clipboard: bool,
    pub kind: SessionType,
    /// Whether the compositor still knows the session.
    pub session_valid: bool,
}

impl PortalSessionHandleImpl {
    /// A session that only injects input.
    pub fn from_portal_session(has_clipboard: bool) -> (r: Self)
        ensures
            r.pipewire_fd == 0,
            r.stream_list@.len() == 0,
            r.has_clipboard == has_clipboard,
            r.kind == SessionType::Portal,
            r.session_valid,
    {
        PortalSessionHandleImpl {
            pipewire_fd: 0,
            stream_list: Vec::new(),
            has_clipboard,
            kind: SessionType::Portal,
            session_valid: true,
        }
    }

    /// The session after it ended.
    pub open spec fn ended(self) -> Self {
        PortalSessionHandleImpl { session_valid: false, ..self }
    }

    /// The compositor closed the session. Hands out what the health monitor is told.
    pub fn session_closed(&mut self) -> (r: HealthEvent)
        ensures
            *final(self) == old(self).ended(),
            r matches HealthEvent::SessionClosed { reason } && reason@
                == "Portal Closed signal received from compositor"@,
    {
        self.session_valid = false;
        HealthEvent::SessionClosed {
            reason: "Portal Closed signal received from compositor".to_owned(),
        }
    }

    /// The portal is about to be asked to close the session: from now on no operation is let
    /// through.
    pub fn begin_close(&mut self)
        ensures
            *final(self) == old(self).ended(),
    {
        self.session_valid = false;
    }

    /// Takes how the portal answered when it was asked to close the session, and hands a
    /// failure on. The session is gone either way.
    pub fn close_portal_session(&mut self, answer: Result<(), String>) -> (r: Result<(), String>)
        ensures
            *final(self) == old(self).ended(),
            r == answer,
    {
        self.session_valid = false;
        answer
    }

    /// The session after an operation failed with a message.
    pub open spec fn after_error(self, msg: Seq<char>) -> Self {
        PortalSessionHandleImpl {
            session_valid: self.session_valid && !session_is_gone(msg),
            ..self
        }
    }

    /// Takes an operation that failed. A message that says so means that the session is gone.
    pub fn handle_input_error(&mut self, error: &str, operation: InputOperation) -> (r:
        InputFailure)
        ensures
            r.is_for(error@, operation),
            *final(self) == old(self).after_error(error@),
    {
        if contains_text(error, "non-existing session") || contains_text(
            error,
            "non existing session",
        ) || contains_text(error, "Invalid session") || contains_text(error, "UnknownObject") {
            self.session_valid = false;
            let mut reason = "D-Bus error during ".to_owned();
            reason.append(operation.name());
            reason.append(": ");
            reason.append(error);
            let mut message = "Portal session destroyed: ".to_owned();
            message.append(error);
            InputFailure { event: HealthEvent::SessionInvalidated { reason }, message }
        } else {
            let mut reason = operation.name().to_owned();
            reason.append(": ");
            reason.append(error);
            let mut message = "Failed to inject ".to_owned();
            message.append(operation.name());
            message.append(" via Portal: ");
            message.append(error);
            InputFailure { event: HealthEvent::InputFailed { reason, permanent: false }, message }
        }
    }

    /// Whether an operation may go to the portal, and else why not.
    pub fn check_session(&self, operation: InputOperation) -> (r: Result<(), String>)
        ensures
            match r {
                Ok(_) => self.session_valid,
                Err(t) => !self.session_valid && t@ == operation.refusal(),
            },
    {
        if self.session_valid {
            Ok(())
        } else {
            Err(operation.refuse())
        }
    }

    /// How frames are reached.
    pub fn pipewire_access(&self) -> (r: PipeWireAccess)
        ensures
            r == PipeWireAccess::FileDescriptor(self.pipewire_fd),
    {
        PipeWireAccess::FileDescriptor(self.pipewire_fd)
    }

    /// The session's streams.
    pub fn streams(&self) -> (r: &Vec<StreamInfo>)
        ensures
            r@ == self.stream_list@,
    {
        &self.stream_list
    }

    /// The session's kind.
    pub fn session_type(&self) -> (r: SessionType)
        ensures
            r == self.kind,
    {
        self.kind
    }

    /// How the clipboard is reached: through the session, as long as it is valid.
    pub open spec fn clipboard(self) -> ClipboardSource {
        if self.session_valid {
            ClipboardSource::Portal(ClipboardComponents { has_manager: self.has_clipboard })
        } else {
            ClipboardSource::Unsupported
        }
    }

    /// How the clipboard is reached: through the session, as long as it is valid.
    pub fn clipboard_source(&self) -> (r: ClipboardSource)
        ensures
            r == self.clipboard(),
    {
        if self.session_valid {
            ClipboardSource::Portal(ClipboardComponents { has_manager: self.has_clipboard })
        } else {
            ClipboardSource::Unsupported
        }
    }
}

/// Makes sessions of the desktop portal and restores them by a token.
#[derive(Debug, Clone, Copy, PartialEq, Eq, Structural)]
pub struct PortalTokenStrategy {
    /// Whether the desktop keeps sessions.
    pub session_persistence: bool,
}

impl PortalTokenStrategy {
    /// The strategy on a desktop.
    pub fn new(session_persistence: bool) -> (r: Self)
        ensures
            r.session_persistence == session_persistence,
    {
        PortalTokenStrategy { session_persistence }
    }

    /// The strategy's name.
    pub fn name(&self) -> (r: &'static str)
        ensures
            r@ == "Portal + Restore Token"@,
    {
        "Portal + Restore Token"
    }

    /// Whether the user has to agree at first, which is so.
    pub fn requires_initial_setup(&self) -> (r: bool)
        ensures
            r,
    {
        true
    }

    /// Whether a session can be restored without the user.
    pub fn supports_unattended_restore(&self) -> (r: bool)
        ensures
            r == self.session_persistence,
    {
        self.session_persistence
    }
}

/// A session that is gone stays gone, whatever fails on it afterwards; and one that failure
/// leaves valid was named by none of them as gone.
pub proof fn gone_sessions_stay_gone(
    session: PortalSessionHandleImpl,
    first: Seq<char>,
    second: Seq<char>,
)
    ensures
        session.after_error(first).after_error(second).session_valid <==> session.session_valid
            && !session_is_gone(first) && !session_is_gone(second),
{
}

/// The clipboard of a session ends with the session, for those too that were handed its parts
/// before: it may be used as long as the session was valid then and nothing that failed since
/// named it as gone, and never after the session was closed.
pub proof fn clipboard_ends_with_session(
    parts: ClipboardComponents,
    session: PortalSessionHandleImpl,
    msg: Seq<char>,
)
    ensures
        parts.may_use(session.after_error(msg)) <==> parts.may_use(session) && !session_is_gone(
            msg,
        ),
        !parts.may_use(session.ended()),
{
}

/// A message that names the session as gone in one of its four ways ends it, wherever in the
/// message the words stand; the monitor is told that it is invalid, and the caller that it was
/// destroyed.
pub proof fn lost_sessions_are_noticed(
    session: PortalSessionHandleImpl,
    before: Seq<char>,
    after: Seq<char>,
)
    ensures
        !session.after_error(before + "non-existing session"@ + after).session_valid,
        !session.after_error(before + "non existing session"@ + after).session_valid,
        !session.after_error(before + "Invalid session"@ + after).session_valid,
        !session.after_error(before + "UnknownObject"@ + after).session_valid,
{
    let a = before + "non-existing session"@ + after;
    let b = before + "non existing session"@ + after;
    let c = before + "Invalid session"@ + after;
    let d = before + "UnknownObject"@ + after;
    let i = before.len() as int;
    assert(a.subrange(i, i + "non-existing session"@.len()) =~= "non-existing session"@);
    assert(part_at(a, "non-existing session"@, i));
    assert(b.subrange(i, i + "non existing session"@.len()) =~= "non existing session"@);
    assert(part_at(b, "non existing session"@, i));
    assert(c.subrange(i, i + "Invalid session"@.len()) =~= "Invalid session"@);
    assert(part_at(c, "Invalid session"@, i));
    assert(d.subrange(i, i + "UnknownObject"@.len()) =~= "UnknownObject"@);
    assert(part_at(d, "UnknownObject"@, i));
}

/// Any other failure leaves the session as it is, is told to the monitor as one that may pass,
/// and to the caller with the name of the operation.
pub proof fn other_failures_leave_the_session(
    session: PortalSessionHandleImpl,
    msg: Seq<char>,
    operation: InputOperation,
    failure: InputFailure,
)
    requires
        failure.is_for(msg, operation),
        !has_part(msg, "non-existing session"@),
        !has_part(msg, "non existing session"@),
        !has_part(msg, "Invalid session"@),
        !has_part(msg, "UnknownObject"@),
    ensures
        session.after_error(msg) == session,
        failure.event matches HealthEvent::InputFailed { reason, permanent } && !permanent
            && reason@ == operation.text() + ": "@ + msg,
        failure.message@ == "Failed to inject "@ + operation.text() + " via Portal: "@ + msg,
{
}

/// What a lost session is reported with: the operation that showed it, and the message.
pub proof fn lost_sessions_are_reported(
    msg: Seq<char>,
    operation: InputOperation,
    failure: InputFailure,
)
    requires
        failure.is_for(msg, operation),
        has_part(msg, "non-existing session"@) || has_part(msg, "non existing session"@)
            || has_part(msg, "Invalid session"@) || has_part(msg, "UnknownObject"@),
    ensures
        failure.event matches HealthEvent::SessionInvalidated { reason } && reason@
            == "D-Bus error during "@ + operation.text() + ": "@ + msg,
        failure.message@ == "Portal session destroyed: "@ + msg,
{
}

/// Every operation goes by its own name.
pub proof fn operations_go_by_their_names()
    ensures
        InputOperation::KeyboardKeycode.text() == "keyboard keycode"@,
        InputOperation::KeyboardKeysym.text() == "keyboard keysym"@,
        InputOperation::KeyboardKeysymProxy.text() == "keyboard keysym proxy"@,
        InputOperation::PointerMotion.text() == "pointer motion"@,
        InputOperation::PointerButton.text() == "pointer button"@,
        InputOperation::PointerAxis.text() == "pointer axis"@,
{
}

/// A session that ended stays what it was but for its validity, and ending it again changes
/// nothing.
pub proof fn ended_sessions_keep_their_streams(session: PortalSessionHandleImpl, msg: Seq<char>)
    ensures
        !session.ended().session_valid,
        session.ended().stream_list == session.stream_list,
        session.ended().pipewire_fd == session.pipewire_fd,
        session.ended().has_clipboard == session.has_clipboard,
        session.ended().kind == session.kind,
        session.ended().ended() == session.ended(),
        session.ended().after_error(msg) == session.ended(),
        session.after_error(msg).stream_list == session.stream_list,
{
}

/// The clipboard goes through a valid session, with a manager where the portal has one; once
/// the session ended there is none.
pub proof fn clipboard_goes_through_the_session(session: PortalSessionHandleImpl)
    ensures
        session.session_valid ==> (session.clipboard() matches ClipboardSource::Portal(parts)
            && parts.has_manager == session.has_clipboard && parts.may_use(session)),
        session.ended().clipboard() == ClipboardSource::Unsupported,
{
}

/// An operation on a session that is gone is refused in words that name it.
pub proof fn refusals_name_the_operation(operation: InputOperation)
    ensures
        operation is KeyboardKeycode ==> operation.refusal()
            == "Portal session invalid — cannot send keyboard event"@,
        operation is KeyboardKeysym || operation is KeyboardKeysymProxy ==> operation.refusal()
            == "Portal session invalid — cannot send keyboard keysym"@,
        operation is PointerMotion ==> operation.refusal()
            == "Portal session invalid — cannot send pointer motion"@,
        operation is PointerButton ==> operation.refusal()
            == "Portal session invalid — cannot send pointer button"@,
        operation is PointerAxis ==> operation.refusal()
            == "Portal session invalid — cannot send pointer axis"@,
{
}

} // verus!
