//! What the session manager's commands ask for.

use crate::gui::state::LogLevel;
use crate::sesman::config::SessionSize;
use crate::sesman::session::{EnsureOptions, SessionHealth, SessionStatus};
use vstd::prelude::*;

verus! {

/// What a client may say about itself.
#[derive(Debug)]
pub struct ClientRequest {
    pub width: Option<u32>,
    pub height: Option<u32>,
    pub client: Option<String>,
}

/// A command.
#[derive(Debug)]
pub enum SesmanCommand {
    /// Start a session unless a healthy one exists.
    Ensure { restart: bool, request: ClientRequest },
    /// Start a session anew.
    Start(ClientRequest),
    /// Reuse a healthy session and note the client.
    Reconnect(ClientRequest),
    Status,
    Stop,
    /// Stop the session and start it again.
    Restart(ClientRequest),
    /// Make sure that a session exists and watch it.
    Run { restart: bool, poll_seconds: u64, request: ClientRequest },
    GenerateConfig,
}

/// The size that a client asked for; a single dimension asks for none.
pub open spec fn asked_size(width: Option<u32>, height: Option<u32>) -> Option<SessionSize> {
    match (width, height) {
        (Some(width), Some(height)) => Some(SessionSize { width, height }),
        _ => None,
    }
}

/// The size that a client asked for.
pub fn requested_size(width: Option<u32>, height: Option<u32>) -> (r: Option<SessionSize>)
    ensures
        r == asked_size(width, height),
{
    match (width, height) {
        (Some(width), Some(height)) => Some(SessionSize { width, height }),
        _ => None,
    }
}

/// The request for a session that a command makes, if it makes one.
pub open spec fn command_options(command: SesmanCommand) -> Option<EnsureOptions> {
    match command {
        SesmanCommand::Ensure { restart, request } => Some(request_options(restart, request)),
        SesmanCommand::Start(request) => Some(request_options(true, request)),
        SesmanCommand::Restart(request) => Some(request_options(true, request)),
        SesmanCommand::Reconnect(request) => Some(request_options(false, request)),
        SesmanCommand::Run { restart, poll_seconds, request } => Some(
            request_options(restart, request),
        ),
        _ => None,
    }
}

/// The request of a client.
pub open spec fn request_options(restart: bool, request: ClientRequest) -> EnsureOptions {
    EnsureOptions {
        force_restart: restart,
        requested_size: asked_size(request.width, request.height),
        client_peer: request.client,
    }
}

fn options_of(restart: bool, request: ClientRequest) -> (r: EnsureOptions)
    ensures
        r == request_options(restart, request),
{
    EnsureOptions {
        force_restart: restart,
        requested_size: requested_size(request.width, request.height),
        client_peer: request.client,
    }
}

/// The request for a session that a command makes, if it makes one.
pub fn ensure_options(command: SesmanCommand) -> (r: Option<EnsureOptions>)
    ensures
        r == command_options(command),
{
    match command {
        SesmanCommand::Ensure { restart, request } => Some(options_of(restart, request)),
        SesmanCommand::Start(request) => Some(options_of(true, request)),
        SesmanCommand::Restart(request) => Some(options_of(true, request)),
        SesmanCommand::Reconnect(request) => Some(options_of(false, request)),
        SesmanCommand::Run { restart, poll_seconds: _, request } => Some(
            options_of(restart, request),
        ),
        _ => None,
    }
}

/// How many seconds to wait between two looks at a watched session: at least one.
pub fn poll_interval(poll_seconds: u64) -> (r: u64)
    ensures
        r == (if poll_seconds == 0 {
            1
        } else {
            poll_seconds
        }),
        r >= 1,
        poll_seconds >= 1 ==> r == poll_seconds,
{
    if poll_seconds == 0 {
        1
    } else {
        poll_seconds
    }
}

/// A watched session is still to be watched. Anything but health ends it.
pub open spec fn is_watched(status: SessionStatus) -> bool {
    status.health == SessionHealth::Healthy
}

/// Whether a watched session is still to be watched. Anything but health ends it.
pub fn keep_watching(status: &SessionStatus) -> (r: bool)
    ensures
        r == is_watched(*status),
{
    status.health == SessionHealth::Healthy
}

/// How much to log, by how often more was asked for.
pub open spec fn level_for(verbose: u8) -> LogLevel {
    if verbose == 0 {
        LogLevel::Warn
    } else if verbose == 1 {
        LogLevel::Info
    } else {
        LogLevel::Debug
    }
}

/// How much to log, by how often more was asked for.
pub fn log_level(verbose: u8) -> (r: LogLevel)
    ensures
        r == level_for(verbose),
{
    match verbose {
        0 => LogLevel::Warn,
        1 => LogLevel::Info,
        _ => LogLevel::Debug,
    }
}

/// `start` and `restart` are the same as `ensure --restart`, and `reconnect` is the same as
/// `ensure`.
pub proof fn commands_are_aliases(request: ClientRequest)
    ensures
        command_options(SesmanCommand::Start(request)) == command_options(
            SesmanCommand::Ensure { restart: true, request },
        ),
        command_options(SesmanCommand::Restart(request)) == command_options(
            SesmanCommand::Ensure { restart: true, request },
        ),
        command_options(SesmanCommand::Reconnect(request)) == command_options(
            SesmanCommand::Ensure { restart: false, request },
        ),
{
}

/// Watching ends as soon as a component is dead or the session is gone, and not before.
pub proof fn watching_ends_with_health(status: SessionStatus)
    ensures
        status.health == SessionHealth::Healthy ==> is_watched(status),
        status.health == SessionHealth::Degraded || status.health == SessionHealth::Dead
            || status.health == SessionHealth::Missing ==> !is_watched(status),
{
}

/// A command that asks for a session hands on the client as it is, and its size where both
/// dimensions are given. Starting and restarting force a restart, reconnecting does not, and the
/// others do as they are told.
pub proof fn commands_hand_on_the_client(request: ClientRequest, restart: bool, poll_seconds: u64)
    ensures
        command_options(SesmanCommand::Start(request)) matches Some(o) && o.force_restart
            && o.client_peer == request.client,
        command_options(SesmanCommand::Restart(request)) matches Some(o) && o.force_restart
            && o.client_peer == request.client,
        command_options(SesmanCommand::Reconnect(request)) matches Some(o) && !o.force_restart
            && o.client_peer == request.client,
        command_options(SesmanCommand::Ensure { restart, request }) matches Some(o)
            && o.force_restart == restart && o.client_peer == request.client && (o.requested_size
            is Some <==> request.width is Some && request.height is Some),
        command_options(SesmanCommand::Run { restart, poll_seconds, request }) matches Some(o)
            && o.force_restart == restart && o.client_peer == request.client && (o.requested_size
            is Some <==> request.width is Some && request.height is Some),
        command_options(SesmanCommand::Status) is None,
        command_options(SesmanCommand::Stop) is None,
        command_options(SesmanCommand::GenerateConfig) is None,
{
}

/// A size needs both dimensions, and has them as they were given.
pub proof fn sizes_need_both_dimensions(width: u32, height: u32)
    ensures
        asked_size(Some(width), Some(height)) matches Some(s) && s.width == width && s.height
            == height,
        asked_size(Some(width), None) is None,
        asked_size(None, Some(height)) is None,
        asked_size(None, None) is None,
{
}

/// Warnings are always logged, information where more is asked for once, and details where it
/// is asked for again.
pub proof fn asking_more_logs_more(verbose: u8)
    ensures
        level_for(verbose) is Warn <==> verbose == 0,
        level_for(verbose) is Info <==> verbose == 1,
        level_for(verbose) is Debug <==> verbose >= 2,
{
}

/// A request carries the client and whether to restart, and a size only where both sides of it
/// are given.
pub proof fn requests_carry_what_was_asked(restart: bool, request: ClientRequest)
    ensures
        ({
            let options = request_options(restart, request);
            &&& options.force_restart == restart
            &&& options.client_peer == request.client
            &&& options.requested_size is Some <==> request.width is Some && request.height is Some
            &&& options.requested_size is Some ==> options.requested_size->0.width
                == request.width->0 && options.requested_size->0.height == request.height->0
        }),
{
}

} // verus!
