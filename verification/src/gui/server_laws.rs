//! What the window promises of its server, told by what is seen before and after.

use crate::clock::Timestamp;
use crate::gui::app::{logged_all, ConfigGuiApp};
use crate::gui::changes::notified;
use crate::gui::message::{
    Action,
    ConnectionMode,
    ProcessPoll,
    ServerLogLine,
    ServerMessage,
    SpawnedServer,
};
use crate::gui::state::{AppState, LogLevel, LogLine, MessageLevel, ServerStatus};
use crate::gui::window_laws::{lemma_told, same_place, same_settings, told};
use crate::text::decimal;
use vstd::prelude::*;

verus! {

/// Starting and stopping a server is one thing, news of it another.
pub proof fn server_events_go_to_their_part(
    app: ConfigGuiApp,
    m: ServerMessage,
    now: Timestamp,
    post: ConfigGuiApp,
    action: Action,
)
    requires
        app.server_step(m, now, post, action),
    ensures
        m is StartServer || m is ServerSpawned || m is TryDbusConnect || m is StopServer
            || m is ServerStopFinished || m is RestartServer || m is ServerRespawned
            ==> app.control_step(m, now, post, action),
        m is DbusConnectResult || m is ServerConnectedDbus || m is ConnectionModeChanged
            || m is ServerStatusUpdated || m is ServerStarted || m is ServerExited
            || m is ServerLogReceived || m is ServerStartFailed || m is ServerPolled
            ==> app.news_step(m, now, post, action),
{
}

/// A server is started only where none is reached. Starting and restarting without one
/// are the same.
pub proof fn servers_are_started_once(
    app: ConfigGuiApp,
    m: ServerMessage,
    now: Timestamp,
    post: ConfigGuiApp,
    action: Action,
)
    requires
        m is StartServer || (m is RestartServer && app.server_connection is None),
        app.control_step(m, now, post, action),
    ensures
        app.server_connection is Some ==> action is Nothing && same_place(app, post)
            && post.state.server_status == app.state.server_status,
        app.server_connection is Some ==> told(
            app.state,
            post.state,
            MessageLevel::Warning,
            "Server is already running"@,
            now,
        ),
        app.server_connection is None ==> action is SpawnServer
            && post.state.server_status is Starting && post.reads_server_log,
        app.server_connection is None ==> told(
            app.state,
            post.state,
            MessageLevel::Info,
            "Starting server..."@,
            now,
        ),
        post.server_connection == app.server_connection,
        post.connection_mode == app.connection_mode,
        post.current_tab == app.current_tab,
        same_settings(app.state, post.state),
{
    reveal(ConfigGuiApp::start_step);
    reveal(AppState::with_status);
    if app.server_connection is Some {
        lemma_told(
            app.state,
            post.state,
            MessageLevel::Warning,
            "Server is already running"@,
            now,
        );
    } else {
        lemma_told(
            app.state.with_status(ServerStatus::Starting),
            post.state,
            MessageLevel::Info,
            "Starting server..."@,
            now,
        );
    }
}

/// A server that is reached is restarted: the way to it is given up, its output goes on
/// being read, and a new one is asked for.
pub proof fn reached_servers_are_restarted(
    app: ConfigGuiApp,
    now: Timestamp,
    post: ConfigGuiApp,
    action: Action,
)
    requires
        app.server_connection is Some,
        app.control_step(ServerMessage::RestartServer, now, post, action),
    ensures
        action is RespawnServer,
        post.server_connection is None,
        post.connection_mode is Disconnected,
        post.reads_server_log,
        told(app.state, post.state, MessageLevel::Info, "Restarting server..."@, now),
        post.state.server_status == app.state.server_status,
        post.current_tab == app.current_tab,
        same_settings(app.state, post.state),
{
    lemma_told(app.state, post.state, MessageLevel::Info, "Restarting server..."@, now);
}

/// A server that was started runs at its address since now, with nobody connected, and
/// is reached the way it was started.
pub proof fn started_servers_are_reached(
    app: ConfigGuiApp,
    m: ServerMessage,
    server: SpawnedServer,
    now: Timestamp,
    post: ConfigGuiApp,
    action: Action,
)
    requires
        (m is ServerSpawned && m->ServerSpawned_result == Ok::<SpawnedServer, String>(server)) || m
            == ServerMessage::ServerRespawned(Ok::<SpawnedServer, String>(server)),
        app.control_step(m, now, post, action),
    ensures
        post.server_connection == Some(server.mode),
        post.connection_mode == server.mode,
        post.reads_server_log == app.reads_server_log,
        post.state.server_status is Running,
        post.state.server_status->connections == 0,
        post.state.server_status->uptime.secs == 0,
        post.state.server_status->uptime.nanos == 0,
        post.state.server_status->address == server.address,
        post.state.messages@.len() == app.state.messages@.len() + 1,
        post.state.messages@.last().level is Success,
        m is ServerSpawned && m->sandboxed ==> action is RegisterBackgroundPortal,
        !(m is ServerSpawned && m->sandboxed) ==> action is Nothing,
        ({
            let text = post.state.messages@.last().text@;
            &&& m is ServerRespawned && server.pid is None ==> text == "Server restarted"@
            &&& m is ServerRespawned && server.pid is Some ==> text == "Server restarted (PID: "@
                + decimal((server.pid->0) as nat) + ")"@
            &&& m is ServerSpawned && server.mode is DBus ==> text
                == "Connected to server via D-Bus"@
            &&& m is ServerSpawned && server.mode is Disconnected ==> text == "Server started"@
            &&& m is ServerSpawned && server.mode is Process && server.pid is None ==> text
                == "Server started"@
            &&& m is ServerSpawned && server.mode is Process && server.pid is Some ==> text
                == "Server started (PID: "@ + decimal((server.pid->0) as nat) + ")"@
        }),
        same_settings(app.state, post.state),
{
    reveal(ConfigGuiApp::spawned_step);
    reveal(AppState::with_status);
    reveal(notified);
}

/// A server that could not be started is not reached, its output is not read, and the
/// error is shown and told.
pub proof fn failed_starts_are_told(
    app: ConfigGuiApp,
    m: ServerMessage,
    error: String,
    now: Timestamp,
    post: ConfigGuiApp,
    action: Action,
)
    requires
        (m is ServerSpawned && m->ServerSpawned_result == Err::<SpawnedServer, String>(error)) || m
            == ServerMessage::ServerRespawned(Err::<SpawnedServer, String>(error)),
        app.control_step(m, now, post, action),
    ensures
        post.state.server_status == ServerStatus::Error(error),
        !post.reads_server_log,
        post.server_connection == app.server_connection,
        post.connection_mode == app.connection_mode,
        action is Nothing,
        m is ServerSpawned ==> told(
            app.state,
            post.state,
            MessageLevel::Error,
            "Failed to start server: "@ + error@,
            now,
        ),
        m is ServerRespawned ==> told(
            app.state,
            post.state,
            MessageLevel::Error,
            "Failed to restart server: "@ + error@,
            now,
        ),
        same_settings(app.state, post.state),
{
    reveal(ConfigGuiApp::spawned_step);
    reveal(AppState::with_status);
    let failed = app.state.with_status(ServerStatus::Error(error));
    if m is ServerSpawned {
        lemma_told(
            failed,
            post.state,
            MessageLevel::Error,
            "Failed to start server: "@ + error@,
            now,
        );
    } else {
        lemma_told(
            failed,
            post.state,
            MessageLevel::Error,
            "Failed to restart server: "@ + error@,
            now,
        );
    }
}

/// A server on the bus is looked for only while none is reached, and finding one
/// connects to nothing by itself.
pub proof fn bus_servers_are_offered(
    app: ConfigGuiApp,
    m: ServerMessage,
    now: Timestamp,
    post: ConfigGuiApp,
    action: Action,
)
    requires
        m is TryDbusConnect || m is DbusConnectResult,
        app.server_step(m, now, post, action),
    ensures
        m is TryDbusConnect ==> post == app,
        m is TryDbusConnect ==> (action is TryDbus <==> app.server_connection is None),
        m is TryDbusConnect ==> (action is Nothing <==> app.server_connection is Some),
        m is DbusConnectResult ==> action is Nothing,
        m is DbusConnectResult && m->DbusConnectResult_0 is Err ==> post == app,
        m is DbusConnectResult && m->DbusConnectResult_0 is Ok ==> told(
            app.state,
            post.state,
            MessageLevel::Info,
            "D-Bus server detected - click Start to connect"@,
            now,
        ),
        same_place(app, post),
        same_settings(app.state, post.state),
{
    if m is DbusConnectResult && m->DbusConnectResult_0 is Ok {
        lemma_told(
            app.state,
            post.state,
            MessageLevel::Info,
            "D-Bus server detected - click Start to connect"@,
            now,
        );
    }
}

/// Stopping asks for it where a server is reached and warns where none is. Until it is
/// done, nothing else changes.
pub proof fn reached_servers_are_stopped(
    app: ConfigGuiApp,
    now: Timestamp,
    post: ConfigGuiApp,
    action: Action,
)
    requires
        app.control_step(ServerMessage::StopServer, now, post, action),
    ensures
        action is StopServer <==> app.server_connection is Some,
        action is Nothing <==> app.server_connection is None,
        app.server_connection is Some ==> told(
            app.state,
            post.state,
            MessageLevel::Info,
            "Stopping server..."@,
            now,
        ),
        app.server_connection is None ==> told(
            app.state,
            post.state,
            MessageLevel::Warning,
            "Server is not running"@,
            now,
        ),
        post.state.server_status == app.state.server_status,
        same_place(app, post),
        same_settings(app.state, post.state),
{
    if app.server_connection is Some {
        lemma_told(app.state, post.state, MessageLevel::Info, "Stopping server..."@, now);
    } else {
        lemma_told(app.state, post.state, MessageLevel::Warning, "Server is not running"@, now);
    }
}

/// Once stopping is over the server counts as stopped and is not reached any more, even
/// where stopping failed.
pub proof fn stopped_servers_are_let_go(
    app: ConfigGuiApp,
    result: Result<(), String>,
    mode: ConnectionMode,
    now: Timestamp,
    post: ConfigGuiApp,
    action: Action,
)
    requires
        app.server_connection == Some(mode),
        app.control_step(ServerMessage::ServerStopFinished(result), now, post, action),
    ensures
        post.server_connection is None,
        !post.reads_server_log,
        post.connection_mode is Disconnected,
        post.state.server_status is Stopped,
        result is Ok && mode is DBus ==> told(
            app.state,
            post.state,
            MessageLevel::Success,
            "Disconnected from D-Bus server"@,
            now,
        ),
        result is Ok && mode is Process ==> told(
            app.state,
            post.state,
            MessageLevel::Success,
            "Server stopped"@,
            now,
        ),
        result is Ok && mode is Disconnected ==> told(
            app.state,
            post.state,
            MessageLevel::Success,
            "Disconnected"@,
            now,
        ),
        result is Err ==> told(
            app.state,
            post.state,
            MessageLevel::Error,
            "Error stopping server: "@ + (result->Err_0)@,
            now,
        ),
        action is Nothing,
        post.current_tab == app.current_tab,
        same_settings(app.state, post.state),
{
    reveal(AppState::with_status);
    let stopped = app.state.with_status(ServerStatus::Stopped);
    let text = match result {
        Err(e) => "Error stopping server: "@ + e@,
        Ok(_) => match mode {
            ConnectionMode::DBus => "Disconnected from D-Bus server"@,
            ConnectionMode::Process => "Server stopped"@,
            ConnectionMode::Disconnected => "Disconnected"@,
        },
    };
    let level = if result is Ok {
        MessageLevel::Success
    } else {
        MessageLevel::Error
    };
    lemma_told(stopped, post.state, level, text, now);
}

/// Where no server was reached, the end of stopping changes nothing.
pub proof fn unreached_servers_stay_unreached(
    app: ConfigGuiApp,
    result: Result<(), String>,
    now: Timestamp,
    post: ConfigGuiApp,
    action: Action,
)
    requires
        app.server_connection is None,
        app.control_step(ServerMessage::ServerStopFinished(result), now, post, action),
    ensures
        post == app,
        action is Nothing,
{
}

/// A server that exited or failed is let go. It counts as stopped or as in error, and
/// what happened is told.
pub proof fn lost_servers_are_let_go(
    app: ConfigGuiApp,
    m: ServerMessage,
    now: Timestamp,
    post: ConfigGuiApp,
    action: Action,
)
    requires
        m is ServerExited || m is ServerStartFailed,
        app.news_step(m, now, post, action),
    ensures
        post.server_connection is None,
        !post.reads_server_log,
        post.connection_mode is Disconnected,
        m is ServerExited ==> post.state.server_status is Stopped,
        m is ServerStartFailed ==> post.state.server_status
            == ServerStatus::Error(m->ServerStartFailed_0),
        m is ServerStartFailed ==> told(
            app.state,
            post.state,
            MessageLevel::Error,
            "Server failed: "@ + (m->ServerStartFailed_0)@,
            now,
        ),
        m is ServerExited ==> post.state.messages@.last().level is Info,
        m is ServerExited && m->ServerExited_0 is None ==> told(
            app.state,
            post.state,
            MessageLevel::Info,
            "Server exited"@,
            now,
        ),
        action is Nothing,
        post.current_tab == app.current_tab,
        same_settings(app.state, post.state),
{
    reveal(AppState::with_status);
    match m {
        ServerMessage::ServerStartFailed(error) => {
            lemma_told(
                app.state.with_status(ServerStatus::Error(error)),
                post.state,
                MessageLevel::Error,
                "Server failed: "@ + error@,
                now,
            );
        },
        _ => {
            reveal(notified);
            if m->ServerExited_0 is None {
                lemma_told(
                    app.state.with_status(ServerStatus::Stopped),
                    post.state,
                    MessageLevel::Info,
                    "Server exited"@,
                    now,
                );
            }
        },
    }
}

/// News of the server are taken as they come: the way it is reached, its status, that
/// it started.
pub proof fn server_news_are_taken(
    app: ConfigGuiApp,
    m: ServerMessage,
    now: Timestamp,
    post: ConfigGuiApp,
    action: Action,
)
    requires
        m is ServerConnectedDbus || m is ConnectionModeChanged || m is ServerStatusUpdated
            || m is ServerStarted,
        app.news_step(m, now, post, action),
    ensures
        m is ServerConnectedDbus ==> post.connection_mode is DBus,
        m is ServerConnectedDbus ==> told(
            app.state,
            post.state,
            MessageLevel::Success,
            "Connected to server via D-Bus"@,
            now,
        ),
        m is ConnectionModeChanged ==> post.connection_mode == m->ConnectionModeChanged_0
            && post.state == app.state,
        m is ServerStatusUpdated ==> post.state.server_status == m->ServerStatusUpdated_0
            && same_place(app, post) && post.state.messages == app.state.messages,
        m is ServerStarted ==> same_place(app, post),
        m is ServerStarted ==> told(
            app.state,
            post.state,
            MessageLevel::Success,
            "Server process started (PID: "@ + decimal(m->ServerStarted_0 as nat) + ")"@,
            now,
        ),
        !(m is ServerStatusUpdated) ==> post.state.server_status == app.state.server_status,
        post.server_connection == app.server_connection,
        post.reads_server_log == app.reads_server_log,
        post.current_tab == app.current_tab,
        same_settings(app.state, post.state),
        action is Nothing,
{
    reveal(AppState::with_status);
    if m is ServerConnectedDbus {
        lemma_told(
            app.state,
            post.state,
            MessageLevel::Success,
            "Connected to server via D-Bus"@,
            now,
        );
    }
    if m is ServerStarted {
        lemma_told(
            app.state,
            post.state,
            MessageLevel::Success,
            "Server process started (PID: "@ + decimal(m->ServerStarted_0 as nat) + ")"@,
            now,
        );
    }
}

/// What the server printed reaches the log view while its output is read, and not
/// otherwise.
pub proof fn printed_lines_reach_the_log(
    app: ConfigGuiApp,
    lines: Vec<ServerLogLine>,
    process: ProcessPoll,
    now: Timestamp,
    post: ConfigGuiApp,
    action: Action,
)
    requires
        app.news_step((ServerMessage::ServerPolled { lines, process }), now, post, action),
    ensures
        !app.reads_server_log ==> post.state.log_buffer@ == app.state.log_buffer@,
        app.reads_server_log && lines@.len() == 0 ==> post.state.log_buffer@
            == app.state.log_buffer@,
        app.reads_server_log && lines@.len() > 0 && app.state.max_log_lines > 0
            && app.state.log_buffer@.len() <= app.state.max_log_lines ==> {
            &&& post.state.log_buffer@.len() > 0
            &&& post.state.log_buffer@.last().message == lines@.last().message
            &&& post.state.log_buffer@.last().level == lines@.last().level
            &&& post.state.log_buffer@.last().timestamp == lines@.last().timestamp
            &&& post.state.log_buffer@.len() <= app.state.max_log_lines
        },
        same_settings(app.state, post.state),
        action is Nothing,
{
    reveal(ConfigGuiApp::polled_step);
    reveal(AppState::with_log);
    reveal(AppState::with_status);
    reveal(notified);
    if app.reads_server_log && app.state.log_buffer@.len() <= app.state.max_log_lines {
        lemma_logged_all(app.state.log_buffer@, lines@, app.state.max_log_lines as nat);
    }
}

/// A server process that ended is let go with a warning. One that runs gets older and
/// stays as it was. A server that is no process of the window is not polled.
pub proof fn ended_processes_are_noticed(
    app: ConfigGuiApp,
    lines: Vec<ServerLogLine>,
    process: ProcessPoll,
    now: Timestamp,
    post: ConfigGuiApp,
    action: Action,
)
    requires
        app.news_step((ServerMessage::ServerPolled { lines, process }), now, post, action),
    ensures
        app.server_connection == Some(ConnectionMode::Process) && process is Exited ==> {
            &&& post.server_connection is None
            &&& !post.reads_server_log
            &&& post.connection_mode is Disconnected
            &&& post.state.server_status is Stopped
            &&& told(
                app.state,
                post.state,
                MessageLevel::Warning,
                "Server process exited unexpectedly"@,
                now,
            )
        },
        !(app.server_connection == Some(ConnectionMode::Process) && process is Exited) ==> {
            &&& same_place(app, post)
            &&& post.state.messages == app.state.messages
        },
        app.server_connection != Some(ConnectionMode::Process) ==> post.state.server_status
            == app.state.server_status,
        app.server_connection == Some(ConnectionMode::Process) && process is Running ==> {
            let before = app.state.server_status;
            let after = post.state.server_status;
            &&& !(before is Running) ==> after == before
            &&& before is Running ==> {
                &&& after is Running
                &&& after->uptime == process->uptime
                &&& after->connections == before->connections
                &&& after->address == before->address
            }
        },
        action is Nothing,
{
    reveal(ConfigGuiApp::polled_step);
    reveal(AppState::with_log);
    reveal(AppState::with_status);
    if app.server_connection == Some(ConnectionMode::Process) && process is Exited {
        let shown = app.state.with_log(post.state.log_buffer);
        lemma_told(
            shown.with_status(ServerStatus::Stopped),
            post.state,
            MessageLevel::Warning,
            "Server process exited unexpectedly"@,
            now,
        );
    }
}

/// A line of the server is logged with its level and the time at which it came.
pub proof fn received_lines_are_logged(
    app: ConfigGuiApp,
    message: String,
    level: LogLevel,
    received_at: String,
    now: Timestamp,
    post: ConfigGuiApp,
    action: Action,
)
    requires
        app.state.max_log_lines > 0,
        app.news_step((ServerMessage::ServerLogReceived { message, level, received_at }), now, post, action),
    ensures
        post.state.log_buffer@.len() > 0,
        post.state.log_buffer@.last().message == message,
        post.state.log_buffer@.last().raw == message,
        post.state.log_buffer@.last().level == level,
        post.state.log_buffer@.last().timestamp == received_at,
        post.state.messages == app.state.messages,
        same_settings(app.state, post.state),
        same_place(app, post),
        action is Nothing,
{
    reveal(AppState::with_log);
}

proof fn lemma_logged_all(lines: Seq<LogLine>, printed: Seq<ServerLogLine>, max: nat)
    requires
        lines.len() <= max,
    ensures
        logged_all(lines, printed, max).len() <= max,
        printed.len() > 0 && max > 0 ==> {
            &&& logged_all(lines, printed, max).len() > 0
            &&& logged_all(lines, printed, max).last().message == printed.last().message
            &&& logged_all(lines, printed, max).last().level == printed.last().level
            &&& logged_all(lines, printed, max).last().timestamp == printed.last().timestamp
        },
    decreases printed.len(),
{
    if printed.len() > 0 {
        lemma_logged_all(lines, printed.drop_last(), max);
    }
}

/// Printed lines reach the log view in order: in one go or in two, the view is the same.
pub proof fn printed_lines_keep_their_order(
    lines: Seq<LogLine>,
    first: Seq<ServerLogLine>,
    second: Seq<ServerLogLine>,
    max: nat,
)
    ensures
        logged_all(lines, first + second, max) == logged_all(
            logged_all(lines, first, max),
            second,
            max,
        ),
    decreases second.len(),
{
    if second.len() == 0 {
        assert(first + second =~= first);
    } else {
        assert((first + second).drop_last() =~= first + second.drop_last());
        printed_lines_keep_their_order(lines, first, second.drop_last(), max);
    }
}

/// Each printed line is logged as it was printed, behind those before it, as long as
/// there is room.
pub proof fn printed_lines_are_logged_whole(
    lines: Seq<LogLine>,
    printed: Seq<ServerLogLine>,
    max: nat,
    i: int,
)
    requires
        lines.len() + printed.len() <= max,
    ensures
        logged_all(lines, printed, max).len() == lines.len() + printed.len(),
        0 <= i < lines.len() ==> logged_all(lines, printed, max)[i] == lines[i],
        0 <= i < printed.len() ==> {
            let line = logged_all(lines, printed, max)[lines.len() + i];
            &&& line.timestamp == printed[i].timestamp
            &&& line.level == printed[i].level
            &&& line.message == printed[i].message
            &&& line.raw == printed[i].message
        },
    decreases printed.len(),
{
    if printed.len() > 0 {
        printed_lines_are_logged_whole(lines, printed.drop_last(), max, i);
    }
}

} // verus!
