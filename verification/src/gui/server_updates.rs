//! Starting, stopping and following the server.

use crate::clock::{Span, Timestamp};
use crate::gui::app::{
    exit_notice,
    exit_text,
    fresh_status,
    join2,
    join3,
    logged_all,
    restart_notice,
    restart_text,
    start_notice,
    start_text,
    stop_notice,
    stop_text,
    ConfigGuiApp,
};
use crate::gui::changes::notified;
use crate::gui::message::{
    Action,
    ConnectionMode,
    ProcessPoll,
    ServerLogLine,
    ServerMessage,
    SpawnedServer,
};
use crate::gui::state::{logged, AppState, LogLine, MessageLevel, ServerStatus};
use crate::text::{decimal, number};
use vstd::prelude::*;

verus! {

impl ServerStatus {
    /// The status with another uptime, if the server is running.
    pub open spec fn aged(self, uptime: Span) -> ServerStatus {
        match self {
            ServerStatus::Running { connections, uptime: _, address } => ServerStatus::Running {
                connections,
                uptime,
                address,
            },
            other => other,
        }
    }
}

impl AppState {
    /// The state with other lines in the log view.
    #[verifier::opaque]
    pub open spec fn with_log(self, lines: Vec<LogLine>) -> AppState {
        AppState { log_buffer: lines, ..self }
    }

    /// Adds a line to the log view.
    pub fn log(&mut self, line: LogLine)
        ensures
            *final(self) == old(self).with_log(final(self).log_buffer),
            final(self).log_buffer@ == logged(
                old(self).log_buffer@,
                line,
                old(self).max_log_lines as nat,
            ),
            final(self).config == old(self).config,
            final(self).server_status == old(self).server_status,
    {
        self.add_log_line(line);
        reveal(AppState::with_log);
    }

    /// Adds the lines that the server printed to the log view.
    pub fn log_printed(&mut self, printed: Vec<ServerLogLine>)
        ensures
            *final(self) == old(self).with_log(final(self).log_buffer),
            final(self).log_buffer@ == logged_all(
                old(self).log_buffer@,
                printed@,
                old(self).max_log_lines as nat,
            ),
            final(self).config == old(self).config,
            final(self).server_status == old(self).server_status,
    {
        let ghost before = *self;
        let mut i: usize = 0;
        assert(printed@.take(0) =~= Seq::<ServerLogLine>::empty());
        assert(*self == before.with_log(self.log_buffer)) by {
            reveal(AppState::with_log);
        }
        while i < printed.len()
            invariant
                i <= printed@.len(),
                *self == before.with_log(self.log_buffer),
                self.log_buffer@ == logged_all(
                    before.log_buffer@,
                    printed@.take(i as int),
                    before.max_log_lines as nat,
                ),
            decreases printed@.len() - i,
        {
            let line = LogLine {
                timestamp: printed[i].timestamp.clone(),
                level: printed[i].level,
                message: printed[i].message.clone(),
                raw: printed[i].message.clone(),
            };
            let ghost current = *self;
            assert(current.max_log_lines == before.max_log_lines) by {
                reveal(AppState::with_log);
            }
            self.log(line);
            assert(printed@.take(i + 1).drop_last() =~= printed@.take(i as int));
            assert(printed@.take(i + 1).last() == printed@[i as int]);
            assert(*self == before.with_log(self.log_buffer)) by {
                reveal(AppState::with_log);
            }
            i += 1;
        }
        assert(printed@.take(i as int) =~= printed@);
        reveal(AppState::with_log);
    }

    /// Records how long the server has been running.
    pub fn age(&mut self, uptime: Span)
        ensures
            *final(self) == old(self).with_status(old(self).server_status.aged(uptime)),
            final(self).config == old(self).config,
    {
        match &mut self.server_status {
            ServerStatus::Running { connections: _, uptime: current, address: _ } => {
                *current = uptime;
            },
            _ => {},
        }
        reveal(AppState::with_status);
    }
}

impl ConfigGuiApp {
    fn set_link(
        &mut self,
        connection: Option<ConnectionMode>,
        reads_log: bool,
        mode: ConnectionMode,
    )
        ensures
            *final(self) == old(self).with_link(connection, reads_log, mode),
    {
        self.server_connection = connection;
        self.reads_server_log = reads_log;
        self.connection_mode = mode;
    }

    /// Starting the server: refused while one is reached.
    #[verifier::opaque]
    pub open spec fn start_step(
        self,
        now: Timestamp,
        post: ConfigGuiApp,
        action: Action,
    ) -> bool {
        let s = self.state;
        let p = post.state;
        if self.server_connection is Some {
            &&& action == Action::Nothing
            &&& post == self.with_state(p)
            &&& notified(s, p, MessageLevel::Warning, "Server is already running"@, now)
        } else {
            &&& action == Action::SpawnServer
            &&& post == self.with_link(None, true, self.connection_mode).with_state(p)
            &&& notified(
                s.with_status(ServerStatus::Starting),
                p,
                MessageLevel::Info,
                "Starting server..."@,
                now,
            )
        }
    }

    fn start(&mut self, now: Timestamp) -> (action: Action)
        requires
            old(self).wf(),
        ensures
            final(self).wf(),
            old(self).start_step(now, *final(self), action),
    {
        reveal(ConfigGuiApp::start_step);
        if self.server_connection.is_some() {
            self.state.notify(MessageLevel::Warning, "Server is already running".to_owned(), now);
            return Action::Nothing;
        }
        self.state.set_status(ServerStatus::Starting);
        self.state.notify(MessageLevel::Info, "Starting server...".to_owned(), now);
        self.reads_server_log = true;
        Action::SpawnServer
    }

    /// What a started server, or one that could not be started, changes.
    #[verifier::opaque]
    pub open spec fn spawned_step(
        self,
        result: Result<SpawnedServer, String>,
        notice: Seq<char>,
        failure: Seq<char>,
        now: Timestamp,
        post: ConfigGuiApp,
    ) -> bool {
        let s = self.state;
        let p = post.state;
        match result {
            Ok(server) => {
                &&& post == self.with_link(
                    Some(server.mode),
                    self.reads_server_log,
                    server.mode,
                ).with_state(p)
                &&& notified(
                    s.with_status(fresh_status(server.address)),
                    p,
                    MessageLevel::Success,
                    notice,
                    now,
                )
            },
            Err(e) => {
                &&& post == self.with_link(
                    self.server_connection,
                    false,
                    self.connection_mode,
                ).with_state(p)
                &&& notified(
                    s.with_status(ServerStatus::Error(e)),
                    p,
                    MessageLevel::Error,
                    failure + e@,
                    now,
                )
            },
        }
    }

    fn spawned(
        &mut self,
        result: Result<SpawnedServer, String>,
        notice: String,
        failure: &str,
        now: Timestamp,
    )
        requires
            old(self).wf(),
        ensures
            final(self).wf(),
            old(self).spawned_step(result, notice@, failure@, now, *final(self)),
    {
        reveal(ConfigGuiApp::spawned_step);
        match result {
            Ok(server) => {
                let reads = self.reads_server_log;
                self.set_link(Some(server.mode), reads, server.mode);
                self.state.set_status(
                    ServerStatus::Running {
                        connections: 0,
                        uptime: Span { secs: 0, nanos: 0 },
                        address: server.address,
                    },
                );
                self.state.notify(MessageLevel::Success, notice, now);
            },
            Err(e) => {
                let text = join2(failure, e.as_str());
                self.reads_server_log = false;
                self.state.set_status(ServerStatus::Error(e));
                self.state.notify(MessageLevel::Error, text, now);
            },
        }
    }

    /// What polling the server process changes: printed lines reach the log view; a
    /// process that ended is let go, a running one gets older.
    #[verifier::opaque]
    pub open spec fn polled_step(
        self,
        lines: Vec<ServerLogLine>,
        process: ProcessPoll,
        now: Timestamp,
        post: ConfigGuiApp,
    ) -> bool {
        let s = self.state;
        let p = post.state;
        let shown = s.with_log(p.log_buffer);
        &&& p.log_buffer@ == (if self.reads_server_log {
            logged_all(s.log_buffer@, lines@, s.max_log_lines as nat)
        } else {
            s.log_buffer@
        })
        &&& if self.server_connection == Some(ConnectionMode::Process) {
            match process {
                ProcessPoll::Exited => {
                    &&& post == self.unlinked().with_state(p)
                    &&& notified(
                        shown.with_status(ServerStatus::Stopped),
                        p,
                        MessageLevel::Warning,
                        "Server process exited unexpectedly"@,
                        now,
                    )
                },
                ProcessPoll::Running { uptime } => post == self.with_state(
                    shown.with_status(s.server_status.aged(uptime)),
                ),
            }
        } else {
            post == self.with_state(shown)
        }
    }

    fn polled(&mut self, lines: Vec<ServerLogLine>, process: ProcessPoll, now: Timestamp)
        requires
            old(self).wf(),
        ensures
            final(self).wf(),
            old(self).polled_step(lines, process, now, *final(self)),
    {
        reveal(ConfigGuiApp::polled_step);
        if self.reads_server_log {
            self.state.log_printed(lines);
        } else {
            assert(self.state == self.state.with_log(self.state.log_buffer)) by {
                reveal(AppState::with_log);
            }
        }
        let ghost shown = self.state;
        match self.server_connection {
            Some(ConnectionMode::Process) => match process {
                ProcessPoll::Exited => {
                    self.set_link(None, false, ConnectionMode::Disconnected);
                    self.state.set_status(ServerStatus::Stopped);
                    self.state.notify(
                        MessageLevel::Warning,
                        "Server process exited unexpectedly".to_owned(),
                        now,
                    );
                    assert(self.state.log_buffer == shown.log_buffer) by {
                        reveal(AppState::with_status);
                        reveal(notified);
                    }
                },
                ProcessPoll::Running { uptime } => {
                    self.state.age(uptime);
                    assert(self.state.log_buffer == shown.log_buffer) by {
                        reveal(AppState::with_status);
                    }
                },
            },
            _ => {},
        }
    }

    /// What starting and stopping changes and asks for.
    pub open spec fn control_step(
        self,
        m: ServerMessage,
        now: Timestamp,
        post: ConfigGuiApp,
        action: Action,
    ) -> bool {
        let s = self.state;
        let p = post.state;
        match m {
            ServerMessage::StartServer => self.start_step(now, post, action),
            ServerMessage::ServerSpawned { result, sandboxed } => {
                &&& action == (if sandboxed && result is Ok {
                    Action::RegisterBackgroundPortal
                } else {
                    Action::Nothing
                })
                &&& self.spawned_step(
                    result,
                    match result {
                        Ok(server) => start_notice(server),
                        Err(_) => Seq::empty(),
                    },
                    "Failed to start server: "@,
                    now,
                    post,
                )
            },
            ServerMessage::TryDbusConnect => {
                &&& post == self
                &&& action == (if self.server_connection is Some {
                    Action::Nothing
                } else {
                    Action::TryDbus
                })
            },
            ServerMessage::StopServer => {
                &&& post == self.with_state(p)
                &&& if self.server_connection is Some {
                    &&& action == Action::StopServer
                    &&& notified(s, p, MessageLevel::Info, "Stopping server..."@, now)
                } else {
                    &&& action == Action::Nothing
                    &&& notified(s, p, MessageLevel::Warning, "Server is not running"@, now)
                }
            },
            ServerMessage::ServerStopFinished(result) => {
                &&& action == Action::Nothing
                &&& match self.server_connection {
                    Some(mode) => {
                        &&& post == self.unlinked().with_state(p)
                        &&& match result {
                            Ok(_) => notified(
                                s.with_status(ServerStatus::Stopped),
                                p,
                                MessageLevel::Success,
                                stop_notice(mode),
                                now,
                            ),
                            Err(e) => notified(
                                s.with_status(ServerStatus::Stopped),
                                p,
                                MessageLevel::Error,
                                "Error stopping server: "@ + e@,
                                now,
                            ),
                        }
                    },
                    None => post == self,
                }
            },
            ServerMessage::RestartServer => if self.server_connection is Some {
                &&& action == Action::RespawnServer
                &&& post == self.with_link(None, true, ConnectionMode::Disconnected).with_state(p)
                &&& notified(s, p, MessageLevel::Info, "Restarting server..."@, now)
            } else {
                self.start_step(now, post, action)
            },
            ServerMessage::ServerRespawned(result) => {
                &&& action == Action::Nothing
                &&& self.spawned_step(
                    result,
                    match result {
                        Ok(server) => restart_notice(server),
                        Err(_) => Seq::empty(),
                    },
                    "Failed to restart server: "@,
                    now,
                    post,
                )
            },
            _ => true,
        }
    }

    /// Whether the event is about starting or stopping.
    pub open spec fn of_control(m: ServerMessage) -> bool {
        m is StartServer
            || m is ServerSpawned
            || m is TryDbusConnect
            || m is StopServer
            || m is ServerStopFinished
            || m is RestartServer
            || m is ServerRespawned
    }

    fn update_control(&mut self, m: ServerMessage, now: Timestamp) -> (action: Action)
        requires
            old(self).wf(),
            ConfigGuiApp::of_control(m),
        ensures
            final(self).wf(),
            old(self).control_step(m, now, *final(self), action),
    {
        match m {
            ServerMessage::StartServer => self.start(now),
            ServerMessage::ServerSpawned { result, sandboxed } => {
                let (notice, started) = match &result {
                    Ok(server) => (start_text(server), true),
                    Err(_) => (String::new(), false),
                };
                self.spawned(result, notice, "Failed to start server: ", now);
                if sandboxed && started {
                    Action::RegisterBackgroundPortal
                } else {
                    Action::Nothing
                }
            },
            ServerMessage::TryDbusConnect => if self.server_connection.is_some() {
                Action::Nothing
            } else {
                Action::TryDbus
            },
            ServerMessage::StopServer => {
                if self.server_connection.is_some() {
                    self.state.notify(MessageLevel::Info, "Stopping server...".to_owned(), now);
                    Action::StopServer
                } else {
                    self.state.notify(
                        MessageLevel::Warning,
                        "Server is not running".to_owned(),
                        now,
                    );
                    Action::Nothing
                }
            },
            ServerMessage::ServerStopFinished(result) => {
                if let Some(mode) = self.server_connection {
                    self.set_link(None, false, ConnectionMode::Disconnected);
                    self.state.set_status(ServerStatus::Stopped);
                    match result {
                        Ok(_) => self.state.notify(MessageLevel::Success, stop_text(mode), now),
                        Err(e) => {
                            let text = join2("Error stopping server: ", e.as_str());
                            self.state.notify(MessageLevel::Error, text, now);
                        },
                    }
                }
                Action::Nothing
            },
            ServerMessage::RestartServer => {
                if self.server_connection.is_some() {
                    self.state.notify(MessageLevel::Info, "Restarting server...".to_owned(), now);
                    self.set_link(None, true, ConnectionMode::Disconnected);
                    Action::RespawnServer
                } else {
                    self.start(now)
                }
            },
            ServerMessage::ServerRespawned(result) => {
                let notice = match &result {
                    Ok(server) => restart_text(server),
                    Err(_) => String::new(),
                };
                self.spawned(result, notice, "Failed to restart server: ", now);
                Action::Nothing
            },
            _ => Action::Nothing,
        }
    }

    /// What news of the server changes.
    pub open spec fn news_step(
        self,
        m: ServerMessage,
        now: Timestamp,
        post: ConfigGuiApp,
        action: Action,
    ) -> bool {
        let s = self.state;
        let p = post.state;
        match m {
            ServerMessage::DbusConnectResult(result) => {
                &&& action == Action::Nothing
                &&& match result {
                    Ok(_) => post == self.with_state(p) && notified(
                        s,
                        p,
                        MessageLevel::Info,
                        "D-Bus server detected - click Start to connect"@,
                        now,
                    ),
                    Err(_) => post == self,
                }
            },
            ServerMessage::ServerConnectedDbus => {
                &&& action == Action::Nothing
                &&& post == self.with_link(
                    self.server_connection,
                    self.reads_server_log,
                    ConnectionMode::DBus,
                ).with_state(p)
                &&& notified(s, p, MessageLevel::Success, "Connected to server via D-Bus"@, now)
            },
            ServerMessage::ConnectionModeChanged(mode) => {
                &&& action == Action::Nothing
                &&& post == self.with_link(self.server_connection, self.reads_server_log, mode)
            },
            ServerMessage::ServerStatusUpdated(status) => {
                action == Action::Nothing && post == self.with_state(s.with_status(status))
            },
            ServerMessage::ServerStarted(pid) => {
                &&& action == Action::Nothing
                &&& post == self.with_state(p)
                &&& notified(
                    s,
                    p,
                    MessageLevel::Success,
                    "Server process started (PID: "@ + decimal(pid as nat) + ")"@,
                    now,
                )
            },
            ServerMessage::ServerExited(code) => {
                &&& action == Action::Nothing
                &&& post == self.unlinked().with_state(p)
                &&& notified(
                    s.with_status(ServerStatus::Stopped),
                    p,
                    MessageLevel::Info,
                    exit_notice(code),
                    now,
                )
            },
            ServerMessage::ServerLogReceived { message, level, received_at } => {
                &&& action == Action::Nothing
                &&& post == self.with_state(s.with_log(p.log_buffer))
                &&& p.log_buffer@ == logged(
                    s.log_buffer@,
                    LogLine { timestamp: received_at, level, message, raw: message },
                    s.max_log_lines as nat,
                )
            },
            ServerMessage::ServerStartFailed(error) => {
                &&& action == Action::Nothing
                &&& post == self.unlinked().with_state(p)
                &&& notified(
                    s.with_status(ServerStatus::Error(error)),
                    p,
                    MessageLevel::Error,
                    "Server failed: "@ + error@,
                    now,
                )
            },
            ServerMessage::ServerPolled { lines, process } => {
                action == Action::Nothing && self.polled_step(lines, process, now, post)
            },
            _ => true,
        }
    }

    fn update_news(&mut self, m: ServerMessage, now: Timestamp) -> (action: Action)
        requires
            old(self).wf(),
            !ConfigGuiApp::of_control(m),
        ensures
            final(self).wf(),
            old(self).news_step(m, now, *final(self), action),
    {
        match m {
            ServerMessage::DbusConnectResult(result) => {
                if result.is_ok() {
                    self.state.notify(
                        MessageLevel::Info,
                        "D-Bus server detected - click Start to connect".to_owned(),
                        now,
                    );
                }
                Action::Nothing
            },
            ServerMessage::ServerConnectedDbus => {
                self.connection_mode = ConnectionMode::DBus;
                self.state.notify(
                    MessageLevel::Success,
                    "Connected to server via D-Bus".to_owned(),
                    now,
                );
                Action::Nothing
            },
            ServerMessage::ConnectionModeChanged(mode) => {
                self.connection_mode = mode;
                Action::Nothing
            },
            ServerMessage::ServerStatusUpdated(status) => {
                self.state.set_status(status);
                Action::Nothing
            },
            ServerMessage::ServerStarted(pid) => {
                let text = join3(
                    "Server process started (PID: ",
                    number(pid as u64).as_str(),
                    ")",
                );
                self.state.notify(MessageLevel::Success, text, now);
                Action::Nothing
            },
            ServerMessage::ServerExited(code) => {
                self.set_link(None, false, ConnectionMode::Disconnected);
                self.state.set_status(ServerStatus::Stopped);
                self.state.notify(MessageLevel::Info, exit_text(code), now);
                Action::Nothing
            },
            ServerMessage::ServerLogReceived { message, level, received_at } => {
                let raw = message.clone();
                self.state.log(LogLine { timestamp: received_at, level, message, raw });
                Action::Nothing
            },
            ServerMessage::ServerStartFailed(error) => {
                let text = join2("Server failed: ", error.as_str());
                self.set_link(None, false, ConnectionMode::Disconnected);
                self.state.set_status(ServerStatus::Error(error));
                self.state.notify(MessageLevel::Error, text, now);
                Action::Nothing
            },
            ServerMessage::ServerPolled { lines, process } => {
                self.polled(lines, process, now);
                Action::Nothing
            },
            _ => Action::Nothing,
        }
    }

    /// What an event around the server changes and asks for.
    pub open spec fn server_step(
        self,
        m: ServerMessage,
        now: Timestamp,
        post: ConfigGuiApp,
        action: Action,
    ) -> bool {
        if ConfigGuiApp::of_control(m) {
            self.control_step(m, now, post, action)
        } else {
            self.news_step(m, now, post, action)
        }
    }

    pub(crate) fn update_server(&mut self, m: ServerMessage, now: Timestamp) -> (action: Action)
        requires
            old(self).wf(),
        ensures
            final(self).wf(),
            old(self).server_step(m, now, *final(self), action),
    {
        match m {
            ServerMessage::StartServer
            | ServerMessage::ServerSpawned { .. }
            | ServerMessage::TryDbusConnect
            | ServerMessage::StopServer
            | ServerMessage::ServerStopFinished(_)
            | ServerMessage::RestartServer
            | ServerMessage::ServerRespawned(_) => self.update_control(m, now),
            _ => self.update_news(m, now),
        }
    }
}

} // verus!
