//! The configuration window: state, event, next state and what to do.
//!
//! [`ConfigGuiApp::update`] takes an event, changes the state and answers with
//! the action that the surrounding program performs. What the action gives comes
//! back as another event.

use crate::clock::{Span, Timestamp};
use crate::gui::message::{
    Action,
    ConnectionMode,
    DetectionMessage,
    FieldMessage,
    FileMessage,
    Message,
    MultimonPreset,
    PresetMessage,
    SecurityMessage,
    ServerLogLine,
    ServerMessage,
    SpawnedServer,
};
use crate::gui::state::{
    composed_addr,
    logged,
    AppState,
    EditStrings,
    LogLine,
    ServerStatus,
    Tab,
};
use crate::text::{
    decimal,
    kept_lines,
    lines_of,
    nonblank_lines,
    number,
    parse_number,
    parsed,
    signed_decimal,
    signed_number,
    texts,
};
use vstd::prelude::*;

verus! {

/// The configuration window.
#[derive(Debug)]
pub struct ConfigGuiApp {
    pub state: AppState,
    pub current_tab: Tab,
    /// How the running server is reached, if there is one.
    pub server_connection: Option<ConnectionMode>,
    /// Whether the output of a server process is being read.
    pub reads_server_log: bool,
    pub connection_mode: ConnectionMode,
}

impl Message {
    /// A configuration that comes with the message is well formed, and a bitrate in
    /// kilobits fits a setting in bits.
    pub open spec fn wf(self) -> bool {
        match self {
            Message::Field(m) => m.wf(),
            Message::File(m) => m.wf(),
            _ => true,
        }
    }
}

impl FieldMessage {
    /// A bitrate in kilobits fits a setting in bits.
    pub open spec fn wf(self) -> bool {
        match self {
            FieldMessage::AudioOpusBitrateChanged(t) => match parsed(t@, u32::MAX as nat) {
                Some(kbps) => kbps * 1000 <= u32::MAX,
                None => true,
            },
            _ => true,
        }
    }
}

impl FileMessage {
    /// A configuration that comes with the message is well formed.
    pub open spec fn wf(self) -> bool {
        match self {
            FileMessage::ConfigLoaded(Ok(c)) => c.0.security.password_credentials.wf(),
            FileMessage::DefaultsRestored(Ok(c)) => c.0.security.password_credentials.wf(),
            _ => true,
        }
    }
}

/// The lines of the log view after the printed lines came in one by one.
pub open spec fn logged_all(
    lines: Seq<LogLine>,
    printed: Seq<ServerLogLine>,
    max: nat,
) -> Seq<LogLine>
    decreases printed.len(),
{
    if printed.len() == 0 {
        lines
    } else {
        let p = printed.last();
        logged(
            logged_all(lines, printed.drop_last(), max),
            LogLine {
                timestamp: p.timestamp,
                level: p.level,
                message: p.message,
                raw: p.message,
            },
            max,
        )
    }
}

/// The number of monitors after choosing a preset.
pub open spec fn preset_monitors(preset: MultimonPreset, current: usize) -> usize {
    match preset {
        MultimonPreset::Single => 1,
        MultimonPreset::Dual => 2,
        MultimonPreset::Triple => 3,
        MultimonPreset::Quad => 4,
        MultimonPreset::Custom => current,
    }
}

/// What is announced once the server was started.
pub open spec fn start_notice(server: SpawnedServer) -> Seq<char> {
    match server.mode {
        ConnectionMode::DBus => "Connected to server via D-Bus"@,
        ConnectionMode::Process => match server.pid {
            Some(pid) => "Server started (PID: "@ + decimal(pid as nat) + ")"@,
            None => "Server started"@,
        },
        ConnectionMode::Disconnected => "Server started"@,
    }
}

/// What is announced once the server was started anew.
pub open spec fn restart_notice(server: SpawnedServer) -> Seq<char> {
    match server.pid {
        Some(pid) => "Server restarted (PID: "@ + decimal(pid as nat) + ")"@,
        None => "Server restarted"@,
    }
}

/// What is announced once the server was stopped.
pub open spec fn stop_notice(mode: ConnectionMode) -> Seq<char> {
    match mode {
        ConnectionMode::DBus => "Disconnected from D-Bus server"@,
        ConnectionMode::Process => "Server stopped"@,
        ConnectionMode::Disconnected => "Disconnected"@,
    }
}

/// What is announced once the server process is gone.
pub open spec fn exit_notice(code: Option<i32>) -> Seq<char> {
    match code {
        Some(c) => "Server exited with code "@ + signed_decimal(c as int),
        None => "Server exited"@,
    }
}

/// A server that just began to listen.
pub open spec fn fresh_status(address: String) -> ServerStatus {
    ServerStatus::Running { connections: 0, uptime: Span { secs: 0, nanos: 0 }, address }
}

/// A text made of two parts.
pub(crate) fn join2(a: &str, b: &str) -> (r: String)
    ensures
        r@ == a@ + b@,
{
    a.to_owned().concat(b)
}

/// A text made of three parts.
pub(crate) fn join3(a: &str, b: &str, c: &str) -> (r: String)
    ensures
        r@ == a@ + b@ + c@,
{
    a.to_owned().concat(b).concat(c)
}

pub(crate) fn start_text(server: &SpawnedServer) -> (r: String)
    ensures
        r@ == start_notice(*server),
{
    match server.mode {
        ConnectionMode::DBus => "Connected to server via D-Bus".to_owned(),
        ConnectionMode::Process => match server.pid {
            Some(pid) => join3("Server started (PID: ", number(pid as u64).as_str(), ")"),
            None => "Server started".to_owned(),
        },
        ConnectionMode::Disconnected => "Server started".to_owned(),
    }
}

pub(crate) fn restart_text(server: &SpawnedServer) -> (r: String)
    ensures
        r@ == restart_notice(*server),
{
    match server.pid {
        Some(pid) => join3("Server restarted (PID: ", number(pid as u64).as_str(), ")"),
        None => "Server restarted".to_owned(),
    }
}

pub(crate) fn stop_text(mode: ConnectionMode) -> (r: String)
    ensures
        r@ == stop_notice(mode),
{
    (match mode {
        ConnectionMode::DBus => "Disconnected from D-Bus server",
        ConnectionMode::Process => "Server stopped",
        ConnectionMode::Disconnected => "Disconnected",
    }).to_owned()
}

pub(crate) fn exit_text(code: Option<i32>) -> (r: String)
    ensures
        r@ == exit_notice(code),
{
    match code {
        Some(c) => join2("Server exited with code ", signed_number(c as i64).as_str()),
        None => "Server exited".to_owned(),
    }
}

/// The title of the window.
pub open spec fn window_title(unsaved: bool) -> Seq<char> {
    if unsaved {
        "lamco-rdp-server Configuration"@ + " *"@
    } else {
        "lamco-rdp-server Configuration"@
    }
}

/// The events that start the window up.
pub open spec fn startup_events() -> Seq<Message> {
    seq![
        Message::Detection(DetectionMessage::RefreshCapabilities),
        Message::Detection(DetectionMessage::VideoDetectGpus),
        Message::Security(SecurityMessage::CheckCertificates),
        Message::Server(ServerMessage::TryDbusConnect),
    ]
}

impl ConfigGuiApp {
    /// The window as it opens on a state.
    pub open spec fn opened(state: AppState) -> ConfigGuiApp {
        ConfigGuiApp {
            state,
            current_tab: Tab::Server,
            server_connection: None,
            reads_server_log: false,
            connection_mode: ConnectionMode::Disconnected,
        }
    }

    /// The stored credentials name every user once.
    pub open spec fn wf(self) -> bool {
        self.state.config.security.password_credentials.wf()
    }

    /// The window with another state.
    pub open spec fn with_state(self, state: AppState) -> ConfigGuiApp {
        ConfigGuiApp { state, ..self }
    }

    /// Whether closing the window leaves a server running that must be let go.
    pub open spec fn leaves_server(self) -> bool {
        !self.state.close_stops_server && self.server_connection is Some
            && self.state.server_status is Running
    }

    /// The window with the server reached in another way, or not any more.
    pub open spec fn with_link(
        self,
        connection: Option<ConnectionMode>,
        reads_log: bool,
        mode: ConnectionMode,
    ) -> ConfigGuiApp {
        ConfigGuiApp {
            server_connection: connection,
            reads_server_log: reads_log,
            connection_mode: mode,
            ..self
        }
    }

    /// The window with no server reached any more.
    pub open spec fn unlinked(self) -> ConfigGuiApp {
        self.with_link(None, false, ConnectionMode::Disconnected)
    }

    /// What an input field changes.
    pub open spec fn field_step(
        self,
        m: FieldMessage,
        post: ConfigGuiApp,
        action: Action,
    ) -> bool {
        let s = self.state;
        let p = post.state;
        match m {
            FieldMessage::ServerListenAddrChanged(addr) => {
                let listen = p.config.server.listen_addr;
                &&& action == Action::Nothing
                &&& listen@ == composed_addr(addr@, s.edit_strings.server_port@)
                &&& post == self.with_state(s.with_server_ip(addr).with_listen_addr(listen))
            },
            FieldMessage::ServerPortChanged(port) => {
                let listen = p.config.server.listen_addr;
                &&& action == Action::Nothing
                &&& listen@ == composed_addr(s.edit_strings.server_ip@, port@)
                &&& post == self.with_state(s.with_server_port(port).with_listen_addr(listen))
            },
            FieldMessage::ClipboardAllowedTypesChanged(text) => {
                let types = p.config.clipboard.allowed_types;
                &&& action == Action::Nothing
                &&& texts(types@) == kept_lines(lines_of(text@))
                &&& post == self.with_state(s.with_allowed_types(types))
            },
            FieldMessage::DisplayAllowedResolutionsChanged(text) => {
                let list = p.config.display.allowed_resolutions;
                &&& action == Action::Nothing
                &&& texts(list@) == kept_lines(lines_of(text@))
                &&& post == self.with_state(s.with_allowed_resolutions(list))
            },
            FieldMessage::AudioOpusBitrateChanged(text) => {
                let shown = s.with_audio_opus_bitrate(text);
                &&& action == Action::Nothing
                &&& post == self.with_state(
                    match parsed(text@, u32::MAX as nat) {
                        Some(kbps) => shown.with_opus_bitrate((kbps * 1000) as u32),
                        None => shown,
                    },
                )
            },
            FieldMessage::MultimonMaxMonitorsChanged(text) => {
                &&& action == Action::Nothing
                &&& post == self.with_state(
                    match parsed(text@, usize::MAX as nat) {
                        Some(n) => s.with_max_monitors(text).with_monitor_limit(n as usize),
                        None => s,
                    },
                )
            },
            FieldMessage::LoggingLogDirChanged(dir) => {
                &&& action == Action::Nothing
                &&& post == self.with_state(
                    s.with_log_directory(
                        if dir@.len() == 0 {
                            None
                        } else {
                            Some(dir)
                        },
                    ),
                )
            },
            FieldMessage::LoggingBrowseLogDir => {
                action == Action::BrowseLogDir && post == self
            },
            FieldMessage::LoggingLogDirSelected(path) => {
                &&& action == Action::Nothing
                &&& post == self.with_state(
                    match path {
                        Some(dir) => s.with_log_dir(dir).with_log_directory(Some(dir)),
                        None => s,
                    },
                )
            },
            FieldMessage::LoggingClearLogDir => {
                let empty = p.edit_strings.log_dir;
                &&& action == Action::Nothing
                &&& empty@.len() == 0
                &&& post == self.with_state(s.with_log_dir(empty).with_log_directory(None))
            },
        }
    }

    fn update_field(&mut self, m: FieldMessage) -> (action: Action)
        requires
            old(self).wf(),
            m.wf(),
        ensures
            final(self).wf(),
            old(self).field_step(m, *final(self), action),
    {
        match m {
            FieldMessage::ServerListenAddrChanged(addr) => {
                let listen = EditStrings::compose_listen_addr(
                    addr.as_str(),
                    self.state.edit_strings.server_port.as_str(),
                );
                self.state.show_server_ip(addr);
                self.state.set_listen_addr(listen);
                Action::Nothing
            },
            FieldMessage::ServerPortChanged(port) => {
                let listen = EditStrings::compose_listen_addr(
                    self.state.edit_strings.server_ip.as_str(),
                    port.as_str(),
                );
                self.state.show_server_port(port);
                self.state.set_listen_addr(listen);
                Action::Nothing
            },
            FieldMessage::ClipboardAllowedTypesChanged(text) => {
                self.state.set_allowed_types(nonblank_lines(text.as_str()));
                Action::Nothing
            },
            FieldMessage::DisplayAllowedResolutionsChanged(text) => {
                self.state.set_allowed_resolutions(nonblank_lines(text.as_str()));
                Action::Nothing
            },
            FieldMessage::AudioOpusBitrateChanged(text) => {
                let kbps = parse_number(text.as_str(), u32::MAX as u64);
                self.state.show_audio_opus_bitrate(text);
                if let Some(kbps) = kbps {
                    self.state.set_opus_bitrate((kbps * 1000) as u32);
                }
                Action::Nothing
            },
            FieldMessage::MultimonMaxMonitorsChanged(text) => {
                if let Some(n) = parse_number(text.as_str(), usize::MAX as u64) {
                    self.state.show_max_monitors(text);
                    self.state.set_monitor_limit(n as usize);
                }
                Action::Nothing
            },
            FieldMessage::LoggingLogDirChanged(dir) => {
                if dir.as_str().is_empty() {
                    self.state.set_log_directory(None);
                } else {
                    self.state.set_log_directory(Some(dir));
                }
                Action::Nothing
            },
            FieldMessage::LoggingBrowseLogDir => Action::BrowseLogDir,
            FieldMessage::LoggingLogDirSelected(path) => {
                if let Some(dir) = path {
                    self.state.show_log_dir(dir.clone());
                    self.state.set_log_directory(Some(dir));
                }
                Action::Nothing
            },
            FieldMessage::LoggingClearLogDir => {
                self.state.show_log_dir(String::new());
                self.state.set_log_directory(None);
                Action::Nothing
            },
        }
    }

    /// What choosing a preset changes.
    pub open spec fn preset_step(
        self,
        m: PresetMessage,
        post: ConfigGuiApp,
        action: Action,
    ) -> bool {
        let s = self.state;
        let p = post.state;
        &&& action == Action::Nothing
        &&& match m {
            PresetMessage::PerformancePresetSelected(preset) => {
                let mode = p.config.performance.latency.mode;
                &&& mode@ == preset.latency_mode()
                &&& post == self.with_state(s.with_performance_preset(preset, mode))
            },
            PresetMessage::EgfxPresetSelected(preset) => post == self.with_state(
                s.with_egfx_preset(preset),
            ),
            PresetMessage::DamageTrackingPresetSelected(preset) => post == self.with_state(
                s.with_damage_preset(preset),
            ),
            PresetMessage::MultimonPresetSelected(preset) => {
                let n = preset_monitors(preset, s.config.multimon.max_monitors);
                let shown = p.edit_strings.max_monitors;
                &&& shown@ == decimal(n as nat)
                &&& post == self.with_state(s.with_max_monitors(shown).with_monitor_limit(n))
            },
        }
    }

    fn update_preset(&mut self, m: PresetMessage) -> (action: Action)
        requires
            old(self).wf(),
        ensures
            final(self).wf(),
            old(self).preset_step(m, *final(self), action),
    {
        match m {
            PresetMessage::PerformancePresetSelected(preset) => {
                self.state.use_performance_preset(preset);
            },
            PresetMessage::EgfxPresetSelected(preset) => {
                self.state.use_egfx_preset(preset);
            },
            PresetMessage::DamageTrackingPresetSelected(preset) => {
                self.state.use_damage_tracking_preset(preset);
            },
            PresetMessage::MultimonPresetSelected(preset) => {
                let n: usize = match preset {
                    MultimonPreset::Single => 1,
                    MultimonPreset::Dual => 2,
                    MultimonPreset::Triple => 3,
                    MultimonPreset::Quad => 4,
                    MultimonPreset::Custom => self.state.config.multimon.max_monitors,
                };
                self.state.show_max_monitors(number(n as u64));
                self.state.set_monitor_limit(n);
            },
        }
        Action::Nothing
    }

    /// What an event changes and asks for.
    pub open spec fn step(
        self,
        m: Message,
        now: Timestamp,
        post: ConfigGuiApp,
        action: Action,
    ) -> bool {
        match m {
            Message::Noop | Message::Tick => action == Action::Nothing && post == self,
            Message::TabSelected(tab) => {
                action == Action::Nothing && post == (ConfigGuiApp { current_tab: tab, ..self })
            },
            Message::CategorySelected(category) => {
                action == Action::Nothing && post == (ConfigGuiApp {
                    current_tab: category.tab_list()[0],
                    ..self
                })
            },
            Message::Edit(edit) => {
                action == Action::Nothing && post == self.with_state(self.state.with_edit(edit))
            },
            Message::Field(m) => self.field_step(m, post, action),
            Message::Preset(m) => self.preset_step(m, post, action),
            Message::Toggle(section) => {
                action == Action::Nothing && post == self.with_state(
                    self.state.with_switched(section),
                )
            },
            Message::Security(m) => self.security_step(m, now, post, action),
            Message::File(m) => self.file_step(m, now, post, action),
            Message::Server(m) => self.server_step(m, now, post, action),
            Message::Detection(m) => self.detection_step(m, now, post, action),
            Message::Log(m) => self.log_step(m, now, post, action),
            Message::Window(m) => self.window_step(m, now, post, action),
        }
    }

    /// Takes an event, changes the state and says what to do.
    pub fn update(&mut self, message: Message, now: Timestamp) -> (action: Action)
        requires
            old(self).wf(),
            message.wf(),
        ensures
            final(self).wf(),
            old(self).step(message, now, *final(self), action),
    {
        match message {
            Message::Noop => Action::Nothing,
            Message::Tick => Action::Nothing,
            Message::TabSelected(tab) => {
                self.current_tab = tab;
                Action::Nothing
            },
            Message::CategorySelected(category) => {
                self.current_tab = category.tabs()[0];
                Action::Nothing
            },
            Message::Edit(edit) => {
                self.state.edit(edit);
                Action::Nothing
            },
            Message::Field(m) => self.update_field(m),
            Message::Preset(m) => self.update_preset(m),
            Message::Toggle(section) => {
                self.state.toggle(section);
                Action::Nothing
            },
            Message::Security(m) => self.update_security(m, now),
            Message::File(m) => self.update_file(m, now),
            Message::Server(m) => self.update_server(m, now),
            Message::Detection(m) => self.update_detection(m, now),
            Message::Log(m) => self.update_log(m, now),
            Message::Window(m) => self.update_window(m, now),
        }
    }

    /// Opens the window on a state, with the events that start it up.
    pub fn new(state: AppState) -> (r: (Self, Vec<Message>))
        ensures
            r.0 == Self::opened(state),
            r.1@ == startup_events(),
    {
        let app = ConfigGuiApp {
            state,
            current_tab: Tab::Server,
            server_connection: None,
            reads_server_log: false,
            connection_mode: ConnectionMode::Disconnected,
        };
        let startup: Vec<Message> = vec![
            Message::Detection(DetectionMessage::RefreshCapabilities),
            Message::Detection(DetectionMessage::VideoDetectGpus),
            Message::Security(SecurityMessage::CheckCertificates),
            Message::Server(ServerMessage::TryDbusConnect),
        ];
        assert(startup@ =~= seq![
            Message::Detection(DetectionMessage::RefreshCapabilities),
            Message::Detection(DetectionMessage::VideoDetectGpus),
            Message::Security(SecurityMessage::CheckCertificates),
            Message::Server(ServerMessage::TryDbusConnect),
        ]);
        (app, startup)
    }

    /// The title of the window, with a mark for unsaved changes.
    pub fn title(&self) -> (r: String)
        ensures
            r@ == window_title(self.state.is_dirty),
    {
        if self.state.is_dirty {
            join2("lamco-rdp-server Configuration", " *")
        } else {
            "lamco-rdp-server Configuration".to_owned()
        }
    }
}

/// A window opens on the server tab with no server reached, and leaves none behind.
pub proof fn windows_open_on_the_server_tab(state: AppState)
    ensures
        ConfigGuiApp::opened(state).state == state,
        ConfigGuiApp::opened(state).current_tab == Tab::Server,
        ConfigGuiApp::opened(state).server_connection is None,
        ConfigGuiApp::opened(state).connection_mode is Disconnected,
        !ConfigGuiApp::opened(state).reads_server_log,
        !ConfigGuiApp::opened(state).leaves_server(),
        startup_events().len() == 4,
        startup_events()[0] is Detection && startup_events()[0]->Detection_0 is RefreshCapabilities,
        startup_events()[1] is Detection && startup_events()[1]->Detection_0 is VideoDetectGpus,
        startup_events()[2] is Security && startup_events()[2]->Security_0 is CheckCertificates,
        startup_events()[3] is Server && startup_events()[3]->Server_0 is TryDbusConnect,
{
}

/// Unsaved changes put a star behind the title, and nothing else does.
pub proof fn stars_mark_unsaved_changes()
    ensures
        window_title(false) == "lamco-rdp-server Configuration"@,
        window_title(true) == window_title(false) + seq![' ', '*'],
{
    reveal_strlit(" *");
    assert(" *"@ =~= seq![' ', '*']);
}

/// The code that a server exited with is told where it is known.
pub proof fn exit_codes_are_told(code: i32)
    ensures
        exit_notice(Some(code)) == "Server exited with code "@ + signed_decimal(code as int),
        exit_notice(None) == "Server exited"@,
{
}

} // verus!
