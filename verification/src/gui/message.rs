//! What can happen in the configuration window, and what it asks for in return.

use crate::clock::Span;
use crate::config::Config;
use crate::gui::edits::ConfigEdit;
use crate::gui::state::{
    DetectedCapabilities,
    FormattedSettings,
    GpuInfo,
    LogLevel,
    ServerStatus,
    Tab,
    TabCategory,
    ValidationResult,
};
use vstd::prelude::*;

verus! {

/// An event of the configuration window.
#[derive(Debug)]
pub enum Message {
    Noop,
    Tick,
    TabSelected(Tab),
    CategorySelected(TabCategory),
    /// An edit of one setting.
    Edit(ConfigEdit),
    /// An input field whose text is more than the value of one setting.
    Field(FieldMessage),
    /// A preset was chosen.
    Preset(PresetMessage),
    /// A section was folded or unfolded, or a view option switched.
    Toggle(Section),
    /// Certificates and passwords.
    Security(SecurityMessage),
    /// Loading and saving the configuration.
    File(FileMessage),
    /// Starting, stopping and following the server.
    Server(ServerMessage),
    /// Detection of hardware, capabilities and mistakes in the configuration.
    Detection(DetectionMessage),
    /// The log view and the notifications.
    Log(LogMessage),
    /// Closing the window.
    Window(WindowMessage),
}

/// An input field whose text is more than the value of one setting.
#[derive(Debug)]
pub enum FieldMessage {
    ServerListenAddrChanged(String),
    ServerPortChanged(String),
    ClipboardAllowedTypesChanged(String),
    DisplayAllowedResolutionsChanged(String),
    AudioOpusBitrateChanged(String),
    MultimonMaxMonitorsChanged(String),
    LoggingLogDirChanged(String),
    LoggingBrowseLogDir,
    LoggingLogDirSelected(Option<String>),
    LoggingClearLogDir,
}

/// Encoder and pacing presets.
#[derive(Debug, Clone, Copy, PartialEq, Eq, Structural)]
pub enum PerformancePreset {
    Interactive,
    Balanced,
    Quality,
}

/// Graphics channel presets.
#[derive(Debug, Clone, Copy, PartialEq, Eq, Structural)]
pub enum EgfxPreset {
    Speed,
    Balanced,
    Quality,
}

/// Damage tracking presets.
#[derive(Debug, Clone, Copy, PartialEq, Eq, Structural)]
pub enum DamageTrackingPreset {
    TextWork,
    General,
    Video,
}

/// Monitor count presets.
#[derive(Debug, Clone, Copy, PartialEq, Eq, Structural)]
pub enum MultimonPreset {
    Single,
    Dual,
    Triple,
    Quad,
    /// Keeps the current count.
    Custom,
}

/// A preset was chosen.
#[derive(Debug)]
pub enum PresetMessage {
    PerformancePresetSelected(PerformancePreset),
    EgfxPresetSelected(EgfxPreset),
    DamageTrackingPresetSelected(DamageTrackingPreset),
    MultimonPresetSelected(MultimonPreset),
}

/// What can be folded, unfolded or switched in the window.
#[derive(Debug, Clone, Copy, PartialEq, Eq, Structural)]
pub enum Section {
    VideoPipeline,
    AdaptiveFps,
    Latency,
    Logging,
    DamageTracking,
    HardwareEncoding,
    Display,
    Multimon,
    AdvancedVideo,
    Cursor,
    CursorPredictor,
    EgfxExpertMode,
    ExpertMode,
    LogAutoScroll,
}

/// Certificates and passwords.
#[derive(Debug)]
pub enum SecurityMessage {
    SecurityBrowseCert,
    SecurityCertSelected(Option<String>),
    SecurityBrowseKey,
    SecurityKeySelected(Option<String>),
    SecurityGenerateCert,
    CertGenCommonNameChanged(String),
    CertGenOrganizationChanged(String),
    CertGenValidDaysChanged(String),
    CertGenConfirm,
    CertGenCancel,
    CertGenCompleted(Result<(), String>),
    SecurityEnableNlaToggled(bool),
    SecurityPasswordUsernameChanged(String),
    SecurityPasswordChanged(String),
    /// The hash of the password entered for `username` is there.
    PasswordHashed { username: String, result: Result<String, String> },
    CheckCertificates,
    /// Whether certificate and key exist; an error if only one of them does.
    CertificatesChecked(Result<bool, String>),
    FirstRunGenerateCerts,
    FirstRunProvideCerts,
    FirstRunDismiss,
    FirstRunCertsGenerated(Result<(), String>),
}

/// Loading and saving the configuration.
#[derive(Debug)]
pub enum FileMessage {
    LoadConfig,
    BrowseConfigFile,
    ConfigFileSelected(Option<String>),
    ConfigLoaded(Result<(Config, FormattedSettings), String>),
    SaveConfig,
    SaveConfigAs,
    ConfigSaved(Result<(), String>),
    RestoreDefaults,
    DefaultsRestored(Result<(Config, FormattedSettings), String>),
}

/// How the window reaches the server.
#[derive(Debug, Clone, Copy, PartialEq, Eq, Structural)]
pub enum ConnectionMode {
    Disconnected,
    DBus,
    Process,
}

/// A server that was just started.
#[derive(Debug)]
pub struct SpawnedServer {
    pub mode: ConnectionMode,
    pub address: String,
    pub pid: Option<u32>,
}

/// A line that the server process printed.
#[derive(Debug)]
pub struct ServerLogLine {
    pub timestamp: String,
    pub level: LogLevel,
    pub message: String,
}

/// What became of the server process.
#[derive(Debug, Clone, Copy, PartialEq, Eq, Structural)]
pub enum ProcessPoll {
    Running { uptime: Span },
    Exited,
}

/// Starting, stopping and following the server.
#[derive(Debug)]
pub enum ServerMessage {
    StartServer,
    /// What starting the server gave; `sandboxed` in a Flatpak.
    ServerSpawned { result: Result<SpawnedServer, String>, sandboxed: bool },
    TryDbusConnect,
    DbusConnectResult(Result<(), String>),
    ServerConnectedDbus,
    ConnectionModeChanged(ConnectionMode),
    StopServer,
    ServerStopFinished(Result<(), String>),
    RestartServer,
    /// What starting the server anew gave.
    ServerRespawned(Result<SpawnedServer, String>),
    ServerStatusUpdated(ServerStatus),
    ServerStarted(u32),
    ServerExited(Option<i32>),
    ServerLogReceived { message: String, level: LogLevel, received_at: String },
    ServerStartFailed(String),
    /// Lines printed and what became of the process since the last poll.
    ServerPolled { lines: Vec<ServerLogLine>, process: ProcessPoll },
}

/// Detection of hardware, capabilities and mistakes in the configuration.
#[derive(Debug)]
pub enum DetectionMessage {
    ValidateConfig,
    ValidationComplete(ValidationResult),
    RefreshCapabilities,
    CapabilitiesDetected(Result<DetectedCapabilities, String>),
    VideoDetectGpus,
    GpusDetected(Vec<GpuInfo>),
    ExportCapabilities,
    CapabilitiesExported(Result<String, String>),
}

/// The log view and the notifications.
#[derive(Debug)]
pub enum LogMessage {
    LogLineReceived(String),
    ClearLogs,
    LogFilterLevelChanged(String),
    ExportLogs,
    ShowInfo(String),
    ShowWarning(String),
    ShowError(String),
    DismissMessage(usize),
}

/// Closing the window.
#[derive(Debug)]
pub enum WindowMessage {
    ToggleCloseStopsServer(bool),
    WindowCloseRequested,
    ConfirmDiscardChanges,
    SaveAndExit,
    SaveAndExitFinished(Result<(), String>),
    CancelDiscardChanges,
}

/// What the window asks for after an event.
#[derive(Debug)]
pub enum Action {
    Nothing,
    BrowseCertificate,
    BrowseKey,
    BrowseLogDir,
    BrowseConfig,
    /// Generate a self-signed certificate; without a name, for this host.
    GenerateCertificate {
        cert_path: String,
        key_path: String,
        common_name: Option<String>,
        organization: String,
        valid_days: u32,
        first_run: bool,
    },
    HashPassword { username: String, password: String },
    CheckCertificates,
    LoadConfig(String),
    SaveConfig,
    SaveConfigAs,
    LoadDefaults,
    SpawnServer,
    /// Stop the server, then start it again.
    RespawnServer,
    StopServer,
    TryDbus,
    RegisterBackgroundPortal,
    ValidateConfig,
    DetectCapabilities,
    DetectGpus,
    ExportCapabilities,
    ExportLogs,
    SaveThenExit,
    Exit { detach_server: bool },
}

} // verus!
