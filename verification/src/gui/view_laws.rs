//! What the window promises of files, detection, the log view and closing, told by what is seen
//! before and after.

use crate::clock::Timestamp;
use crate::gui::app::ConfigGuiApp;
use crate::gui::message::{Action, DetectionMessage, FileMessage, LogMessage, WindowMessage};
use crate::gui::state::{log_level_named, AppState, MessageLevel};
use crate::gui::window_laws::{lemma_told, same_place, same_settings, told};
use crate::text::lowercase;
use vstd::prelude::*;

verus! {

/// Opening a configuration asks for a picker; a file that was picked is loaded, none is
/// nothing to do; defaults are asked for. Nothing changes before they are there.
pub proof fn files_are_asked_for(
    app: ConfigGuiApp,
    m: FileMessage,
    now: Timestamp,
    post: ConfigGuiApp,
    action: Action,
)
    requires
        m is LoadConfig || m is BrowseConfigFile || m is ConfigFileSelected
            || m is RestoreDefaults,
        app.file_step(m, now, post, action),
    ensures
        post == app,
        m is LoadConfig || m is BrowseConfigFile ==> action is BrowseConfig,
        m is RestoreDefaults ==> action is LoadDefaults,
        m is ConfigFileSelected && m->ConfigFileSelected_0 is None ==> action is Nothing,
        m is ConfigFileSelected && m->ConfigFileSelected_0 is Some ==> action
            == Action::LoadConfig(m->ConfigFileSelected_0->0),
{
}

/// A configuration that was loaded is taken over whole and shown, with nothing to save.
/// One that could not be loaded is told of and leaves everything.
pub proof fn loaded_configurations_are_taken_over(
    app: ConfigGuiApp,
    m: FileMessage,
    now: Timestamp,
    post: ConfigGuiApp,
    action: Action,
)
    requires
        m is ConfigLoaded,
        app.file_step(m, now, post, action),
    ensures
        ({
            let result = m->ConfigLoaded_0;
            &&& result is Ok ==> {
                &&& post.state.config == (result->Ok_0).0
                &&& post.state.edit_strings.shows((result->Ok_0).0, (result->Ok_0).1)
                &&& !post.state.is_dirty
                &&& post.state.last_saved == Some(now)
                &&& told(
                    app.state,
                    post.state,
                    MessageLevel::Success,
                    "Configuration loaded successfully"@,
                    now,
                )
            }
            &&& result is Err ==> {
                &&& same_settings(app.state, post.state)
                &&& told(
                    app.state,
                    post.state,
                    MessageLevel::Error,
                    "Failed to load config: "@ + (result->Err_0)@,
                    now,
                )
            }
        }),
        same_place(app, post),
        action is Nothing,
{
    reveal(AppState::with_loaded);
    reveal(AppState::settled);
    match m->ConfigLoaded_0 {
        Ok(pair) => lemma_told(
            app.state.with_loaded(pair.0, post.state.edit_strings).settled(now),
            post.state,
            MessageLevel::Success,
            "Configuration loaded successfully"@,
            now,
        ),
        Err(e) => lemma_told(
            app.state,
            post.state,
            MessageLevel::Error,
            "Failed to load config: "@ + e@,
            now,
        ),
    }
}

/// Before it is saved, the configuration takes in what the window remembers of itself;
/// everything else of it is saved as it is. There is something to save until that is
/// done.
pub proof fn saving_remembers_the_window(
    app: ConfigGuiApp,
    m: FileMessage,
    now: Timestamp,
    post: ConfigGuiApp,
    action: Action,
)
    requires
        m is SaveConfig || m is SaveConfigAs,
        app.file_step(m, now, post, action),
    ensures
        m is SaveConfig ==> action is SaveConfig,
        m is SaveConfigAs ==> action is SaveConfigAs,
        post.state.config.gui_state.log_filter_level@ == app.state.log_filter_level.config_name(),
        post.state.config.gui_state.close_stops_server == app.state.close_stops_server,
        post.state.config.gui_state.expert_mode == app.state.sections.expert_mode,
        post.state.config.server == app.state.config.server,
        post.state.config.security == app.state.config.security,
        post.state.config.egfx == app.state.config.egfx,
        post.state.is_dirty == app.state.is_dirty,
        post.state.edit_strings == app.state.edit_strings,
        post.state.messages == app.state.messages,
        same_place(app, post),
{
    reveal(AppState::recorded);
}

/// A saved configuration has nothing to save any more. Where saving failed, there still
/// is, and the reason is told.
pub proof fn saved_configurations_are_settled(
    app: ConfigGuiApp,
    result: Result<(), String>,
    now: Timestamp,
    post: ConfigGuiApp,
    action: Action,
)
    requires
        app.file_step(FileMessage::ConfigSaved(result), now, post, action),
    ensures
        result is Ok ==> !post.state.is_dirty && post.state.last_saved == Some(now),
        result is Ok ==> told(
            app.state,
            post.state,
            MessageLevel::Success,
            "Configuration saved successfully"@,
            now,
        ),
        result is Err ==> post.state.is_dirty == app.state.is_dirty && post.state.last_saved
            == app.state.last_saved,
        result is Err ==> told(app.state, post.state, MessageLevel::Error, (result->Err_0)@, now),
        post.state.config == app.state.config,
        post.state.edit_strings == app.state.edit_strings,
        same_place(app, post),
        action is Nothing,
{
    reveal(AppState::settled);
    match result {
        Ok(_) => lemma_told(
            app.state.settled(now),
            post.state,
            MessageLevel::Success,
            "Configuration saved successfully"@,
            now,
        ),
        Err(e) => lemma_told(app.state, post.state, MessageLevel::Error, e@, now),
    }
}

/// Defaults replace the configuration but for what the window remembers of itself. They
/// are shown and have yet to be saved.
pub proof fn defaults_keep_the_window(
    app: ConfigGuiApp,
    m: FileMessage,
    now: Timestamp,
    post: ConfigGuiApp,
    action: Action,
)
    requires
        m is DefaultsRestored,
        app.file_step(m, now, post, action),
    ensures
        ({
            let result = m->DefaultsRestored_0;
            &&& result is Ok ==> {
                &&& post.state.config.gui_state == app.state.config.gui_state
                &&& post.state.config.server == (result->Ok_0).0.server
                &&& post.state.config.security == (result->Ok_0).0.security
                &&& post.state.config.egfx == (result->Ok_0).0.egfx
                &&& post.state.config.performance == (result->Ok_0).0.performance
                &&& post.state.edit_strings.shows(post.state.config, (result->Ok_0).1)
                &&& post.state.is_dirty
                &&& post.state.active_preset is None
                &&& told(
                    app.state,
                    post.state,
                    MessageLevel::Success,
                    "Settings restored to defaults. Save to keep changes."@,
                    now,
                )
            }
            &&& result is Err ==> {
                &&& same_settings(app.state, post.state)
                &&& told(app.state, post.state, MessageLevel::Error, (result->Err_0)@, now)
            }
        }),
        same_place(app, post),
        action is Nothing,
{
    reveal(AppState::with_defaults);
    match m->DefaultsRestored_0 {
        Ok(pair) => lemma_told(
            app.state.with_defaults(pair.0, post.state.edit_strings),
            post.state,
            MessageLevel::Success,
            "Settings restored to defaults. Save to keep changes."@,
            now,
        ),
        Err(e) => lemma_told(app.state, post.state, MessageLevel::Error, e@, now),
    }
}

/// What is to be detected is asked for, and nothing changes before it is there.
/// Capabilities can be exported only once they are known.
pub proof fn detections_are_asked_for(
    app: ConfigGuiApp,
    m: DetectionMessage,
    now: Timestamp,
    post: ConfigGuiApp,
    action: Action,
)
    requires
        m is ValidateConfig || m is RefreshCapabilities || m is VideoDetectGpus
            || m is ExportCapabilities,
        app.detection_step(m, now, post, action),
    ensures
        post == app,
        m is ValidateConfig ==> action is ValidateConfig,
        m is RefreshCapabilities ==> action is DetectCapabilities,
        m is VideoDetectGpus ==> action is DetectGpus,
        m is ExportCapabilities && app.state.detected_capabilities is Some
            ==> action is ExportCapabilities,
        m is ExportCapabilities && app.state.detected_capabilities is None ==> action is Nothing,
{
}

/// What was detected is kept in its own place. Capabilities that could not be detected
/// are unknown, whatever was known before.
pub proof fn detected_things_are_kept(
    app: ConfigGuiApp,
    m: DetectionMessage,
    now: Timestamp,
    post: ConfigGuiApp,
    action: Action,
)
    requires
        m is ValidationComplete || m is CapabilitiesDetected || m is GpusDetected,
        app.detection_step(m, now, post, action),
    ensures
        m is ValidationComplete ==> post.state.validation.is_valid
            == m->ValidationComplete_0.is_valid && post.state.validation.errors
            == m->ValidationComplete_0.errors && post.state.validation.warnings
            == m->ValidationComplete_0.warnings,
        !(m is ValidationComplete) ==> post.state.validation == app.state.validation,
        m is CapabilitiesDetected && m->CapabilitiesDetected_0 is Ok
            ==> post.state.detected_capabilities == Some(m->CapabilitiesDetected_0->Ok_0),
        m is CapabilitiesDetected && m->CapabilitiesDetected_0 is Err
            ==> post.state.detected_capabilities is None,
        !(m is CapabilitiesDetected) ==> post.state.detected_capabilities
            == app.state.detected_capabilities,
        m is GpusDetected ==> post.state.detected_gpus == m->GpusDetected_0,
        !(m is GpusDetected) ==> post.state.detected_gpus == app.state.detected_gpus,
        post.state.messages == app.state.messages,
        same_settings(app.state, post.state),
        same_place(app, post),
        action is Nothing,
{
    reveal(AppState::with_validation);
    reveal(AppState::with_capabilities);
    reveal(AppState::with_gpus);
}

/// Where capabilities were exported to is told, and so is why they were not.
pub proof fn exports_are_told(
    app: ConfigGuiApp,
    result: Result<String, String>,
    now: Timestamp,
    post: ConfigGuiApp,
    action: Action,
)
    requires
        app.detection_step(DetectionMessage::CapabilitiesExported(result), now, post, action),
    ensures
        result is Ok ==> told(
            app.state,
            post.state,
            MessageLevel::Success,
            "Capabilities exported to: "@ + (result->Ok_0)@,
            now,
        ),
        result is Err ==> told(app.state, post.state, MessageLevel::Error, (result->Err_0)@, now),
        same_settings(app.state, post.state),
        same_place(app, post),
        action is Nothing,
{
    match result {
        Ok(path) => lemma_told(
            app.state,
            post.state,
            MessageLevel::Success,
            "Capabilities exported to: "@ + path@,
            now,
        ),
        Err(e) => lemma_told(app.state, post.state, MessageLevel::Error, e@, now),
    }
}

/// A line that was received ends the log view, read as a line of the log.
pub proof fn received_texts_are_logged(
    app: ConfigGuiApp,
    raw: String,
    now: Timestamp,
    post: ConfigGuiApp,
    action: Action,
)
    requires
        app.state.max_log_lines > 0,
        app.log_step(LogMessage::LogLineReceived(raw), now, post, action),
    ensures
        post.state.log_buffer@.len() > 0,
        post.state.log_buffer@.last().reads(raw@),
        post.state.messages == app.state.messages,
        same_settings(app.state, post.state),
        same_place(app, post),
        action is Nothing,
{
    reveal(AppState::with_log);
}

/// Clearing the log empties its view; exporting it leaves it. The filter takes the
/// level that is named, in whatever case.
pub proof fn log_views_are_kept_in_order(
    app: ConfigGuiApp,
    m: LogMessage,
    now: Timestamp,
    post: ConfigGuiApp,
    action: Action,
)
    requires
        m is ClearLogs || m is ExportLogs || m is LogFilterLevelChanged,
        app.log_step(m, now, post, action),
    ensures
        m is ClearLogs ==> post.state.log_buffer@.len() == 0,
        !(m is ClearLogs) ==> post.state.log_buffer == app.state.log_buffer,
        m is ExportLogs ==> action is ExportLogs && post == app,
        !(m is ExportLogs) ==> action is Nothing,
        m is LogFilterLevelChanged ==> post.state.log_filter_level
            == log_level_named(lowercase((m->LogFilterLevelChanged_0)@)),
        !(m is LogFilterLevelChanged) ==> post.state.log_filter_level
            == app.state.log_filter_level,
        post.state.messages == app.state.messages,
        same_settings(app.state, post.state),
        same_place(app, post),
{
    reveal(AppState::with_log);
    reveal(AppState::with_filter);
}

/// Notices are shown at their own level with their own text.
pub proof fn notices_are_shown(
    app: ConfigGuiApp,
    m: LogMessage,
    now: Timestamp,
    post: ConfigGuiApp,
    action: Action,
)
    requires
        m is ShowInfo || m is ShowWarning || m is ShowError,
        app.log_step(m, now, post, action),
    ensures
        m is ShowInfo ==> told(app.state, post.state, MessageLevel::Info, (m->ShowInfo_0)@, now),
        m is ShowWarning ==> told(
            app.state,
            post.state,
            MessageLevel::Warning,
            (m->ShowWarning_0)@,
            now,
        ),
        m is ShowError ==> told(
            app.state,
            post.state,
            MessageLevel::Error,
            (m->ShowError_0)@,
            now,
        ),
        same_settings(app.state, post.state),
        same_place(app, post),
        action is Nothing,
{
    match m {
        LogMessage::ShowInfo(text) => lemma_told(
            app.state,
            post.state,
            MessageLevel::Info,
            text@,
            now,
        ),
        LogMessage::ShowWarning(text) => lemma_told(
            app.state,
            post.state,
            MessageLevel::Warning,
            text@,
            now,
        ),
        LogMessage::ShowError(text) => lemma_told(
            app.state,
            post.state,
            MessageLevel::Error,
            text@,
            now,
        ),
        _ => {},
    }
}

/// Dismissing a notification takes away that one: those before it stay in their place
/// and those behind it move up. There is nothing to dismiss beyond the last.
pub proof fn dismissed_notices_are_gone(
    app: ConfigGuiApp,
    index: usize,
    i: int,
    now: Timestamp,
    post: ConfigGuiApp,
    action: Action,
)
    requires
        0 <= i,
        app.log_step(LogMessage::DismissMessage(index), now, post, action),
    ensures
        index < app.state.messages@.len() ==> post.state.messages@.len()
            == app.state.messages@.len() - 1,
        index >= app.state.messages@.len() ==> post.state.messages@ == app.state.messages@,
        i < index && i < app.state.messages@.len() ==> post.state.messages@[i]
            == app.state.messages@[i],
        index <= i && i + 1 < app.state.messages@.len() ==> post.state.messages@[i]
            == app.state.messages@[i + 1],
        same_settings(app.state, post.state),
        same_place(app, post),
        action is Nothing,
{
    reveal(AppState::with_messages);
}

/// Whether closing stops the server is a setting like any other.
pub proof fn close_behaviour_is_a_setting(
    app: ConfigGuiApp,
    stops: bool,
    now: Timestamp,
    post: ConfigGuiApp,
    action: Action,
)
    requires
        app.window_step(WindowMessage::ToggleCloseStopsServer(stops), now, post, action),
    ensures
        post.state.close_stops_server == stops,
        post.state.is_dirty,
        post.state.config == app.state.config,
        post.state.edit_strings == app.state.edit_strings,
        post.state.server_status == app.state.server_status,
        same_place(app, post),
        action is Nothing,
{
    reveal(AppState::with_close_behaviour);
    reveal(AppState::touched);
}

/// Unsaved changes keep the window open with a question. Without them it closes at
/// once.
pub proof fn unsaved_changes_keep_the_window_open(
    app: ConfigGuiApp,
    now: Timestamp,
    post: ConfigGuiApp,
    action: Action,
)
    requires
        app.window_step(WindowMessage::WindowCloseRequested, now, post, action),
    ensures
        app.state.is_dirty ==> action is Nothing && post.state.confirm_discard_dialog,
        !app.state.is_dirty ==> action is Exit && post == app,
        same_settings(app.state, post.state),
        same_place(app, post),
{
    reveal(AppState::with_question);
}

/// Whenever the window exits, it lets the server go exactly if a running server is
/// reached and closing is not to stop it.
pub proof fn exits_let_go_of_a_running_server(
    app: ConfigGuiApp,
    m: WindowMessage,
    now: Timestamp,
    post: ConfigGuiApp,
    action: Action,
)
    requires
        action is Exit,
        app.window_step(m, now, post, action),
    ensures
        action->detach_server <==> !app.state.close_stops_server && app.server_connection is Some
            && app.state.server_status is Running,
{
}

/// Who discards the changes leaves; who saves first leaves once that worked; who
/// cancels stays. The question is gone in each case.
pub proof fn questions_are_answered(
    app: ConfigGuiApp,
    m: WindowMessage,
    now: Timestamp,
    post: ConfigGuiApp,
    action: Action,
)
    requires
        m is ConfirmDiscardChanges || m is SaveAndExit || m is CancelDiscardChanges,
        app.window_step(m, now, post, action),
    ensures
        !post.state.confirm_discard_dialog,
        m is ConfirmDiscardChanges ==> action is Exit,
        m is SaveAndExit ==> action is SaveThenExit,
        m is CancelDiscardChanges ==> action is Nothing,
        m is SaveAndExit ==> post.state.config.gui_state.log_filter_level@
            == app.state.log_filter_level.config_name()
            && post.state.config.gui_state.close_stops_server == app.state.close_stops_server,
        !(m is SaveAndExit) ==> post.state.config == app.state.config,
        post.state.config.server == app.state.config.server,
        post.state.config.security == app.state.config.security,
        post.state.is_dirty == app.state.is_dirty,
        same_place(app, post),
{
    reveal(AppState::with_question);
    reveal(AppState::recorded);
}

/// Saving before leaving leaves nothing unsaved and exits; where it failed the window
/// stays and tells why.
pub proof fn saved_windows_exit(
    app: ConfigGuiApp,
    result: Result<(), String>,
    now: Timestamp,
    post: ConfigGuiApp,
    action: Action,
)
    requires
        app.window_step(WindowMessage::SaveAndExitFinished(result), now, post, action),
    ensures
        result is Ok ==> action is Exit && !post.state.is_dirty,
        result is Err ==> action is Nothing && post.state.is_dirty == app.state.is_dirty,
        result is Err ==> told(
            app.state,
            post.state,
            MessageLevel::Error,
            "Failed to save configuration: "@ + (result->Err_0)@,
            now,
        ),
        post.state.config == app.state.config,
        same_place(app, post),
{
    reveal(AppState::with_nothing_unsaved);
    if result is Err {
        lemma_told(
            app.state,
            post.state,
            MessageLevel::Error,
            "Failed to save configuration: "@ + (result->Err_0)@,
            now,
        );
    }
}

} // verus!
