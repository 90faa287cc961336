//! Detection results, the log view, notifications and closing the window.

use crate::clock::Timestamp;
use crate::gui::app::{join2, ConfigGuiApp};
use crate::gui::changes::notified;
use crate::gui::message::{Action, DetectionMessage, LogMessage, WindowMessage};
use crate::gui::state::{
    log_level_named,
    logged,
    AppState,
    DetectedCapabilities,
    GpuInfo,
    LogLevel,
    LogLine,
    MessageLevel,
    UserMessage,
    ValidationState,
};
use crate::text::{lowercase, to_lowercase};
use vstd::prelude::*;

verus! {

impl AppState {
    /// The state with the outcome of a validation.
    #[verifier::opaque]
    pub open spec fn with_validation(self, validation: ValidationState) -> AppState {
        AppState { validation, ..self }
    }

    /// The state with detected capabilities.
    #[verifier::opaque]
    pub open spec fn with_capabilities(self, caps: Option<DetectedCapabilities>) -> AppState {
        AppState { detected_capabilities: caps, ..self }
    }

    /// The state with detected graphics cards.
    #[verifier::opaque]
    pub open spec fn with_gpus(self, gpus: Vec<GpuInfo>) -> AppState {
        AppState { detected_gpus: gpus, ..self }
    }

    /// The state with another log filter.
    #[verifier::opaque]
    pub open spec fn with_filter(self, level: LogLevel) -> AppState {
        AppState { log_filter_level: level, ..self }
    }

    /// The state with other notifications.
    #[verifier::opaque]
    pub open spec fn with_messages(self, messages: Vec<UserMessage>) -> AppState {
        AppState { messages, ..self }
    }

    /// The state with another close behaviour.
    #[verifier::opaque]
    pub open spec fn with_close_behaviour(self, stops: bool) -> AppState {
        AppState { close_stops_server: stops, ..self }
    }

    /// The state with nothing left to save.
    #[verifier::opaque]
    pub open spec fn with_nothing_unsaved(self) -> AppState {
        AppState { is_dirty: false, ..self }
    }

    fn set_validation(&mut self, validation: ValidationState)
        ensures
            *final(self) == old(self).with_validation(validation),
            final(self).config == old(self).config,
    {
        self.validation = validation;
        reveal(AppState::with_validation);
    }

    fn set_capabilities(&mut self, caps: Option<DetectedCapabilities>)
        ensures
            *final(self) == old(self).with_capabilities(caps),
            final(self).config == old(self).config,
    {
        self.detected_capabilities = caps;
        reveal(AppState::with_capabilities);
    }

    fn set_gpus(&mut self, gpus: Vec<GpuInfo>)
        ensures
            *final(self) == old(self).with_gpus(gpus),
            final(self).config == old(self).config,
    {
        self.detected_gpus = gpus;
        reveal(AppState::with_gpus);
    }

    fn set_filter(&mut self, level: LogLevel)
        ensures
            *final(self) == old(self).with_filter(level),
            final(self).config == old(self).config,
    {
        self.log_filter_level = level;
        reveal(AppState::with_filter);
    }

    fn clear_log(&mut self)
        ensures
            *final(self) == old(self).with_log(final(self).log_buffer),
            final(self).log_buffer@.len() == 0,
            final(self).config == old(self).config,
    {
        self.log_buffer = Vec::new();
        reveal(AppState::with_log);
    }

    fn dismiss(&mut self, index: usize)
        ensures
            *final(self) == old(self).with_messages(final(self).messages),
            final(self).messages@ == (if index < old(self).messages@.len() {
                old(self).messages@.remove(index as int)
            } else {
                old(self).messages@
            }),
            final(self).config == old(self).config,
    {
        if index < self.messages.len() {
            self.messages.remove(index);
        }
        reveal(AppState::with_messages);
    }

    fn set_close_behaviour(&mut self, stops: bool)
        ensures
            *final(self) == old(self).with_close_behaviour(stops).touched(),
            final(self).config == old(self).config,
    {
        self.close_stops_server = stops;
        self.mark_dirty();
        reveal(AppState::with_close_behaviour);
        reveal(AppState::touched);
    }

    fn forget_unsaved(&mut self)
        ensures
            *final(self) == old(self).with_nothing_unsaved(),
            final(self).config == old(self).config,
            final(self).close_stops_server == old(self).close_stops_server,
            final(self).server_status == old(self).server_status,
    {
        self.is_dirty = false;
        reveal(AppState::with_nothing_unsaved);
    }
}

impl ConfigGuiApp {
    /// What a detection changes and asks for.
    pub open spec fn detection_step(
        self,
        m: DetectionMessage,
        now: Timestamp,
        post: ConfigGuiApp,
        action: Action,
    ) -> bool {
        let s = self.state;
        let p = post.state;
        match m {
            DetectionMessage::ValidateConfig => action == Action::ValidateConfig && post == self,
            DetectionMessage::ValidationComplete(result) => {
                &&& action == Action::Nothing
                &&& post == self.with_state(
                    s.with_validation(
                        ValidationState {
                            is_valid: result.is_valid,
                            errors: result.errors,
                            warnings: result.warnings,
                        },
                    ),
                )
            },
            DetectionMessage::RefreshCapabilities => {
                action == Action::DetectCapabilities && post == self
            },
            DetectionMessage::CapabilitiesDetected(result) => {
                &&& action == Action::Nothing
                &&& post == self.with_state(
                    s.with_capabilities(
                        match result {
                            Ok(caps) => Some(caps),
                            Err(_) => None,
                        },
                    ),
                )
            },
            DetectionMessage::VideoDetectGpus => action == Action::DetectGpus && post == self,
            DetectionMessage::GpusDetected(gpus) => {
                action == Action::Nothing && post == self.with_state(s.with_gpus(gpus))
            },
            DetectionMessage::ExportCapabilities => {
                &&& post == self
                &&& action == (if s.detected_capabilities is Some {
                    Action::ExportCapabilities
                } else {
                    Action::Nothing
                })
            },
            DetectionMessage::CapabilitiesExported(result) => {
                &&& action == Action::Nothing
                &&& post == self.with_state(p)
                &&& match result {
                    Ok(path) => notified(
                        s,
                        p,
                        MessageLevel::Success,
                        "Capabilities exported to: "@ + path@,
                        now,
                    ),
                    Err(e) => notified(s, p, MessageLevel::Error, e@, now),
                }
            },
        }
    }

    pub(crate) fn update_detection(&mut self, m: DetectionMessage, now: Timestamp) -> (action:
        Action)
        requires
            old(self).wf(),
        ensures
            final(self).wf(),
            old(self).detection_step(m, now, *final(self), action),
    {
        match m {
            DetectionMessage::ValidateConfig => Action::ValidateConfig,
            DetectionMessage::ValidationComplete(result) => {
                self.state.set_validation(ValidationState::from(result));
                Action::Nothing
            },
            DetectionMessage::RefreshCapabilities => Action::DetectCapabilities,
            DetectionMessage::CapabilitiesDetected(result) => {
                match result {
                    Ok(caps) => self.state.set_capabilities(Some(caps)),
                    Err(_) => self.state.set_capabilities(None),
                }
                Action::Nothing
            },
            DetectionMessage::VideoDetectGpus => Action::DetectGpus,
            DetectionMessage::GpusDetected(gpus) => {
                self.state.set_gpus(gpus);
                Action::Nothing
            },
            DetectionMessage::ExportCapabilities => {
                if self.state.detected_capabilities.is_some() {
                    Action::ExportCapabilities
                } else {
                    Action::Nothing
                }
            },
            DetectionMessage::CapabilitiesExported(result) => {
                match result {
                    Ok(path) => {
                        let text = join2("Capabilities exported to: ", path.as_str());
                        self.state.notify(MessageLevel::Success, text, now);
                    },
                    Err(e) => self.state.notify(MessageLevel::Error, e, now),
                }
                Action::Nothing
            },
        }
    }

    /// What an event of the log view or the notifications changes and asks for.
    pub open spec fn log_step(
        self,
        m: LogMessage,
        now: Timestamp,
        post: ConfigGuiApp,
        action: Action,
    ) -> bool {
        let s = self.state;
        let p = post.state;
        match m {
            LogMessage::LogLineReceived(raw) => {
                &&& action == Action::Nothing
                &&& post == self.with_state(s.with_log(p.log_buffer))
                &&& exists|line: LogLine| #[trigger]
                    line.reads(raw@) && p.log_buffer@ == logged(
                        s.log_buffer@,
                        line,
                        s.max_log_lines as nat,
                    )
            },
            LogMessage::ClearLogs => {
                &&& action == Action::Nothing
                &&& p.log_buffer@.len() == 0
                &&& post == self.with_state(s.with_log(p.log_buffer))
            },
            LogMessage::LogFilterLevelChanged(level) => {
                &&& action == Action::Nothing
                &&& post == self.with_state(s.with_filter(log_level_named(lowercase(level@))))
            },
            LogMessage::ExportLogs => action == Action::ExportLogs && post == self,
            LogMessage::ShowInfo(text) => {
                &&& action == Action::Nothing
                &&& post == self.with_state(p)
                &&& notified(s, p, MessageLevel::Info, text@, now)
            },
            LogMessage::ShowWarning(text) => {
                &&& action == Action::Nothing
                &&& post == self.with_state(p)
                &&& notified(s, p, MessageLevel::Warning, text@, now)
            },
            LogMessage::ShowError(text) => {
                &&& action == Action::Nothing
                &&& post == self.with_state(p)
                &&& notified(s, p, MessageLevel::Error, text@, now)
            },
            LogMessage::DismissMessage(index) => {
                &&& action == Action::Nothing
                &&& post == self.with_state(s.with_messages(p.messages))
                &&& p.messages@ == (if index < s.messages@.len() {
                    s.messages@.remove(index as int)
                } else {
                    s.messages@
                })
            },
        }
    }

    pub(crate) fn update_log(&mut self, m: LogMessage, now: Timestamp) -> (action: Action)
        requires
            old(self).wf(),
        ensures
            final(self).wf(),
            old(self).log_step(m, now, *final(self), action),
    {
        match m {
            LogMessage::LogLineReceived(raw) => {
                let line = LogLine::parse(raw.as_str());
                self.state.log(line);
                assert(line.reads(raw@));
                Action::Nothing
            },
            LogMessage::ClearLogs => {
                self.state.clear_log();
                Action::Nothing
            },
            LogMessage::LogFilterLevelChanged(level) => {
                let name = to_lowercase(level.as_str());
                self.state.set_filter(LogLevel::named(name.as_str()));
                Action::Nothing
            },
            LogMessage::ExportLogs => Action::ExportLogs,
            LogMessage::ShowInfo(text) => {
                self.state.notify(MessageLevel::Info, text, now);
                Action::Nothing
            },
            LogMessage::ShowWarning(text) => {
                self.state.notify(MessageLevel::Warning, text, now);
                Action::Nothing
            },
            LogMessage::ShowError(text) => {
                self.state.notify(MessageLevel::Error, text, now);
                Action::Nothing
            },
            LogMessage::DismissMessage(index) => {
                self.state.dismiss(index);
                Action::Nothing
            },
        }
    }

    /// Leaving: a running server is let go first where it is to keep running.
    pub open spec fn exit_action(self) -> Action {
        Action::Exit { detach_server: self.leaves_server() }
    }

    /// Leaves the window. A server that is to keep running is let go first; otherwise
    /// it ends with the window.
    pub(crate) fn perform_exit(&self) -> (action: Action)
        ensures
            action == self.exit_action(),
    {
        Action::Exit {
            detach_server: !self.state.close_stops_server && self.server_connection.is_some()
                && self.state.server_status.is_running(),
        }
    }

    /// What closing the window changes and asks for.
    pub open spec fn window_step(
        self,
        m: WindowMessage,
        now: Timestamp,
        post: ConfigGuiApp,
        action: Action,
    ) -> bool {
        let s = self.state;
        let p = post.state;
        let level = p.config.gui_state.log_filter_level;
        match m {
            WindowMessage::ToggleCloseStopsServer(stops) => {
                &&& action == Action::Nothing
                &&& post == self.with_state(s.with_close_behaviour(stops).touched())
            },
            WindowMessage::WindowCloseRequested => if s.is_dirty {
                action == Action::Nothing && post == self.with_state(s.with_question(true))
            } else {
                action == self.exit_action() && post == self
            },
            WindowMessage::ConfirmDiscardChanges => {
                &&& action == self.exit_action()
                &&& post == self.with_state(s.with_question(false))
            },
            WindowMessage::SaveAndExit => {
                &&& action == Action::SaveThenExit
                &&& level@ == s.log_filter_level.config_name()
                &&& post == self.with_state(s.with_question(false).recorded(level))
            },
            WindowMessage::SaveAndExitFinished(result) => match result {
                Ok(_) => {
                    &&& action == self.exit_action()
                    &&& post == self.with_state(s.with_nothing_unsaved())
                },
                Err(e) => {
                    &&& action == Action::Nothing
                    &&& post == self.with_state(p)
                    &&& notified(
                        s,
                        p,
                        MessageLevel::Error,
                        "Failed to save configuration: "@ + e@,
                        now,
                    )
                },
            },
            WindowMessage::CancelDiscardChanges => {
                action == Action::Nothing && post == self.with_state(s.with_question(false))
            },
        }
    }

    pub(crate) fn update_window(&mut self, m: WindowMessage, now: Timestamp) -> (action: Action)
        requires
            old(self).wf(),
        ensures
            final(self).wf(),
            old(self).window_step(m, now, *final(self), action),
    {
        match m {
            WindowMessage::ToggleCloseStopsServer(stops) => {
                self.state.set_close_behaviour(stops);
                Action::Nothing
            },
            WindowMessage::WindowCloseRequested => {
                if self.state.is_dirty {
                    self.state.ask_discard(true);
                    Action::Nothing
                } else {
                    self.perform_exit()
                }
            },
            WindowMessage::ConfirmDiscardChanges => {
                self.state.ask_discard(false);
                self.perform_exit()
            },
            WindowMessage::SaveAndExit => {
                let ghost filter = self.state.log_filter_level;
                self.state.ask_discard(false);
                assert(self.state.log_filter_level == filter) by {
                    reveal(AppState::with_question);
                }
                self.state.record();
                Action::SaveThenExit
            },
            WindowMessage::SaveAndExitFinished(result) => match result {
                Ok(_) => {
                    self.state.forget_unsaved();
                    self.perform_exit()
                },
                Err(e) => {
                    let text = join2("Failed to save configuration: ", e.as_str());
                    self.state.notify(MessageLevel::Error, text, now);
                    Action::Nothing
                },
            },
            WindowMessage::CancelDiscardChanges => {
                self.state.ask_discard(false);
                Action::Nothing
            },
        }
    }
}

} // verus!
