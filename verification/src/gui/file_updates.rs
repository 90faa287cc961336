//! Loading, saving and resetting the configuration.

use crate::clock::Timestamp;
use crate::config::Config;
use crate::gui::app::{join2, ConfigGuiApp};
use crate::gui::changes::notified;
use crate::gui::message::{Action, FileMessage};
use crate::gui::state::{AppState, EditStrings, FormattedSettings, MessageLevel};
use vstd::prelude::*;

verus! {

impl AppState {
    /// The state with the configuration saved or loaded at `now`.
    #[verifier::opaque]
    pub open spec fn settled(self, now: Timestamp) -> AppState {
        AppState { is_dirty: false, last_saved: Some(now), ..self }
    }

    /// Marks the configuration as saved or loaded.
    pub fn settle(&mut self, now: Timestamp)
        ensures
            *final(self) == old(self).settled(now),
            final(self).config == old(self).config,
            final(self).edit_strings == old(self).edit_strings,
    {
        self.mark_clean(now);
        reveal(AppState::settled);
    }

    /// The state with what the window remembers of itself in the configuration;
    /// `level` names the log filter.
    #[verifier::opaque]
    pub open spec fn recorded(self, level: String) -> AppState {
        AppState { config: Config { gui_state: self.remembered_as(level), ..self.config }, ..self }
    }

    /// Copies what the window remembers of itself into the configuration.
    pub fn record(&mut self)
        ensures
            *final(self) == old(self).recorded(final(self).config.gui_state.log_filter_level),
            final(self).config.gui_state.log_filter_level@
                == old(self).log_filter_level.config_name(),
            final(self).config.security == old(self).config.security,
    {
        self.sync_gui_state_to_config();
        reveal(AppState::recorded);
    }

    /// The state with a configuration that was loaded, which the input fields show.
    #[verifier::opaque]
    pub open spec fn with_loaded(self, config: Config, shown: EditStrings) -> AppState {
        AppState { config, edit_strings: shown, ..self }
    }

    /// Takes over a configuration that was loaded, and shows it in the input fields.
    pub fn take_loaded(&mut self, config: Config, formatted: &FormattedSettings)
        ensures
            *final(self) == old(self).with_loaded(config, final(self).edit_strings),
            final(self).config == config,
            final(self).edit_strings.shows(config, *formatted),
    {
        self.edit_strings = EditStrings::from_config(&config, formatted);
        self.config = config;
        reveal(AppState::with_loaded);
    }

    /// The state with a default configuration, of which the window keeps its own part.
    #[verifier::opaque]
    pub open spec fn with_defaults(self, config: Config, shown: EditStrings) -> AppState {
        AppState {
            config: Config { gui_state: self.config.gui_state, ..config },
            edit_strings: shown,
            is_dirty: true,
            active_preset: None,
            ..self
        }
    }

    /// Takes over a default configuration but for the window's own part.
    pub fn take_defaults(&mut self, config: Config, formatted: &FormattedSettings)
        ensures
            *final(self) == old(self).with_defaults(config, final(self).edit_strings),
            final(self).config == (Config { gui_state: old(self).config.gui_state, ..config }),
            final(self).edit_strings.shows(final(self).config, *formatted),
    {
        let mut config = config;
        std::mem::swap(&mut config.gui_state, &mut self.config.gui_state);
        self.config = config;
        let shown = EditStrings::from_config(&self.config, formatted);
        self.edit_strings = shown;
        self.mark_dirty();
        reveal(AppState::with_defaults);
    }
}

impl ConfigGuiApp {
    /// What an event around the configuration file changes and asks for.
    pub open spec fn file_step(
        self,
        m: FileMessage,
        now: Timestamp,
        post: ConfigGuiApp,
        action: Action,
    ) -> bool {
        let s = self.state;
        let p = post.state;
        let level = p.config.gui_state.log_filter_level;
        match m {
            FileMessage::LoadConfig | FileMessage::BrowseConfigFile => {
                action == Action::BrowseConfig && post == self
            },
            FileMessage::ConfigFileSelected(path) => {
                &&& post == self
                &&& action == match path {
                    Some(file) => Action::LoadConfig(file),
                    None => Action::Nothing,
                }
            },
            FileMessage::ConfigLoaded(result) => {
                &&& action == Action::Nothing
                &&& post == self.with_state(p)
                &&& match result {
                    Ok(pair) => {
                        let shown = p.edit_strings;
                        &&& shown.shows(pair.0, pair.1)
                        &&& notified(
                            s.with_loaded(pair.0, shown).settled(now),
                            p,
                            MessageLevel::Success,
                            "Configuration loaded successfully"@,
                            now,
                        )
                    },
                    Err(e) => notified(
                        s,
                        p,
                        MessageLevel::Error,
                        "Failed to load config: "@ + e@,
                        now,
                    ),
                }
            },
            FileMessage::SaveConfig => {
                &&& action == Action::SaveConfig
                &&& level@ == s.log_filter_level.config_name()
                &&& post == self.with_state(s.recorded(level))
            },
            FileMessage::SaveConfigAs => {
                &&& action == Action::SaveConfigAs
                &&& level@ == s.log_filter_level.config_name()
                &&& post == self.with_state(s.recorded(level))
            },
            FileMessage::ConfigSaved(result) => {
                &&& action == Action::Nothing
                &&& post == self.with_state(p)
                &&& match result {
                    Ok(_) => notified(
                        s.settled(now),
                        p,
                        MessageLevel::Success,
                        "Configuration saved successfully"@,
                        now,
                    ),
                    Err(e) => notified(s, p, MessageLevel::Error, e@, now),
                }
            },
            FileMessage::RestoreDefaults => action == Action::LoadDefaults && post == self,
            FileMessage::DefaultsRestored(result) => {
                &&& action == Action::Nothing
                &&& post == self.with_state(p)
                &&& match result {
                    Ok(pair) => {
                        let config = pair.0;
                        let shown = p.edit_strings;
                        &&& shown.shows(
                            Config { gui_state: s.config.gui_state, ..config },
                            pair.1,
                        )
                        &&& notified(
                            s.with_defaults(config, shown),
                            p,
                            MessageLevel::Success,
                            "Settings restored to defaults. Save to keep changes."@,
                            now,
                        )
                    },
                    Err(e) => notified(s, p, MessageLevel::Error, e@, now),
                }
            },
        }
    }

    pub(crate) fn update_file(&mut self, m: FileMessage, now: Timestamp) -> (action: Action)
        requires
            old(self).wf(),
            m.wf(),
        ensures
            final(self).wf(),
            old(self).file_step(m, now, *final(self), action),
    {
        match m {
            FileMessage::LoadConfig => Action::BrowseConfig,
            FileMessage::BrowseConfigFile => Action::BrowseConfig,
            FileMessage::ConfigFileSelected(path) => match path {
                Some(file) => Action::LoadConfig(file),
                None => Action::Nothing,
            },
            FileMessage::ConfigLoaded(result) => {
                match result {
                    Ok(pair) => {
                        let (config, formatted) = pair;
                        self.state.take_loaded(config, &formatted);
                        self.state.settle(now);
                        self.state.notify(
                            MessageLevel::Success,
                            "Configuration loaded successfully".to_owned(),
                            now,
                        );
                    },
                    Err(e) => {
                        let text = join2("Failed to load config: ", e.as_str());
                        self.state.notify(MessageLevel::Error, text, now);
                    },
                }
                Action::Nothing
            },
            FileMessage::SaveConfig => {
                self.state.record();
                Action::SaveConfig
            },
            FileMessage::SaveConfigAs => {
                self.state.record();
                Action::SaveConfigAs
            },
            FileMessage::ConfigSaved(result) => {
                match result {
                    Ok(_) => {
                        self.state.settle(now);
                        self.state.notify(
                            MessageLevel::Success,
                            "Configuration saved successfully".to_owned(),
                            now,
                        );
                    },
                    Err(e) => {
                        self.state.notify(MessageLevel::Error, e, now);
                    },
                }
                Action::Nothing
            },
            FileMessage::RestoreDefaults => Action::LoadDefaults,
            FileMessage::DefaultsRestored(result) => {
                match result {
                    Ok(pair) => {
                        let (config, formatted) = pair;
                        self.state.take_defaults(config, &formatted);
                        self.state.notify(
                            MessageLevel::Success,
                            "Settings restored to defaults. Save to keep changes.".to_owned(),
                            now,
                        );
                    },
                    Err(e) => {
                        self.state.notify(MessageLevel::Error, e, now);
                    },
                }
                Action::Nothing
            },
        }
    }
}

/// A configuration that was loaded is in force, unchanged, and shown in the input fields.
pub proof fn loaded_settings_are_shown(
    app: ConfigGuiApp,
    loaded: (Config, FormattedSettings),
    now: Timestamp,
    post: ConfigGuiApp,
    action: Action,
)
    requires
        app.file_step(FileMessage::ConfigLoaded(Ok(loaded)), now, post, action),
    ensures
        post.state.config == loaded.0,
        post.state.edit_strings.shows(loaded.0, loaded.1),
        !post.state.is_dirty,
{
    reveal(notified);
    reveal(AppState::with_loaded);
    reveal(AppState::settled);
}

/// Resetting to the defaults keeps what the window remembers of itself, and leaves
/// the configuration unsaved.
pub proof fn defaults_keep_window_state(s: AppState, config: Config, shown: EditStrings)
    ensures
        s.with_defaults(config, shown).config.gui_state == s.config.gui_state,
        s.with_defaults(config, shown).config.server == config.server,
        s.with_defaults(config, shown).is_dirty,
{
    reveal(AppState::with_defaults);
}

/// What the window remembers of itself survives saving: a window opened on the saved
/// configuration has the same sections unfolded and the same log filter.
pub proof fn saved_window_state_is_restored(s: AppState, level: String)
    requires
        level@ == s.log_filter_level.config_name(),
    ensures
        s.recorded(level).config.gui_state.expert_mode == s.sections.expert_mode,
        s.recorded(level).config.gui_state.close_stops_server == s.close_stops_server,
        s.recorded(level).config.gui_state.log_auto_scroll == s.sections.log_auto_scroll,
        crate::gui::state::log_level_named(s.recorded(level).config.gui_state.log_filter_level@)
            == s.log_filter_level,
        s.recorded(level).config == (Config {
            gui_state: s.remembered_as(level),
            ..s.config
        }),
{
    reveal(AppState::recorded);
    crate::gui::state::log_level_round_trip(s.log_filter_level);
}

} // verus!
