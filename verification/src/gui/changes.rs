//! Single changes of the window's state, each with the exact state it leads to.

use crate::clock::Timestamp;
use crate::config::{
    AudioConfig,
    ClipboardConfig,
    Config,
    DisplayConfig,
    LoggingConfig,
    MultimonConfig,
    SecurityConfig,
    ServerConfig,
};
use crate::text_map::TextMap;
use crate::gui::edits::{edits_keep_credentials, ConfigEdit};
use crate::gui::message::{
    DamageTrackingPreset,
    EgfxPreset,
    PerformancePreset,
    Section,
};
use crate::gui::presets::{
    apply_damage_tracking_preset,
    apply_egfx_preset,
    apply_performance_preset,
};
use crate::gui::state::{
    AppState,
    CertGenState,
    EditStrings,
    MessageLevel,
    Sections,
    ServerStatus,
};
use vstd::prelude::*;

verus! {

impl AppState {
    /// The state with the configuration modified.
    #[verifier::opaque]
    pub open spec fn touched(self) -> AppState {
        AppState { is_dirty: true, active_preset: None, ..self }
    }

    /// Marks the configuration as modified.
    pub fn touch(&mut self)
        ensures
            *final(self) == old(self).touched(),
            final(self).config == old(self).config,
            final(self).edit_strings == old(self).edit_strings,
    {
        self.mark_dirty();
        reveal(AppState::touched);
    }

    /// The state with another configuration.
    #[verifier::opaque]
    pub open spec fn with_config(self, config: Config) -> AppState {
        AppState { config, ..self }
    }

    /// The state with other text buffers.
    #[verifier::opaque]
    pub open spec fn with_texts(self, edit_strings: EditStrings) -> AppState {
        AppState { edit_strings, ..self }
    }

    /// The state with another text in the field.
    #[verifier::opaque]
    pub open spec fn with_server_ip(self, text: String) -> AppState {
        self.with_texts(EditStrings { server_ip: text, ..self.edit_strings })
    }

    /// Shows another host.
    pub fn show_server_ip(&mut self, text: String)
        ensures
            *final(self) == old(self).with_server_ip(text),
            final(self).edit_strings.server_ip == text,
            final(self).config == old(self).config,
    {
        self.edit_strings.server_ip = text;
        reveal(AppState::with_texts);
        reveal(AppState::with_server_ip);
    }

    /// The state with another text in the field.
    #[verifier::opaque]
    pub open spec fn with_server_port(self, text: String) -> AppState {
        self.with_texts(EditStrings { server_port: text, ..self.edit_strings })
    }

    /// Shows another port.
    pub fn show_server_port(&mut self, text: String)
        ensures
            *final(self) == old(self).with_server_port(text),
            final(self).edit_strings.server_port == text,
            final(self).config == old(self).config,
    {
        self.edit_strings.server_port = text;
        reveal(AppState::with_texts);
        reveal(AppState::with_server_port);
    }

    /// The state with another text in the field.
    #[verifier::opaque]
    pub open spec fn with_audio_opus_bitrate(self, text: String) -> AppState {
        self.with_texts(EditStrings { audio_opus_bitrate: text, ..self.edit_strings })
    }

    /// Shows another bitrate.
    pub fn show_audio_opus_bitrate(&mut self, text: String)
        ensures
            *final(self) == old(self).with_audio_opus_bitrate(text),
            final(self).edit_strings.audio_opus_bitrate == text,
            final(self).config == old(self).config,
    {
        self.edit_strings.audio_opus_bitrate = text;
        reveal(AppState::with_texts);
        reveal(AppState::with_audio_opus_bitrate);
    }

    /// The state with another text in the field.
    #[verifier::opaque]
    pub open spec fn with_max_monitors(self, text: String) -> AppState {
        self.with_texts(EditStrings { max_monitors: text, ..self.edit_strings })
    }

    /// Shows another monitor count.
    pub fn show_max_monitors(&mut self, text: String)
        ensures
            *final(self) == old(self).with_max_monitors(text),
            final(self).edit_strings.max_monitors == text,
            final(self).config == old(self).config,
    {
        self.edit_strings.max_monitors = text;
        reveal(AppState::with_texts);
        reveal(AppState::with_max_monitors);
    }

    /// The state with another text in the field.
    #[verifier::opaque]
    pub open spec fn with_log_dir(self, text: String) -> AppState {
        self.with_texts(EditStrings { log_dir: text, ..self.edit_strings })
    }

    /// Shows another log directory.
    pub fn show_log_dir(&mut self, text: String)
        ensures
            *final(self) == old(self).with_log_dir(text),
            final(self).edit_strings.log_dir == text,
            final(self).config == old(self).config,
    {
        self.edit_strings.log_dir = text;
        reveal(AppState::with_texts);
        reveal(AppState::with_log_dir);
    }

    /// The state with another text in the field.
    #[verifier::opaque]
    pub open spec fn with_cert_path(self, text: String) -> AppState {
        self.with_texts(EditStrings { cert_path: text, ..self.edit_strings })
    }

    /// Shows another certificate path.
    pub fn show_cert_path(&mut self, text: String)
        ensures
            *final(self) == old(self).with_cert_path(text),
            final(self).edit_strings.cert_path == text,
            final(self).config == old(self).config,
    {
        self.edit_strings.cert_path = text;
        reveal(AppState::with_texts);
        reveal(AppState::with_cert_path);
    }

    /// The state with another text in the field.
    #[verifier::opaque]
    pub open spec fn with_key_path(self, text: String) -> AppState {
        self.with_texts(EditStrings { key_path: text, ..self.edit_strings })
    }

    /// Shows another key path.
    pub fn show_key_path(&mut self, text: String)
        ensures
            *final(self) == old(self).with_key_path(text),
            final(self).edit_strings.key_path == text,
            final(self).config == old(self).config,
    {
        self.edit_strings.key_path = text;
        reveal(AppState::with_texts);
        reveal(AppState::with_key_path);
    }

    /// The state with another text in the field.
    #[verifier::opaque]
    pub open spec fn with_password_username(self, text: String) -> AppState {
        self.with_texts(EditStrings { password_username: text, ..self.edit_strings })
    }

    /// Shows another user name.
    pub fn show_password_username(&mut self, text: String)
        ensures
            *final(self) == old(self).with_password_username(text),
            final(self).edit_strings.password_username == text,
            final(self).config == old(self).config,
    {
        self.edit_strings.password_username = text;
        reveal(AppState::with_texts);
        reveal(AppState::with_password_username);
    }

    /// The state with another text in the field.
    #[verifier::opaque]
    pub open spec fn with_password(self, text: String) -> AppState {
        self.with_texts(EditStrings { password: text, ..self.edit_strings })
    }

    /// Shows another password.
    pub fn show_password(&mut self, text: String)
        ensures
            *final(self) == old(self).with_password(text),
            final(self).edit_strings.password == text,
            final(self).config == old(self).config,
    {
        self.edit_strings.password = text;
        reveal(AppState::with_texts);
        reveal(AppState::with_password);
    }

    /// The state with another value configured.
    #[verifier::opaque]
    pub open spec fn with_listen_addr(self, value: String) -> AppState {
        self.with_config(
            Config { server: ServerConfig { listen_addr: value, ..self.config.server }, ..self.config },
        ).touched()
    }

    /// Configures the listen address.
    pub fn set_listen_addr(&mut self, value: String)
        ensures
            *final(self) == old(self).with_listen_addr(value),
            final(self).config.server.listen_addr == value,
            final(self).edit_strings == old(self).edit_strings,
            final(self).config.security.password_credentials
                == old(self).config.security.password_credentials,
    {
        self.config.server.listen_addr = value;
        self.mark_dirty();
        reveal(AppState::touched);
        reveal(AppState::with_config);
        reveal(AppState::with_listen_addr);
    }

    /// The state with another value configured.
    #[verifier::opaque]
    pub open spec fn with_allowed_types(self, value: Vec<String>) -> AppState {
        self.with_config(
            Config { clipboard: ClipboardConfig { allowed_types: value, ..self.config.clipboard }, ..self.config },
        ).touched()
    }

    /// Configures the clipboard types.
    pub fn set_allowed_types(&mut self, value: Vec<String>)
        ensures
            *final(self) == old(self).with_allowed_types(value),
            final(self).config.clipboard.allowed_types == value,
            final(self).edit_strings == old(self).edit_strings,
            final(self).config.security.password_credentials
                == old(self).config.security.password_credentials,
    {
        self.config.clipboard.allowed_types = value;
        self.mark_dirty();
        reveal(AppState::touched);
        reveal(AppState::with_config);
        reveal(AppState::with_allowed_types);
    }

    /// The state with another value configured.
    #[verifier::opaque]
    pub open spec fn with_allowed_resolutions(self, value: Vec<String>) -> AppState {
        self.with_config(
            Config { display: DisplayConfig { allowed_resolutions: value, ..self.config.display }, ..self.config },
        ).touched()
    }

    /// Configures the resolutions.
    pub fn set_allowed_resolutions(&mut self, value: Vec<String>)
        ensures
            *final(self) == old(self).with_allowed_resolutions(value),
            final(self).config.display.allowed_resolutions == value,
            final(self).edit_strings == old(self).edit_strings,
            final(self).config.security.password_credentials
                == old(self).config.security.password_credentials,
    {
        self.config.display.allowed_resolutions = value;
        self.mark_dirty();
        reveal(AppState::touched);
        reveal(AppState::with_config);
        reveal(AppState::with_allowed_resolutions);
    }

    /// The state with another value configured.
    #[verifier::opaque]
    pub open spec fn with_opus_bitrate(self, value: u32) -> AppState {
        self.with_config(
            Config { audio: AudioConfig { opus_bitrate: value, ..self.config.audio }, ..self.config },
        ).touched()
    }

    /// Configures the Opus bitrate.
    pub fn set_opus_bitrate(&mut self, value: u32)
        ensures
            *final(self) == old(self).with_opus_bitrate(value),
            final(self).config.audio.opus_bitrate == value,
            final(self).edit_strings == old(self).edit_strings,
            final(self).config.security.password_credentials
                == old(self).config.security.password_credentials,
    {
        self.config.audio.opus_bitrate = value;
        self.mark_dirty();
        reveal(AppState::touched);
        reveal(AppState::with_config);
        reveal(AppState::with_opus_bitrate);
    }

    /// The state with another value configured.
    #[verifier::opaque]
    pub open spec fn with_monitor_limit(self, value: usize) -> AppState {
        self.with_config(
            Config { multimon: MultimonConfig { max_monitors: value, ..self.config.multimon }, ..self.config },
        ).touched()
    }

    /// Configures the number of monitors.
    pub fn set_monitor_limit(&mut self, value: usize)
        ensures
            *final(self) == old(self).with_monitor_limit(value),
            final(self).config.multimon.max_monitors == value,
            final(self).edit_strings == old(self).edit_strings,
            final(self).config.security.password_credentials
                == old(self).config.security.password_credentials,
    {
        self.config.multimon.max_monitors = value;
        self.mark_dirty();
        reveal(AppState::touched);
        reveal(AppState::with_config);
        reveal(AppState::with_monitor_limit);
    }

    /// The state with another value configured.
    #[verifier::opaque]
    pub open spec fn with_log_directory(self, value: Option<String>) -> AppState {
        self.with_config(
            Config { logging: LoggingConfig { log_dir: value, ..self.config.logging }, ..self.config },
        ).touched()
    }

    /// Configures the log directory.
    pub fn set_log_directory(&mut self, value: Option<String>)
        ensures
            *final(self) == old(self).with_log_directory(value),
            final(self).config.logging.log_dir == value,
            final(self).edit_strings == old(self).edit_strings,
            final(self).config.security.password_credentials
                == old(self).config.security.password_credentials,
    {
        self.config.logging.log_dir = value;
        self.mark_dirty();
        reveal(AppState::touched);
        reveal(AppState::with_config);
        reveal(AppState::with_log_directory);
    }

    /// The state with another value configured.
    #[verifier::opaque]
    pub open spec fn with_certificate(self, value: String) -> AppState {
        self.with_config(
            Config { security: SecurityConfig { cert_path: value, ..self.config.security }, ..self.config },
        ).touched()
    }

    /// Configures the certificate path.
    pub fn set_certificate(&mut self, value: String)
        ensures
            *final(self) == old(self).with_certificate(value),
            final(self).config.security.cert_path == value,
            final(self).edit_strings == old(self).edit_strings,
            final(self).config.security.password_credentials
                == old(self).config.security.password_credentials,
    {
        self.config.security.cert_path = value;
        self.mark_dirty();
        reveal(AppState::touched);
        reveal(AppState::with_config);
        reveal(AppState::with_certificate);
    }

    /// The state with another value configured.
    #[verifier::opaque]
    pub open spec fn with_private_key(self, value: String) -> AppState {
        self.with_config(
            Config { security: SecurityConfig { key_path: value, ..self.config.security }, ..self.config },
        ).touched()
    }

    /// Configures the key path.
    pub fn set_private_key(&mut self, value: String)
        ensures
            *final(self) == old(self).with_private_key(value),
            final(self).config.security.key_path == value,
            final(self).edit_strings == old(self).edit_strings,
            final(self).config.security.password_credentials
                == old(self).config.security.password_credentials,
    {
        self.config.security.key_path = value;
        self.mark_dirty();
        reveal(AppState::touched);
        reveal(AppState::with_config);
        reveal(AppState::with_private_key);
    }

    /// The state with network level authentication configured, under a security mode.
    #[verifier::opaque]
    pub open spec fn with_nla(self, value: bool, mode: String) -> AppState {
        self.with_config(
            Config {
                security: SecurityConfig {
                    enable_nla: value,
                    security_mode: mode,
                    ..self.config.security
                },
                ..self.config
            },
        ).touched()
    }

    /// Configures network level authentication. Switching it on selects the security
    /// mode that goes with it.
    pub fn set_nla(&mut self, value: bool)
        ensures
            *final(self) == old(self).with_nla(value, final(self).config.security.security_mode),
            value ==> final(self).config.security.security_mode@ == "hybrid"@,
            !value ==> final(self).config.security.security_mode
                == old(self).config.security.security_mode,
            final(self).config.security.password_credentials
                == old(self).config.security.password_credentials,
    {
        self.config.security.enable_nla = value;
        if value {
            self.config.security.security_mode = "hybrid".to_owned();
        }
        self.mark_dirty();
        reveal(AppState::touched);
        reveal(AppState::with_config);
        reveal(AppState::with_nla);
    }

    /// The state with other stored credentials.
    #[verifier::opaque]
    pub open spec fn with_credentials(self, credentials: TextMap) -> AppState {
        self.with_config(
            Config {
                security: SecurityConfig {
                    password_credentials: credentials,
                    ..self.config.security
                },
                ..self.config
            },
        )
    }

    /// Stores the hash of a user's password.
    pub fn put_credential(&mut self, name: String, hash: String)
        requires
            old(self).config.security.password_credentials.wf(),
        ensures
            final(self).config.security.password_credentials.wf(),
            final(self).config.security.password_credentials.adds(
                old(self).config.security.password_credentials,
                name@,
                hash@,
            ),
            *final(self) == old(self).with_credentials(
                final(self).config.security.password_credentials,
            ),
    {
        self.config.security.password_credentials.insert(name, hash);
        reveal(AppState::with_config);
        reveal(AppState::with_credentials);
    }

    /// Forgets a user's password.
    pub fn drop_credential(&mut self, name: &String)
        requires
            old(self).config.security.password_credentials.wf(),
        ensures
            final(self).config.security.password_credentials.wf(),
            final(self).config.security.password_credentials.lacks(
                old(self).config.security.password_credentials,
                name@,
            ),
            *final(self) == old(self).with_credentials(
                final(self).config.security.password_credentials,
            ),
    {
        self.config.security.password_credentials.remove(name);
        reveal(AppState::with_config);
        reveal(AppState::with_credentials);
    }

    /// The state after choosing a performance preset; `mode` names the latency mode.
    #[verifier::opaque]
    pub open spec fn with_performance_preset(
        self,
        preset: PerformancePreset,
        mode: String,
    ) -> AppState {
        self.with_config(
            Config { performance: preset.applied(self.config.performance, mode), ..self.config },
        ).touched()
    }

    /// Applies a performance preset.
    pub fn use_performance_preset(&mut self, preset: PerformancePreset)
        ensures
            final(self).config.performance.latency.mode@ == preset.latency_mode(),
            *final(self) == old(self).with_performance_preset(
                preset,
                final(self).config.performance.latency.mode,
            ),
            final(self).config.security.password_credentials
                == old(self).config.security.password_credentials,
    {
        apply_performance_preset(&mut self.config.performance, preset);
        self.mark_dirty();
        reveal(AppState::touched);
        reveal(AppState::with_config);
        reveal(AppState::with_performance_preset);
    }

    /// The state after choosing a graphics channel preset.
    #[verifier::opaque]
    pub open spec fn with_egfx_preset(self, preset: EgfxPreset) -> AppState {
        self.with_config(
            Config { egfx: preset.applied(self.config.egfx), ..self.config },
        ).touched()
    }

    /// Applies a graphics channel preset.
    pub fn use_egfx_preset(&mut self, preset: EgfxPreset)
        ensures
            *final(self) == old(self).with_egfx_preset(preset),
            final(self).config.security.password_credentials
                == old(self).config.security.password_credentials,
    {
        apply_egfx_preset(&mut self.config.egfx, preset);
        self.mark_dirty();
        reveal(AppState::touched);
        reveal(AppState::with_config);
        reveal(AppState::with_egfx_preset);
    }

    /// The state after choosing a damage tracking preset.
    #[verifier::opaque]
    pub open spec fn with_damage_preset(self, preset: DamageTrackingPreset) -> AppState {
        self.with_config(
            Config {
                damage_tracking: preset.applied(self.config.damage_tracking),
                ..self.config
            },
        ).touched()
    }

    /// Applies a damage tracking preset.
    pub fn use_damage_tracking_preset(&mut self, preset: DamageTrackingPreset)
        ensures
            *final(self) == old(self).with_damage_preset(preset),
            final(self).config.security.password_credentials
                == old(self).config.security.password_credentials,
    {
        apply_damage_tracking_preset(&mut self.config.damage_tracking, preset);
        self.mark_dirty();
        reveal(AppState::touched);
        reveal(AppState::with_config);
        reveal(AppState::with_damage_preset);
    }

    /// The state after an accepted edit.
    #[verifier::opaque]
    pub open spec fn with_edit(self, edit: ConfigEdit) -> AppState {
        match self.config.edited(edit) {
            Some(config) => self.with_config(config).touched(),
            None => self,
        }
    }

    /// Applies an edit. A rejected one changes nothing.
    pub fn edit(&mut self, edit: ConfigEdit)
        ensures
            *final(self) == old(self).with_edit(edit),
            final(self).config.security.password_credentials
                == old(self).config.security.password_credentials,
    {
        let ghost before = *self;
        if self.config.apply(edit) {
            self.mark_dirty();
        }
        reveal(AppState::touched);
        reveal(AppState::with_config);
        reveal(AppState::with_edit);
        proof {
            edits_keep_credentials(before.config, edit);
        }
    }

    /// The state with the certificate dialog opened, changed or closed.
    #[verifier::opaque]
    pub open spec fn with_cert_dialog(self, dialog: Option<CertGenState>) -> AppState {
        AppState { cert_gen_dialog: dialog, ..self }
    }

    /// Opens, changes or closes the certificate dialog.
    pub fn set_cert_dialog(&mut self, dialog: Option<CertGenState>)
        ensures
            *final(self) == old(self).with_cert_dialog(dialog),
            final(self).cert_gen_dialog == dialog,
            final(self).config == old(self).config,
    {
        self.cert_gen_dialog = dialog;
        reveal(AppState::with_cert_dialog);
    }

    /// Takes the certificate dialog out, to be put back by `set_cert_dialog`.
    pub fn take_cert_dialog(&mut self) -> (dialog: Option<CertGenState>)
        ensures
            dialog == old(self).cert_gen_dialog,
            final(self).config == old(self).config,
            forall|d: Option<CertGenState>| #[trigger]
                final(self).with_cert_dialog(d) == old(self).with_cert_dialog(d),
            dialog is None ==> *final(self) == *old(self),
    {
        reveal(AppState::with_cert_dialog);
        self.cert_gen_dialog.take()
    }

    /// The state with the first run dialog opened or closed, generating or not.
    #[verifier::opaque]
    pub open spec fn with_first_run(self, open: bool, generating: bool) -> AppState {
        AppState {
            first_run_cert_dialog: open,
            first_run_cert_generating: generating,
            ..self
        }
    }

    /// Opens or closes the first run dialog.
    pub fn set_first_run(&mut self, open: bool, generating: bool)
        ensures
            *final(self) == old(self).with_first_run(open, generating),
            final(self).config == old(self).config,
            final(self).edit_strings == old(self).edit_strings,
    {
        self.first_run_cert_dialog = open;
        self.first_run_cert_generating = generating;
        reveal(AppState::with_first_run);
    }

    /// The state with other knowledge of the server.
    #[verifier::opaque]
    pub open spec fn with_status(self, status: ServerStatus) -> AppState {
        AppState { server_status: status, ..self }
    }

    /// Records what is known of the server.
    pub fn set_status(&mut self, status: ServerStatus)
        ensures
            *final(self) == old(self).with_status(status),
            final(self).server_status == status,
            final(self).config == old(self).config,
    {
        self.server_status = status;
        reveal(AppState::with_status);
    }

    /// The state with the question about unsaved changes shown or hidden.
    #[verifier::opaque]
    pub open spec fn with_question(self, open: bool) -> AppState {
        AppState { confirm_discard_dialog: open, ..self }
    }

    /// Shows or hides the question about unsaved changes.
    pub fn ask_discard(&mut self, open: bool)
        ensures
            *final(self) == old(self).with_question(open),
            final(self).config == old(self).config,
            final(self).close_stops_server == old(self).close_stops_server,
            final(self).server_status == old(self).server_status,
    {
        self.confirm_discard_dialog = open;
        reveal(AppState::with_question);
    }

    /// The state with a section folded, unfolded or switched. That is no modification
    /// of the configuration.
    #[verifier::opaque]
    pub open spec fn with_switched(self, section: Section) -> AppState {
        AppState { sections: self.sections.switched(section), ..self }
    }

    /// Folds, unfolds or switches.
    pub fn toggle(&mut self, section: Section)
        ensures
            *final(self) == old(self).with_switched(section),
            final(self).config == old(self).config,
    {
        self.sections.switch(section);
        reveal(AppState::with_switched);
    }

    /// Adds a notification with a text that is known by its characters.
    pub fn notify(&mut self, level: MessageLevel, text: String, now: Timestamp)
        ensures
            notified(*old(self), *final(self), level, text@, now),
            final(self).config == old(self).config,
            final(self).edit_strings == old(self).edit_strings,
            final(self).server_status == old(self).server_status,
            final(self).close_stops_server == old(self).close_stops_server,
    {
        self.add_message(level, text, now);
        assert(self.messages@.drop_last() =~= old(self).messages@);
        reveal(notified);
    }
}

/// `after` is `before` with one more notification.
#[verifier::opaque]
pub open spec fn notified(
    before: AppState,
    after: AppState,
    level: MessageLevel,
    text: Seq<char>,
    now: Timestamp,
) -> bool {
    &&& after == AppState { messages: after.messages, ..before }
    &&& after.messages@.len() == before.messages@.len() + 1
    &&& after.messages@.drop_last() == before.messages@
    &&& after.messages@.last().level == level
    &&& after.messages@.last().text@ == text
    &&& after.messages@.last().timestamp == now
}

impl Sections {
    /// The flags with one of them switched.
    pub open spec fn switched(self, section: Section) -> Sections {
        Sections {
            video_pipeline_expanded: self.video_pipeline_expanded != (section == Section::VideoPipeline),
            adaptive_fps_expanded: self.adaptive_fps_expanded != (section == Section::AdaptiveFps),
            latency_expanded: self.latency_expanded != (section == Section::Latency),
            logging_expanded: self.logging_expanded != (section == Section::Logging),
            damage_tracking_expanded: self.damage_tracking_expanded != (section == Section::DamageTracking),
            hardware_encoding_expanded: self.hardware_encoding_expanded != (section == Section::HardwareEncoding),
            display_expanded: self.display_expanded != (section == Section::Display),
            multimon_expanded: self.multimon_expanded != (section == Section::Multimon),
            advanced_video_expanded: self.advanced_video_expanded != (section == Section::AdvancedVideo),
            cursor_expanded: self.cursor_expanded != (section == Section::Cursor),
            cursor_predictor_expanded: self.cursor_predictor_expanded != (section == Section::CursorPredictor),
            egfx_expert_mode: self.egfx_expert_mode != (section == Section::EgfxExpertMode),
            expert_mode: self.expert_mode != (section == Section::ExpertMode),
            log_auto_scroll: self.log_auto_scroll != (section == Section::LogAutoScroll),
        }
    }

    /// Switches one flag.
    pub fn switch(&mut self, section: Section)
        ensures
            *final(self) == old(self).switched(section),
    {
        match section {
            Section::VideoPipeline => {
                self.video_pipeline_expanded = !self.video_pipeline_expanded;
            },
            Section::AdaptiveFps => {
                self.adaptive_fps_expanded = !self.adaptive_fps_expanded;
            },
            Section::Latency => {
                self.latency_expanded = !self.latency_expanded;
            },
            Section::Logging => {
                self.logging_expanded = !self.logging_expanded;
            },
            Section::DamageTracking => {
                self.damage_tracking_expanded = !self.damage_tracking_expanded;
            },
            Section::HardwareEncoding => {
                self.hardware_encoding_expanded = !self.hardware_encoding_expanded;
            },
            Section::Display => {
                self.display_expanded = !self.display_expanded;
            },
            Section::Multimon => {
                self.multimon_expanded = !self.multimon_expanded;
            },
            Section::AdvancedVideo => {
                self.advanced_video_expanded = !self.advanced_video_expanded;
            },
            Section::Cursor => {
                self.cursor_expanded = !self.cursor_expanded;
            },
            Section::CursorPredictor => {
                self.cursor_predictor_expanded = !self.cursor_predictor_expanded;
            },
            Section::EgfxExpertMode => {
                self.egfx_expert_mode = !self.egfx_expert_mode;
            },
            Section::ExpertMode => {
                self.expert_mode = !self.expert_mode;
            },
            Section::LogAutoScroll => {
                self.log_auto_scroll = !self.log_auto_scroll;
            },
        }
    }
}

/// Switching a section twice leaves the window as it was.
pub proof fn toggling_twice_restores(sections: Sections, section: Section)
    ensures
        sections.switched(section).switched(section) == sections,
{
}

/// Showing a text puts it into its own input field. Showing the former text again
/// brings the whole window back.
pub proof fn texts_are_shown_in_their_field(s: AppState, text: String)
    ensures
        s.with_server_ip(text).edit_strings.server_ip == text,
        s.with_server_ip(text).with_server_ip(s.edit_strings.server_ip) == s,
        s.with_server_port(text).edit_strings.server_port == text,
        s.with_server_port(text).with_server_port(s.edit_strings.server_port) == s,
        s.with_audio_opus_bitrate(text).edit_strings.audio_opus_bitrate == text,
        s.with_audio_opus_bitrate(text).with_audio_opus_bitrate(s.edit_strings.audio_opus_bitrate) == s,
        s.with_max_monitors(text).edit_strings.max_monitors == text,
        s.with_max_monitors(text).with_max_monitors(s.edit_strings.max_monitors) == s,
        s.with_log_dir(text).edit_strings.log_dir == text,
        s.with_log_dir(text).with_log_dir(s.edit_strings.log_dir) == s,
        s.with_cert_path(text).edit_strings.cert_path == text,
        s.with_cert_path(text).with_cert_path(s.edit_strings.cert_path) == s,
        s.with_key_path(text).edit_strings.key_path == text,
        s.with_key_path(text).with_key_path(s.edit_strings.key_path) == s,
        s.with_password_username(text).edit_strings.password_username == text,
        s.with_password_username(text).with_password_username(s.edit_strings.password_username) == s,
        s.with_password(text).edit_strings.password == text,
        s.with_password(text).with_password(s.edit_strings.password) == s,
{
    reveal(AppState::with_texts);
    reveal(AppState::with_server_ip);
    reveal(AppState::with_server_port);
    reveal(AppState::with_audio_opus_bitrate);
    reveal(AppState::with_max_monitors);
    reveal(AppState::with_log_dir);
    reveal(AppState::with_cert_path);
    reveal(AppState::with_key_path);
    reveal(AppState::with_password_username);
    reveal(AppState::with_password);
}

/// Showing a text is no modification of the configuration.
pub proof fn shown_texts_leave_the_configuration(s: AppState, text: String)
    ensures
        s.with_server_ip(text).config == s.config,
        s.with_server_ip(text).is_dirty == s.is_dirty,
        s.with_server_ip(text).active_preset == s.active_preset,
        s.with_server_port(text).config == s.config,
        s.with_server_port(text).is_dirty == s.is_dirty,
        s.with_server_port(text).active_preset == s.active_preset,
        s.with_audio_opus_bitrate(text).config == s.config,
        s.with_audio_opus_bitrate(text).is_dirty == s.is_dirty,
        s.with_audio_opus_bitrate(text).active_preset == s.active_preset,
        s.with_max_monitors(text).config == s.config,
        s.with_max_monitors(text).is_dirty == s.is_dirty,
        s.with_max_monitors(text).active_preset == s.active_preset,
        s.with_log_dir(text).config == s.config,
        s.with_log_dir(text).is_dirty == s.is_dirty,
        s.with_log_dir(text).active_preset == s.active_preset,
        s.with_cert_path(text).config == s.config,
        s.with_cert_path(text).is_dirty == s.is_dirty,
        s.with_cert_path(text).active_preset == s.active_preset,
        s.with_key_path(text).config == s.config,
        s.with_key_path(text).is_dirty == s.is_dirty,
        s.with_key_path(text).active_preset == s.active_preset,
        s.with_password_username(text).config == s.config,
        s.with_password_username(text).is_dirty == s.is_dirty,
        s.with_password_username(text).active_preset == s.active_preset,
        s.with_password(text).config == s.config,
        s.with_password(text).is_dirty == s.is_dirty,
        s.with_password(text).active_preset == s.active_preset,
{
    reveal(AppState::with_texts);
    reveal(AppState::with_server_ip);
    reveal(AppState::with_server_port);
    reveal(AppState::with_audio_opus_bitrate);
    reveal(AppState::with_max_monitors);
    reveal(AppState::with_log_dir);
    reveal(AppState::with_cert_path);
    reveal(AppState::with_key_path);
    reveal(AppState::with_password_username);
    reveal(AppState::with_password);
}

/// Configuring the listen address configures that and nothing else, and the window has unsaved
/// changes that no preset describes.
pub proof fn listen_addr_is_configured_alone(s: AppState, value: String)
    ensures
        s.with_listen_addr(value).config.server.listen_addr == value,
        s.with_listen_addr(value).is_dirty,
        s.with_listen_addr(value).active_preset is None,
        s.with_listen_addr(s.config.server.listen_addr).config == s.config,
        s.with_listen_addr(value).with_listen_addr(s.config.server.listen_addr) == s.touched(),
        s.with_listen_addr(value).edit_strings == s.edit_strings,
        s.with_listen_addr(value).messages == s.messages,
{
    reveal(AppState::with_config);
    reveal(AppState::touched);
    reveal(AppState::with_listen_addr);
}

/// Configuring the clipboard types configures that and nothing else, and the window has unsaved
/// changes that no preset describes.
pub proof fn allowed_types_is_configured_alone(s: AppState, value: Vec<String>)
    ensures
        s.with_allowed_types(value).config.clipboard.allowed_types == value,
        s.with_allowed_types(value).is_dirty,
        s.with_allowed_types(value).active_preset is None,
        s.with_allowed_types(s.config.clipboard.allowed_types).config == s.config,
        s.with_allowed_types(value).with_allowed_types(s.config.clipboard.allowed_types) == s.touched(),
        s.with_allowed_types(value).edit_strings == s.edit_strings,
        s.with_allowed_types(value).messages == s.messages,
{
    reveal(AppState::with_config);
    reveal(AppState::touched);
    reveal(AppState::with_allowed_types);
}

/// Configuring the resolutions configures that and nothing else, and the window has unsaved
/// changes that no preset describes.
pub proof fn allowed_resolutions_is_configured_alone(s: AppState, value: Vec<String>)
    ensures
        s.with_allowed_resolutions(value).config.display.allowed_resolutions == value,
        s.with_allowed_resolutions(value).is_dirty,
        s.with_allowed_resolutions(value).active_preset is None,
        s.with_allowed_resolutions(s.config.display.allowed_resolutions).config == s.config,
        s.with_allowed_resolutions(value).with_allowed_resolutions(s.config.display.allowed_resolutions) == s.touched(),
        s.with_allowed_resolutions(value).edit_strings == s.edit_strings,
        s.with_allowed_resolutions(value).messages == s.messages,
{
    reveal(AppState::with_config);
    reveal(AppState::touched);
    reveal(AppState::with_allowed_resolutions);
}

/// Configuring the audio bitrate configures that and nothing else, and the window has unsaved
/// changes that no preset describes.
pub proof fn opus_bitrate_is_configured_alone(s: AppState, value: u32)
    ensures
        s.with_opus_bitrate(value).config.audio.opus_bitrate == value,
        s.with_opus_bitrate(value).is_dirty,
        s.with_opus_bitrate(value).active_preset is None,
        s.with_opus_bitrate(s.config.audio.opus_bitrate).config == s.config,
        s.with_opus_bitrate(value).with_opus_bitrate(s.config.audio.opus_bitrate) == s.touched(),
        s.with_opus_bitrate(value).edit_strings == s.edit_strings,
        s.with_opus_bitrate(value).messages == s.messages,
{
    reveal(AppState::with_config);
    reveal(AppState::touched);
    reveal(AppState::with_opus_bitrate);
}

/// Configuring the number of monitors configures that and nothing else, and the window has unsaved
/// changes that no preset describes.
pub proof fn monitor_limit_is_configured_alone(s: AppState, value: usize)
    ensures
        s.with_monitor_limit(value).config.multimon.max_monitors == value,
        s.with_monitor_limit(value).is_dirty,
        s.with_monitor_limit(value).active_preset is None,
        s.with_monitor_limit(s.config.multimon.max_monitors).config == s.config,
        s.with_monitor_limit(value).with_monitor_limit(s.config.multimon.max_monitors) == s.touched(),
        s.with_monitor_limit(value).edit_strings == s.edit_strings,
        s.with_monitor_limit(value).messages == s.messages,
{
    reveal(AppState::with_config);
    reveal(AppState::touched);
    reveal(AppState::with_monitor_limit);
}

/// Configuring the log directory configures that and nothing else, and the window has unsaved
/// changes that no preset describes.
pub proof fn log_directory_is_configured_alone(s: AppState, value: Option<String>)
    ensures
        s.with_log_directory(value).config.logging.log_dir == value,
        s.with_log_directory(value).is_dirty,
        s.with_log_directory(value).active_preset is None,
        s.with_log_directory(s.config.logging.log_dir).config == s.config,
        s.with_log_directory(value).with_log_directory(s.config.logging.log_dir) == s.touched(),
        s.with_log_directory(value).edit_strings == s.edit_strings,
        s.with_log_directory(value).messages == s.messages,
{
    reveal(AppState::with_config);
    reveal(AppState::touched);
    reveal(AppState::with_log_directory);
}

/// Configuring the certificate path configures that and nothing else, and the window has unsaved
/// changes that no preset describes.
pub proof fn certificate_is_configured_alone(s: AppState, value: String)
    ensures
        s.with_certificate(value).config.security.cert_path == value,
        s.with_certificate(value).is_dirty,
        s.with_certificate(value).active_preset is None,
        s.with_certificate(s.config.security.cert_path).config == s.config,
        s.with_certificate(value).with_certificate(s.config.security.cert_path) == s.touched(),
        s.with_certificate(value).edit_strings == s.edit_strings,
        s.with_certificate(value).messages == s.messages,
{
    reveal(AppState::with_config);
    reveal(AppState::touched);
    reveal(AppState::with_certificate);
}

/// Configuring the key path configures that and nothing else, and the window has unsaved
/// changes that no preset describes.
pub proof fn private_key_is_configured_alone(s: AppState, value: String)
    ensures
        s.with_private_key(value).config.security.key_path == value,
        s.with_private_key(value).is_dirty,
        s.with_private_key(value).active_preset is None,
        s.with_private_key(s.config.security.key_path).config == s.config,
        s.with_private_key(value).with_private_key(s.config.security.key_path) == s.touched(),
        s.with_private_key(value).edit_strings == s.edit_strings,
        s.with_private_key(value).messages == s.messages,
{
    reveal(AppState::with_config);
    reveal(AppState::touched);
    reveal(AppState::with_private_key);
}

/// Unsaved changes are marked, belong to no preset, and nothing else is marked with
/// them.
pub proof fn changes_are_marked(s: AppState)
    ensures
        s.touched().is_dirty,
        s.touched().active_preset is None,
        s.touched().config == s.config,
        s.touched().edit_strings == s.edit_strings,
        s.touched().messages == s.messages,
        s.touched().server_status == s.server_status,
        s.touched().last_saved == s.last_saved,
        s.is_dirty && s.active_preset is None ==> s.touched() == s,
{
    reveal(AppState::touched);
}

/// Network level authentication and the security mode are configured together; the
/// other security settings stay.
pub proof fn nla_is_configured_with_its_mode(s: AppState, value: bool, mode: String)
    ensures
        s.with_nla(value, mode).config.security.enable_nla == value,
        s.with_nla(value, mode).config.security.security_mode == mode,
        s.with_nla(value, mode).is_dirty,
        s.with_nla(value, mode).active_preset is None,
        s.with_nla(value, mode).with_nla(
            s.config.security.enable_nla,
            s.config.security.security_mode,
        ) == s.touched(),
{
    reveal(AppState::with_config);
    reveal(AppState::touched);
    reveal(AppState::with_nla);
}

/// Stored credentials are replaced as they are given. Whether that is marked is left to
/// the caller.
pub proof fn credentials_are_stored(s: AppState, credentials: TextMap)
    ensures
        s.with_credentials(credentials).config.security.password_credentials == credentials,
        s.with_credentials(credentials).with_credentials(
            s.config.security.password_credentials,
        ) == s,
        s.with_credentials(credentials).is_dirty == s.is_dirty,
{
    reveal(AppState::with_config);
    reveal(AppState::with_credentials);
}

/// A preset changes its own section of the configuration and leaves the other two as
/// they are. It is a modification like any other.
pub proof fn presets_change_their_section(
    s: AppState,
    p: PerformancePreset,
    e: EgfxPreset,
    d: DamageTrackingPreset,
    mode: String,
)
    ensures
        s.with_performance_preset(p, mode).config.performance == p.applied(
            s.config.performance,
            mode,
        ),
        s.with_performance_preset(p, mode).config.egfx == s.config.egfx,
        s.with_performance_preset(p, mode).config.damage_tracking == s.config.damage_tracking,
        s.with_performance_preset(p, mode).is_dirty,
        s.with_performance_preset(p, mode).edit_strings == s.edit_strings,
        s.with_egfx_preset(e).config.egfx == e.applied(s.config.egfx),
        s.with_egfx_preset(e).config.performance == s.config.performance,
        s.with_egfx_preset(e).config.damage_tracking == s.config.damage_tracking,
        s.with_egfx_preset(e).is_dirty,
        s.with_egfx_preset(e).edit_strings == s.edit_strings,
        s.with_damage_preset(d).config.damage_tracking == d.applied(s.config.damage_tracking),
        s.with_damage_preset(d).config.performance == s.config.performance,
        s.with_damage_preset(d).config.egfx == s.config.egfx,
        s.with_damage_preset(d).is_dirty,
        s.with_damage_preset(d).edit_strings == s.edit_strings,
        s.with_performance_preset(p, mode).config.security == s.config.security,
        s.with_egfx_preset(e).config.security == s.config.security,
        s.with_damage_preset(d).config.security == s.config.security,
{
    reveal(AppState::with_config);
    reveal(AppState::touched);
    reveal(AppState::with_performance_preset);
    reveal(AppState::with_egfx_preset);
    reveal(AppState::with_damage_preset);
}

/// An accepted edit takes effect and is marked. A refused one leaves the window as it
/// is, with nothing to save.
pub proof fn refused_edits_change_nothing(s: AppState, edit: ConfigEdit)
    ensures
        s.config.edited(edit) is None ==> s.with_edit(edit) == s,
        s.config.edited(edit) is Some ==> {
            &&& s.with_edit(edit).config == s.config.edited(edit)->0
            &&& s.with_edit(edit).is_dirty
            &&& s.with_edit(edit).active_preset is None
            &&& s.with_edit(edit).edit_strings == s.edit_strings
            &&& s.with_edit(edit).messages == s.messages
            &&& s.with_edit(edit).sections == s.sections
        },
{
    reveal(AppState::with_config);
    reveal(AppState::touched);
    reveal(AppState::with_edit);
}

/// Dialogs, the server's status and the open question are changed one at a time, and
/// each can be put back. None of them is a change to save.
pub proof fn dialogs_leave_the_configuration(
    s: AppState,
    dialog: Option<CertGenState>,
    status: ServerStatus,
    open: bool,
    generating: bool,
)
    ensures
        s.with_cert_dialog(dialog).cert_gen_dialog == dialog,
        s.with_cert_dialog(dialog).with_cert_dialog(s.cert_gen_dialog) == s,
        s.with_cert_dialog(dialog).config == s.config,
        s.with_cert_dialog(dialog).is_dirty == s.is_dirty,
        s.with_first_run(open, generating).first_run_cert_dialog == open,
        s.with_first_run(open, generating).first_run_cert_generating == generating,
        s.with_first_run(open, generating).with_first_run(
            s.first_run_cert_dialog,
            s.first_run_cert_generating,
        ) == s,
        s.with_first_run(open, generating).config == s.config,
        s.with_first_run(open, generating).is_dirty == s.is_dirty,
        s.with_status(status).server_status == status,
        s.with_status(status).with_status(s.server_status) == s,
        s.with_status(status).config == s.config,
        s.with_status(status).is_dirty == s.is_dirty,
        s.with_question(open).confirm_discard_dialog == open,
        s.with_question(open).with_question(s.confirm_discard_dialog) == s,
        s.with_question(open).config == s.config,
        s.with_question(open).is_dirty == s.is_dirty,
{
    reveal(AppState::with_cert_dialog);
    reveal(AppState::with_first_run);
    reveal(AppState::with_status);
    reveal(AppState::with_question);
}

/// A notification comes last, behind the earlier ones, and changes nothing else.
pub proof fn notifications_come_last(
    before: AppState,
    after: AppState,
    level: MessageLevel,
    text: Seq<char>,
    now: Timestamp,
    i: int,
)
    requires
        notified(before, after, level, text, now),
    ensures
        after.messages@.len() == before.messages@.len() + 1,
        0 <= i < before.messages@.len() ==> after.messages@[i] == before.messages@[i],
        after.messages@[before.messages@.len() as int].text@ == text,
        after.messages@[before.messages@.len() as int].level == level,
        after.messages@[before.messages@.len() as int].timestamp == now,
        after.config == before.config,
        after.is_dirty == before.is_dirty,
        after.server_status == before.server_status,
        after.edit_strings == before.edit_strings,
{
    reveal(notified);
    if 0 <= i < before.messages@.len() {
        assert(after.messages@.drop_last()[i] == after.messages@[i]);
    }
}

/// Each switch of the window flips the flag that carries its name.
pub proof fn switches_flip_their_flag(s: Sections)
    ensures
        s.switched(Section::VideoPipeline).video_pipeline_expanded == !s.video_pipeline_expanded,
        s.switched(Section::AdaptiveFps).adaptive_fps_expanded == !s.adaptive_fps_expanded,
        s.switched(Section::Latency).latency_expanded == !s.latency_expanded,
        s.switched(Section::Logging).logging_expanded == !s.logging_expanded,
        s.switched(Section::DamageTracking).damage_tracking_expanded == !s.damage_tracking_expanded,
        s.switched(Section::HardwareEncoding).hardware_encoding_expanded == !s.hardware_encoding_expanded,
        s.switched(Section::Display).display_expanded == !s.display_expanded,
        s.switched(Section::Multimon).multimon_expanded == !s.multimon_expanded,
        s.switched(Section::AdvancedVideo).advanced_video_expanded == !s.advanced_video_expanded,
        s.switched(Section::Cursor).cursor_expanded == !s.cursor_expanded,
        s.switched(Section::CursorPredictor).cursor_predictor_expanded == !s.cursor_predictor_expanded,
        s.switched(Section::EgfxExpertMode).egfx_expert_mode == !s.egfx_expert_mode,
        s.switched(Section::ExpertMode).expert_mode == !s.expert_mode,
        s.switched(Section::LogAutoScroll).log_auto_scroll == !s.log_auto_scroll,
{
}

/// A switch leaves the flags of the other switches alone.
pub proof fn switches_leave_other_flags(s: Sections, section: Section)
    ensures
        section != Section::VideoPipeline ==> s.switched(section).video_pipeline_expanded == s.video_pipeline_expanded,
        section != Section::AdaptiveFps ==> s.switched(section).adaptive_fps_expanded == s.adaptive_fps_expanded,
        section != Section::Latency ==> s.switched(section).latency_expanded == s.latency_expanded,
        section != Section::Logging ==> s.switched(section).logging_expanded == s.logging_expanded,
        section != Section::DamageTracking ==> s.switched(section).damage_tracking_expanded == s.damage_tracking_expanded,
        section != Section::HardwareEncoding ==> s.switched(section).hardware_encoding_expanded == s.hardware_encoding_expanded,
        section != Section::Display ==> s.switched(section).display_expanded == s.display_expanded,
        section != Section::Multimon ==> s.switched(section).multimon_expanded == s.multimon_expanded,
        section != Section::AdvancedVideo ==> s.switched(section).advanced_video_expanded == s.advanced_video_expanded,
        section != Section::Cursor ==> s.switched(section).cursor_expanded == s.cursor_expanded,
        section != Section::CursorPredictor ==> s.switched(section).cursor_predictor_expanded == s.cursor_predictor_expanded,
        section != Section::EgfxExpertMode ==> s.switched(section).egfx_expert_mode == s.egfx_expert_mode,
        section != Section::ExpertMode ==> s.switched(section).expert_mode == s.expert_mode,
        section != Section::LogAutoScroll ==> s.switched(section).log_auto_scroll == s.log_auto_scroll,
{
}

/// Folding a section is no modification of the configuration.
pub proof fn switches_leave_the_configuration(s: AppState, section: Section)
    ensures
        s.with_switched(section).sections == s.sections.switched(section),
        s.with_switched(section).with_switched(section) == s,
        s.with_switched(section).config == s.config,
        s.with_switched(section).is_dirty == s.is_dirty,
        s.with_switched(section).active_preset == s.active_preset,
{
    reveal(AppState::with_switched);
}

} // verus!
