//! What the window promises of its tabs, input fields and presets, told by what is seen before
//! and after an event.

use crate::clock::Timestamp;
use crate::gui::app::ConfigGuiApp;
use crate::gui::changes::{notified, refused_edits_change_nothing};
use crate::gui::edits::ConfigEdit;
use crate::gui::message::{Action, FieldMessage, Message, MultimonPreset, PresetMessage, Section};
use crate::gui::state::{composed_addr, AppState, MessageLevel, Tab, TabCategory};
use crate::text::{decimal, kept_lines, lines_of, number_text_round_trip, parsed, texts};
use vstd::prelude::*;

verus! {

/// What is configured, shown in the input fields and marked as unsaved is the same.
pub open spec fn same_settings(a: AppState, b: AppState) -> bool {
    &&& a.config == b.config
    &&& a.edit_strings == b.edit_strings
    &&& a.is_dirty == b.is_dirty
    &&& a.active_preset == b.active_preset
    &&& a.last_saved == b.last_saved
    &&& a.config_path == b.config_path
    &&& a.sections == b.sections
    &&& a.close_stops_server == b.close_stops_server
}

/// The way to the server and the shown tab are the same.
pub open spec fn same_place(a: ConfigGuiApp, b: ConfigGuiApp) -> bool {
    &&& a.current_tab == b.current_tab
    &&& a.server_connection == b.server_connection
    &&& a.reads_server_log == b.reads_server_log
    &&& a.connection_mode == b.connection_mode
}

/// One notification was added, of this level and with this text.
pub open spec fn told(
    before: AppState,
    after: AppState,
    level: MessageLevel,
    text: Seq<char>,
    now: Timestamp,
) -> bool {
    &&& after.messages@.len() == before.messages@.len() + 1
    &&& after.messages@.take(before.messages@.len() as int) == before.messages@
    &&& after.messages@.last().level == level
    &&& after.messages@.last().text@ == text
    &&& after.messages@.last().timestamp == now
}

pub proof fn lemma_told(
    before: AppState,
    after: AppState,
    level: MessageLevel,
    text: Seq<char>,
    now: Timestamp,
)
    requires
        notified(before, after, level, text, now),
    ensures
        told(before, after, level, text, now),
        after == (AppState { messages: after.messages, ..before }),
{
    reveal(notified);
    assert(after.messages@.take(before.messages@.len() as int) =~= after.messages@.drop_last());
}

/// Where nothing happened, nothing changes.
pub proof fn idle_events_change_nothing(
    app: ConfigGuiApp,
    m: Message,
    now: Timestamp,
    post: ConfigGuiApp,
    action: Action,
)
    requires
        m is Noop || m is Tick,
        app.step(m, now, post, action),
    ensures
        post == app,
        action is Nothing,
{
}

/// Selecting a tab shows it and changes nothing else.
pub proof fn selected_tabs_are_shown(
    app: ConfigGuiApp,
    tab: Tab,
    now: Timestamp,
    post: ConfigGuiApp,
    action: Action,
)
    requires
        app.step(Message::TabSelected(tab), now, post, action),
    ensures
        post.current_tab == tab,
        post.state == app.state,
        post.server_connection == app.server_connection,
        post.connection_mode == app.connection_mode,
        post.reads_server_log == app.reads_server_log,
        action is Nothing,
{
}

/// Selecting a category shows a tab of that category: the server, performance or video.
pub proof fn selected_categories_show_a_tab_of_theirs(
    app: ConfigGuiApp,
    category: TabCategory,
    now: Timestamp,
    post: ConfigGuiApp,
    action: Action,
)
    requires
        app.step(Message::CategorySelected(category), now, post, action),
    ensures
        post.current_tab.category_of() == category,
        post.current_tab == Tab::Server || post.current_tab == Tab::Performance || post.current_tab
            == Tab::Video,
        post.state == app.state,
        post.server_connection == app.server_connection,
        action is Nothing,
{
}

/// An edit reaches the configuration if it is accepted, and otherwise changes nothing.
/// The window asks for nothing.
pub proof fn edits_reach_the_configuration(
    app: ConfigGuiApp,
    edit: ConfigEdit,
    now: Timestamp,
    post: ConfigGuiApp,
    action: Action,
)
    requires
        app.step(Message::Edit(edit), now, post, action),
    ensures
        app.state.config.edited(edit) is None ==> post == app,
        app.state.config.edited(edit) is Some ==> post.state.config
            == app.state.config.edited(edit)->0 && post.state.is_dirty,
        same_place(app, post),
        post.state.edit_strings == app.state.edit_strings,
        post.state.messages == app.state.messages,
        action is Nothing,
{
    refused_edits_change_nothing(app.state, edit);
}

/// Folding a section is seen in the window alone: there is nothing to save.
pub proof fn sections_are_switched(
    app: ConfigGuiApp,
    section: Section,
    now: Timestamp,
    post: ConfigGuiApp,
    action: Action,
)
    requires
        app.step(Message::Toggle(section), now, post, action),
    ensures
        post.state.sections == app.state.sections.switched(section),
        post.state.config == app.state.config,
        post.state.is_dirty == app.state.is_dirty,
        post.state.edit_strings == app.state.edit_strings,
        same_place(app, post),
        action is Nothing,
{
    reveal(AppState::with_switched);
}

/// A host that is entered goes into the listen address, with the port that is shown.
pub proof fn hosts_go_into_the_listen_address(
    app: ConfigGuiApp,
    host: String,
    now: Timestamp,
    post: ConfigGuiApp,
    action: Action,
)
    requires
        app.field_step(FieldMessage::ServerListenAddrChanged(host), post, action),
    ensures
        post.state.edit_strings.server_ip == host,
        post.state.edit_strings.server_port == app.state.edit_strings.server_port,
        post.state.config.server.listen_addr@
            == composed_addr(host@, app.state.edit_strings.server_port@),
        post.state.config.server.max_connections == app.state.config.server.max_connections,
        post.state.config.security == app.state.config.security,
        post.state.is_dirty,
        same_place(app, post),
        action is Nothing,
{
    reveal(AppState::with_server_ip);
    reveal(AppState::with_texts);
    reveal(AppState::with_listen_addr);
    reveal(AppState::with_config);
    reveal(AppState::touched);
}

/// A port that is entered goes into the listen address, with the host that is shown.
pub proof fn ports_go_into_the_listen_address(
    app: ConfigGuiApp,
    port: String,
    now: Timestamp,
    post: ConfigGuiApp,
    action: Action,
)
    requires
        app.field_step(FieldMessage::ServerPortChanged(port), post, action),
    ensures
        post.state.edit_strings.server_port == port,
        post.state.edit_strings.server_ip == app.state.edit_strings.server_ip,
        post.state.config.server.listen_addr@
            == composed_addr(app.state.edit_strings.server_ip@, port@),
        post.state.config.server.max_connections == app.state.config.server.max_connections,
        post.state.config.security == app.state.config.security,
        post.state.is_dirty,
        same_place(app, post),
        action is Nothing,
{
    reveal(AppState::with_server_port);
    reveal(AppState::with_texts);
    reveal(AppState::with_listen_addr);
    reveal(AppState::with_config);
    reveal(AppState::touched);
}

/// The clipboard types are the lines that are not blank, and the resolutions are left
/// alone.
pub proof fn clipboard_types_are_one_to_a_line(
    app: ConfigGuiApp,
    text: String,
    now: Timestamp,
    post: ConfigGuiApp,
    action: Action,
)
    requires
        app.field_step(FieldMessage::ClipboardAllowedTypesChanged(text), post, action),
    ensures
        texts(post.state.config.clipboard.allowed_types@) == kept_lines(lines_of(text@)),
        post.state.config.clipboard.max_size == app.state.config.clipboard.max_size,
        post.state.config.clipboard.enabled == app.state.config.clipboard.enabled,
        post.state.config.display == app.state.config.display,
        post.state.is_dirty,
        same_place(app, post),
        action is Nothing,
{
    reveal(AppState::with_allowed_types);
    reveal(AppState::with_config);
    reveal(AppState::touched);
}

/// The resolutions are the lines that are not blank, and the clipboard is left alone.
pub proof fn resolutions_are_one_to_a_line(
    app: ConfigGuiApp,
    text: String,
    now: Timestamp,
    post: ConfigGuiApp,
    action: Action,
)
    requires
        app.field_step(FieldMessage::DisplayAllowedResolutionsChanged(text), post, action),
    ensures
        texts(post.state.config.display.allowed_resolutions@) == kept_lines(lines_of(text@)),
        post.state.config.display.allow_resize == app.state.config.display.allow_resize,
        post.state.config.clipboard == app.state.config.clipboard,
        post.state.is_dirty,
        same_place(app, post),
        action is Nothing,
{
    reveal(AppState::with_allowed_resolutions);
    reveal(AppState::with_config);
    reveal(AppState::touched);
}

/// The audio bitrate is entered in kilobits and configured in bits.
pub proof fn audio_bitrates_are_entered_in_kilobits(
    app: ConfigGuiApp,
    text: String,
    kbps: nat,
    now: Timestamp,
    post: ConfigGuiApp,
    action: Action,
)
    requires
        text@ == decimal(kbps),
        kbps * 1000 <= u32::MAX,
        app.field_step(FieldMessage::AudioOpusBitrateChanged(text), post, action),
    ensures
        post.state.config.audio.opus_bitrate == kbps * 1000,
        post.state.config.audio.sample_rate == app.state.config.audio.sample_rate,
        post.state.edit_strings.audio_opus_bitrate == text,
        post.state.is_dirty,
        same_place(app, post),
        action is Nothing,
{
    reveal(AppState::with_audio_opus_bitrate);
    reveal(AppState::with_texts);
    reveal(AppState::with_opus_bitrate);
    reveal(AppState::with_config);
    reveal(AppState::touched);
    number_text_round_trip(kbps, u32::MAX as nat);
}

/// A bitrate that is no number is shown as entered and configures nothing.
pub proof fn audio_bitrates_are_numbers(
    app: ConfigGuiApp,
    text: String,
    now: Timestamp,
    post: ConfigGuiApp,
    action: Action,
)
    requires
        parsed(text@, u32::MAX as nat) is None,
        app.field_step(FieldMessage::AudioOpusBitrateChanged(text), post, action),
    ensures
        post.state.config == app.state.config,
        post.state.is_dirty == app.state.is_dirty,
        post.state.edit_strings.audio_opus_bitrate == text,
        same_place(app, post),
        action is Nothing,
{
    reveal(AppState::with_audio_opus_bitrate);
    reveal(AppState::with_texts);
}

/// A number of monitors is shown and configured as entered.
pub proof fn monitor_counts_are_numbers(
    app: ConfigGuiApp,
    text: String,
    n: usize,
    now: Timestamp,
    post: ConfigGuiApp,
    action: Action,
)
    requires
        text@ == decimal(n as nat),
        app.field_step(FieldMessage::MultimonMaxMonitorsChanged(text), post, action),
    ensures
        post.state.config.multimon.max_monitors == n,
        post.state.config.multimon.enabled == app.state.config.multimon.enabled,
        post.state.edit_strings.max_monitors == text,
        post.state.is_dirty,
        same_place(app, post),
        action is Nothing,
{
    reveal(AppState::with_max_monitors);
    reveal(AppState::with_texts);
    reveal(AppState::with_monitor_limit);
    reveal(AppState::with_config);
    reveal(AppState::touched);
    number_text_round_trip(n as nat, usize::MAX as nat);
}

/// What is no number of monitors is not even shown.
pub proof fn other_monitor_counts_are_ignored(
    app: ConfigGuiApp,
    text: String,
    now: Timestamp,
    post: ConfigGuiApp,
    action: Action,
)
    requires
        parsed(text@, usize::MAX as nat) is None,
        app.field_step(FieldMessage::MultimonMaxMonitorsChanged(text), post, action),
    ensures
        post == app,
        action is Nothing,
{
}

/// An empty log directory means none; any other is configured as entered.
pub proof fn log_directories_are_configured(
    app: ConfigGuiApp,
    dir: String,
    now: Timestamp,
    post: ConfigGuiApp,
    action: Action,
)
    requires
        app.field_step(FieldMessage::LoggingLogDirChanged(dir), post, action),
    ensures
        dir@.len() == 0 <==> post.state.config.logging.log_dir is None,
        dir@.len() > 0 ==> post.state.config.logging.log_dir == Some(dir),
        post.state.config.logging.level == app.state.config.logging.level,
        post.state.edit_strings == app.state.edit_strings,
        post.state.is_dirty,
        same_place(app, post),
        action is Nothing,
{
    reveal(AppState::with_log_directory);
    reveal(AppState::with_config);
    reveal(AppState::touched);
}

/// A log directory that was picked is shown and configured; picking none changes
/// nothing.
pub proof fn picked_log_directories_are_taken(
    app: ConfigGuiApp,
    path: Option<String>,
    now: Timestamp,
    post: ConfigGuiApp,
    action: Action,
)
    requires
        app.field_step(FieldMessage::LoggingLogDirSelected(path), post, action),
    ensures
        path is None ==> post == app,
        path is Some ==> post.state.config.logging.log_dir == path
            && post.state.edit_strings.log_dir == path->0 && post.state.is_dirty,
        same_place(app, post),
        action is Nothing,
{
    reveal(AppState::with_log_dir);
    reveal(AppState::with_texts);
    reveal(AppState::with_log_directory);
    reveal(AppState::with_config);
    reveal(AppState::touched);
}

/// Clearing the log directory empties its field and configures none. Browsing for one
/// asks for a picker and changes nothing.
pub proof fn log_directories_are_cleared(
    app: ConfigGuiApp,
    m: FieldMessage,
    now: Timestamp,
    post: ConfigGuiApp,
    action: Action,
)
    requires
        m is LoggingClearLogDir || m is LoggingBrowseLogDir,
        app.field_step(m, post, action),
    ensures
        m is LoggingClearLogDir ==> post.state.config.logging.log_dir is None
            && post.state.edit_strings.log_dir@.len() == 0 && post.state.is_dirty
            && action is Nothing,
        m is LoggingBrowseLogDir ==> post == app && action is BrowseLogDir,
        same_place(app, post),
{
    reveal(AppState::with_log_dir);
    reveal(AppState::with_texts);
    reveal(AppState::with_log_directory);
    reveal(AppState::with_config);
    reveal(AppState::touched);
}

/// The monitor presets configure one to four monitors, or the number that is
/// configured, and show it.
pub proof fn monitor_presets_count_monitors(
    app: ConfigGuiApp,
    preset: MultimonPreset,
    now: Timestamp,
    post: ConfigGuiApp,
    action: Action,
)
    requires
        app.preset_step(PresetMessage::MultimonPresetSelected(preset), post, action),
    ensures
        preset is Single ==> post.state.config.multimon.max_monitors == 1,
        preset is Dual ==> post.state.config.multimon.max_monitors == 2,
        preset is Triple ==> post.state.config.multimon.max_monitors == 3,
        preset is Quad ==> post.state.config.multimon.max_monitors == 4,
        preset is Custom ==> post.state.config.multimon.max_monitors
            == app.state.config.multimon.max_monitors,
        parsed(post.state.edit_strings.max_monitors@, usize::MAX as nat)
            == Some(post.state.config.multimon.max_monitors as nat),
        post.state.is_dirty,
        same_place(app, post),
        action is Nothing,
{
    reveal(AppState::with_max_monitors);
    reveal(AppState::with_texts);
    reveal(AppState::with_monitor_limit);
    reveal(AppState::with_config);
    reveal(AppState::touched);
    number_text_round_trip(post.state.config.multimon.max_monitors as nat, usize::MAX as nat);
}

/// Choosing a preset asks for nothing, leaves the input fields of other settings and
/// the way to the server alone, and is a change to save.
pub proof fn presets_are_changes_to_save(
    app: ConfigGuiApp,
    m: PresetMessage,
    now: Timestamp,
    post: ConfigGuiApp,
    action: Action,
)
    requires
        app.preset_step(m, post, action),
    ensures
        post.state.is_dirty,
        post.state.active_preset is None,
        post.state.config.server == app.state.config.server,
        post.state.config.security == app.state.config.security,
        m is PerformancePresetSelected ==> post.state.config.egfx == app.state.config.egfx
            && post.state.config.damage_tracking == app.state.config.damage_tracking,
        m is EgfxPresetSelected ==> post.state.config.performance == app.state.config.performance
            && post.state.config.damage_tracking == app.state.config.damage_tracking,
        m is DamageTrackingPresetSelected ==> post.state.config.performance
            == app.state.config.performance && post.state.config.egfx == app.state.config.egfx,
        m is PerformancePresetSelected ==> post.state.config.performance.latency.mode@
            == m->PerformancePresetSelected_0.latency_mode(),
        same_place(app, post),
        action is Nothing,
{
    reveal(AppState::with_performance_preset);
    reveal(AppState::with_egfx_preset);
    reveal(AppState::with_damage_preset);
    reveal(AppState::with_max_monitors);
    reveal(AppState::with_texts);
    reveal(AppState::with_monitor_limit);
    reveal(AppState::with_config);
    reveal(AppState::touched);
}

} // verus!
