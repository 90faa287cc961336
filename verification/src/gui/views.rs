//! What the configuration window shows, before it is drawn.

use crate::gui::state::{
    categories_partition_tabs,
    AppState,
    LogLine,
    ServerStatus,
    Tab,
    TabCategory,
};
use crate::text::{decimal, number};
use vstd::prelude::*;

verus! {

/// A colour of the window.
#[derive(Debug, Clone, Copy, PartialEq, Eq, Structural)]
pub enum Tone {
    Muted,
    Error,
    Warning,
    Success,
}

/// The head of the window: how the server is, and what can be done with it. A running server
/// can be stopped and restarted, any other can be started.
#[derive(Debug)]
pub struct HeaderView {
    pub status: &'static str,
    pub tone: Tone,
    pub is_running: bool,
}

impl HeaderView {
    /// The head for a server.
    pub open spec fn shows(self, status: ServerStatus) -> bool {
        match status {
            ServerStatus::Unknown => self.status@ == "Offline"@ && self.tone == Tone::Muted
                && !self.is_running,
            ServerStatus::Stopped => self.status@ == "Stopped"@ && self.tone == Tone::Error
                && !self.is_running,
            ServerStatus::Starting => self.status@ == "Starting..."@ && self.tone == Tone::Warning
                && !self.is_running,
            ServerStatus::Running { .. } => self.status@ == "Running"@ && self.tone
                == Tone::Success && self.is_running,
            ServerStatus::Error(_) => self.status@ == "Error"@ && self.tone == Tone::Error
                && !self.is_running,
        }
    }
}

/// The head for a server.
pub fn view_header(status: &ServerStatus) -> (r: HeaderView)
    ensures
        r.shows(*status),
{
    match status {
        ServerStatus::Unknown => HeaderView {
            status: "Offline",
            tone: Tone::Muted,
            is_running: false,
        },
        ServerStatus::Stopped => HeaderView {
            status: "Stopped",
            tone: Tone::Error,
            is_running: false,
        },
        ServerStatus::Starting => HeaderView {
            status: "Starting...",
            tone: Tone::Warning,
            is_running: false,
        },
        ServerStatus::Running { .. } => HeaderView {
            status: "Running",
            tone: Tone::Success,
            is_running: true,
        },
        ServerStatus::Error(_) => HeaderView {
            status: "Error",
            tone: Tone::Error,
            is_running: false,
        },
    }
}

/// A button of the category bar.
#[derive(Debug, Clone, Copy, PartialEq, Eq, Structural)]
pub struct CategoryButton {
    pub category: TabCategory,
    pub is_active: bool,
}

/// A button of the tab bar.
#[derive(Debug, Clone, Copy, PartialEq, Eq, Structural)]
pub struct TabButton {
    pub tab: Tab,
    pub is_active: bool,
}

/// The two bars under the head.
#[derive(Debug)]
pub struct TabBarView {
    pub categories: Vec<CategoryButton>,
    pub tabs: Vec<TabButton>,
}

/// The buttons of the category bar.
pub open spec fn category_buttons(current: Tab) -> Seq<CategoryButton> {
    seq![TabCategory::Core, TabCategory::System, TabCategory::Media].map_values(
        |c: TabCategory| (CategoryButton { category: c, is_active: c == current.category_of() }),
    )
}

/// The buttons of the tab bar.
pub open spec fn tab_buttons(current: Tab) -> Seq<TabButton> {
    current.category_of().tab_list().map_values(
        |t: Tab| (TabButton { tab: t, is_active: t == current }),
    )
}

/// All categories, and the tabs of the category that the current tab is in.
pub fn view_tab_bar(current: Tab) -> (r: TabBarView)
    ensures
        r.categories@ == category_buttons(current),
        r.tabs@ == tab_buttons(current),
{
    let here = current.category();
    let all = TabCategory::all();
    let mut categories: Vec<CategoryButton> = Vec::new();
    let mut i: usize = 0;
    while i < all.len()
        invariant
            i <= all@.len(),
            here == current.category_of(),
            categories@ =~= all@.take(i as int).map_values(
                |c: TabCategory|
                    (CategoryButton { category: c, is_active: c == current.category_of() }),
            ),
        decreases all@.len() - i,
    {
        let category: TabCategory = all[i];
        categories.push(CategoryButton { category, is_active: category == here });
        i += 1;
    }
    assert(all@.take(i as int) =~= all@);
    let listed = here.tabs();
    let mut tabs: Vec<TabButton> = Vec::new();
    let mut j: usize = 0;
    while j < listed.len()
        invariant
            j <= listed@.len(),
            tabs@ =~= listed@.take(j as int).map_values(
                |t: Tab| (TabButton { tab: t, is_active: t == current }),
            ),
        decreases listed@.len() - j,
    {
        let tab: Tab = listed[j];
        tabs.push(TabButton { tab, is_active: tab == current });
        j += 1;
    }
    assert(listed@.take(j as int) =~= listed@);
    TabBarView { categories, tabs }
}

/// The foot of the window.
#[derive(Debug)]
pub struct FooterView {
    pub saved: &'static str,
    pub saved_tone: Tone,
    pub validation: String,
    pub validation_tone: Tone,
    pub config_path: String,
}

impl FooterView {
    /// The foot for a state.
    pub open spec fn shows(self, state: AppState) -> bool {
        &&& self.saved@ == if state.is_dirty {
            "● Unsaved changes"@
        } else {
            "● Saved"@
        }
        &&& self.saved_tone == if state.is_dirty {
            Tone::Warning
        } else {
            Tone::Success
        }
        &&& self.validation@ == if state.validation.is_valid {
            "✓ Valid configuration"@
        } else {
            "✗ "@ + decimal(state.validation.errors@.len()) + " errors"@
        }
        &&& self.validation_tone == if state.validation.is_valid {
            Tone::Success
        } else {
            Tone::Error
        }
        &&& self.config_path@ == "Config: "@ + state.config_path@
    }
}

/// The foot of the window: whether there are unsaved changes, how many mistakes there are, and
/// which file is edited.
pub fn view_footer(state: &AppState) -> (r: FooterView)
    ensures
        r.shows(*state),
{
    let (saved, saved_tone) = if state.is_dirty {
        ("● Unsaved changes", Tone::Warning)
    } else {
        ("● Saved", Tone::Success)
    };
    let (validation, validation_tone) = if state.validation.is_valid {
        ("✓ Valid configuration".to_owned(), Tone::Success)
    } else {
        let mut t = "✗ ".to_owned();
        t.append(number(state.validation.errors.len() as u64).as_str());
        t.append(" errors");
        (t, Tone::Error)
    };
    let mut config_path = "Config: ".to_owned();
    config_path.append(state.config_path.as_str());
    FooterView { saved, saved_tone, validation, validation_tone, config_path }
}

/// The dialog of the first run.
#[derive(Debug)]
pub struct FirstRunView {
    pub location: String,
    pub generate_hint: &'static str,
    pub can_generate: bool,
}

impl FirstRunView {
    /// The dialog for a state.
    pub open spec fn shows(self, state: AppState, is_flatpak: bool, cert_dir: Seq<char>) -> bool {
        &&& self.location@ == (if is_flatpak {
            "Running in Flatpak sandbox. Certificates will be stored in:\n"@
        } else {
            "Certificates will be stored in:\n"@
        }) + cert_dir
        &&& self.generate_hint@ == if state.first_run_cert_generating {
            " (Generating...)"@
        } else {
            " (Recommended)"@
        }
        &&& self.can_generate == !state.first_run_cert_generating
    }
}

/// The dialog of the first run: where certificates go, and whether one can be generated, which
/// is not so while that is being done.
pub fn view_first_run_cert_dialog(state: &AppState, is_flatpak: bool, cert_dir: &str) -> (r:
    FirstRunView)
    ensures
        r.shows(*state, is_flatpak, cert_dir@),
{
    let mut location = if is_flatpak {
        "Running in Flatpak sandbox. Certificates will be stored in:\n".to_owned()
    } else {
        "Certificates will be stored in:\n".to_owned()
    };
    location.append(cert_dir);
    FirstRunView {
        location,
        generate_hint: if state.first_run_cert_generating {
            " (Generating...)"
        } else {
            " (Recommended)"
        },
        can_generate: !state.first_run_cert_generating,
    }
}

/// A layer of the window.
#[derive(Debug, Clone, Copy, PartialEq, Eq, Structural)]
pub enum Layer {
    /// The question what to do with unsaved changes.
    UnsavedChanges,
    /// The dialog of the first run.
    FirstRun,
    /// The window itself, with the content of a tab.
    Window(Tab),
}

/// The layers of the window, the topmost first.
pub open spec fn layers(state: AppState, current: Tab) -> Seq<Layer> {
    (if state.confirm_discard_dialog {
        seq![Layer::UnsavedChanges]
    } else {
        seq![]
    }) + (if state.first_run_cert_dialog {
        seq![Layer::FirstRun]
    } else {
        seq![]
    }) + seq![Layer::Window(current)]
}

/// What the window consists of: the dialogs that are open, above the content of the current
/// tab. The question about unsaved changes lies above everything else.
pub fn view(state: &AppState, current: Tab) -> (r: Vec<Layer>)
    ensures
        r@ == layers(*state, current),
{
    let mut r: Vec<Layer> = Vec::new();
    if state.confirm_discard_dialog {
        r.push(Layer::UnsavedChanges);
    }
    if state.first_run_cert_dialog {
        r.push(Layer::FirstRun);
    }
    r.push(Layer::Window(current));
    assert(r@ =~= layers(*state, current));
    r
}

/// A source of messages to the window.
#[derive(Debug, Clone, Copy, PartialEq, Eq, Structural)]
pub enum MessageSource {
    /// A tick every so many milliseconds.
    Tick { every_ms: u64 },
    /// The window is to be closed.
    CloseRequests,
    /// The server's output is looked at every so many milliseconds.
    PollServerLogs { every_ms: u64 },
}

/// The sources of messages.
pub open spec fn sources(has_connection: bool) -> Seq<MessageSource> {
    if has_connection {
        seq![
            MessageSource::Tick { every_ms: 1000 },
            MessageSource::CloseRequests,
            MessageSource::PollServerLogs { every_ms: 100 },
        ]
    } else {
        seq![MessageSource::Tick { every_ms: 1000 }, MessageSource::CloseRequests]
    }
}

/// The sources of messages: a slow tick and the closing of the window; a fast one too while
/// there is a server.
pub fn subscription(has_connection: bool) -> (r: Vec<MessageSource>)
    ensures
        r@ == sources(has_connection),
{
    let mut r: Vec<MessageSource> = Vec::new();
    r.push(MessageSource::Tick { every_ms: 1000 });
    r.push(MessageSource::CloseRequests);
    if has_connection {
        r.push(MessageSource::PollServerLogs { every_ms: 100 });
    }
    r
}

/// A line of an exported log.
pub open spec fn exported_line(line: LogLine) -> Seq<char> {
    line.timestamp@ + " ["@ + line.level.title() + "] "@ + line.message@ + "\n"@
}

/// The lines of an exported log, one after the other.
pub open spec fn exported_lines(lines: Seq<LogLine>) -> Seq<char>
    decreases lines.len(),
{
    if lines.len() == 0 {
        seq![]
    } else {
        exported_lines(lines.drop_last()) + exported_line(lines.last())
    }
}

/// A log as it is exported.
pub open spec fn exported_log(lines: Seq<LogLine>, exported_at: Seq<char>) -> Seq<char> {
    "# Lamco RDP Server Logs\n# Exported at: "@ + exported_at + "\n\n"@ + exported_lines(lines)
}

/// A log as it is exported: a head with the time, then every line.
pub fn export_logs(lines: &Vec<LogLine>, exported_at: &str) -> (r: String)
    ensures
        r@ == exported_log(lines@, exported_at@),
{
    let mut r = "# Lamco RDP Server Logs\n# Exported at: ".to_owned();
    r.append(exported_at);
    r.append("\n\n");
    let ghost head = r@;
    let mut i: usize = 0;
    assert(r@ =~= head + exported_lines(lines@.take(0)));
    while i < lines.len()
        invariant
            i <= lines@.len(),
            r@ == head + exported_lines(lines@.take(i as int)),
        decreases lines@.len() - i,
    {
        let line = &lines[i];
        let ghost before = r@;
        r.append(line.timestamp.as_str());
        r.append(" [");
        r.append(line.level.to_title());
        r.append("] ");
        r.append(line.message.as_str());
        r.append("\n");
        assert(lines@.take(i + 1).drop_last() =~= lines@.take(i as int));
        assert(r@ =~= before + exported_line(*line));
        assert(r@ =~= head + exported_lines(lines@.take(i + 1)));
        i += 1;
    }
    assert(lines@.take(i as int) =~= lines@);
    r
}

/// What is said of an export: it was cancelled, it failed, or where it went.
pub fn export_finished(outcome: Option<Result<String, String>>) -> (r: Result<String, String>)
    ensures
        match outcome {
            None => r matches Err(t) && t@ == "Export cancelled"@,
            Some(Ok(name)) => r matches Ok(t) && t@ == "Logs exported ("@ + name@ + ")"@,
            Some(Err(e)) => r matches Err(t) && t@ == "Failed to write: "@ + e@,
        },
{
    match outcome {
        None => Err("Export cancelled".to_owned()),
        Some(Ok(name)) => {
            let mut t = "Logs exported (".to_owned();
            t.append(name.as_str());
            t.append(")");
            Ok(t)
        },
        Some(Err(e)) => {
            let mut t = "Failed to write: ".to_owned();
            t.append(e.as_str());
            Err(t)
        },
    }
}

/// The line under a control that explains it.
pub fn help_line(help: &str) -> (r: String)
    ensures
        r@ == "ⓘ "@ + help@,
{
    let mut r = "ⓘ ".to_owned();
    r.append(help);
    r
}

/// The line under a control that warns about it.
pub fn note_line(note: &str) -> (r: String)
    ensures
        r@ == "⚠ "@ + note@,
{
    let mut r = "⚠ ".to_owned();
    r.append(note);
    r
}

/// The text next to a slider.
pub open spec fn slider_text(value: u32, unit: Seq<char>) -> Seq<char> {
    decimal(value as nat) + " "@ + unit
}

/// The text next to a slider.
pub fn slider_label(value: u32, unit: &str) -> (r: String)
    ensures
        r@ == slider_text(value, unit@),
{
    let mut r = number(value as u64);
    r.append(" ");
    r.append(unit);
    r
}

/// The symbol of a section that can be folded.
pub fn fold_icon(expanded: bool) -> (r: &'static str)
    ensures
        r@ == if expanded {
            "▼"@
        } else {
            "▶"@
        },
{
    if expanded {
        "▼"
    } else {
        "▶"
    }
}

/// What a path field shows.
pub open spec fn shown_path(value: Seq<char>, placeholder: Seq<char>) -> Seq<char> {
    if value.len() == 0 {
        placeholder
    } else {
        value
    }
}

/// What a path field shows: the path, or else the hint.
pub fn path_display(value: &str, placeholder: &str) -> (r: String)
    ensures
        r@ == shown_path(value@, placeholder@),
{
    if value.unicode_len() == 0 {
        placeholder.to_owned()
    } else {
        value.to_owned()
    }
}

/// The tab bar always shows the current tab.
pub proof fn current_tab_is_shown(current: Tab)
    ensures
        current.category_of().tab_list().contains(current),
{
    let list = current.category_of().tab_list();
    match current {
        Tab::Server => assert(list[0] == current),
        Tab::Security => assert(list[1] == current),
        Tab::Performance => assert(list[0] == current),
        Tab::Advanced => assert(list[1] == current),
        Tab::Status => assert(list[2] == current),
        Tab::Video => assert(list[0] == current),
        Tab::Egfx => assert(list[1] == current),
        Tab::Audio => assert(list[2] == current),
        Tab::Input => assert(list[3] == current),
        Tab::Clipboard => assert(list[4] == current),
    }
}

/// Only a running server is shown as running, in the colour of success. A stopped or failed
/// one has the colour of errors, and what is not known yet has none.
pub proof fn heads_tell_whether_the_server_runs(view: HeaderView, status: ServerStatus)
    requires
        view.shows(status),
    ensures
        view.is_running <==> status is Running,
        view.tone == Tone::Success <==> status is Running,
        view.tone == Tone::Error <==> status is Stopped || status is Error,
        view.tone == Tone::Warning <==> status is Starting,
        view.tone == Tone::Muted <==> status is Unknown,
        status is Running ==> view.status@ == "Running"@,
        status is Stopped ==> view.status@ == "Stopped"@,
        status is Starting ==> view.status@ == "Starting..."@,
        status is Error ==> view.status@ == "Error"@,
        status is Unknown ==> view.status@ == "Offline"@,
{
}

/// The category bar offers all categories in their order, and the one that the current tab is
/// in is lit.
pub proof fn category_of_the_tab_is_lit(current: Tab, i: int)
    requires
        0 <= i < category_buttons(current).len(),
    ensures
        category_buttons(current).len() == 3,
        category_buttons(current)[0].category == TabCategory::Core,
        category_buttons(current)[1].category == TabCategory::System,
        category_buttons(current)[2].category == TabCategory::Media,
        category_buttons(current)[i].is_active <==> category_buttons(
            current,
        )[i].category.tab_list().contains(current),
{
    categories_partition_tabs(category_buttons(current)[i].category, current);
}

/// The tab bar offers the tabs of the lit category, and the current tab alone is lit.
pub proof fn current_tab_is_lit(current: Tab, i: int)
    requires
        0 <= i < tab_buttons(current).len(),
    ensures
        tab_buttons(current)[i].tab.category_of() == current.category_of(),
        tab_buttons(current)[i].is_active <==> tab_buttons(current)[i].tab == current,
        tab_buttons(current).len() == current.category_of().tab_list().len(),
        tab_buttons(current)[i].tab == current.category_of().tab_list()[i],
{
    let list = current.category_of().tab_list();
    assert(list.contains(list[i]));
    categories_partition_tabs(current.category_of(), list[i]);
}

/// The foot warns of unsaved changes, counts the mistakes of a configuration that has any, and
/// names the file.
pub proof fn feet_tell_what_is_unsaved(view: FooterView, state: AppState)
    requires
        view.shows(state),
    ensures
        state.is_dirty ==> view.saved@ == "● Unsaved changes"@ && view.saved_tone == Tone::Warning,
        !state.is_dirty ==> view.saved@ == "● Saved"@ && view.saved_tone == Tone::Success,
        state.validation.is_valid ==> view.validation@ == "✓ Valid configuration"@
            && view.validation_tone == Tone::Success,
        !state.validation.is_valid ==> view.validation@ == "✗ "@ + decimal(
            state.validation.errors@.len(),
        ) + " errors"@ && view.validation_tone == Tone::Error,
        view.config_path@ == "Config: "@ + state.config_path@,
{
}

/// While a certificate is generated no other can be, and the dialog says so. It always says
/// where certificates go.
pub proof fn first_run_dialogs_say_where_certificates_go(
    view: FirstRunView,
    state: AppState,
    is_flatpak: bool,
    cert_dir: Seq<char>,
)
    requires
        view.shows(state, is_flatpak, cert_dir),
    ensures
        view.can_generate <==> !state.first_run_cert_generating,
        view.can_generate ==> view.generate_hint@ == " (Recommended)"@,
        !view.can_generate ==> view.generate_hint@ == " (Generating...)"@,
        view.location@.len() >= cert_dir.len(),
        view.location@.skip(view.location@.len() - cert_dir.len()) == cert_dir,
        is_flatpak ==> view.location@
            == "Running in Flatpak sandbox. Certificates will be stored in:\n"@ + cert_dir,
        !is_flatpak ==> view.location@ == "Certificates will be stored in:\n"@ + cert_dir,
{
    assert(view.location@.skip(view.location@.len() - cert_dir.len()) =~= cert_dir);
}

/// The window with its current tab lies under all dialogs. An open dialog is shown, a closed
/// one is not, and the question about unsaved changes is on top.
pub proof fn dialogs_lie_above_the_window(state: AppState, current: Tab)
    ensures
        layers(state, current).last() == Layer::Window(current),
        layers(state, current).contains(Layer::UnsavedChanges) <==> state.confirm_discard_dialog,
        layers(state, current).contains(Layer::FirstRun) <==> state.first_run_cert_dialog,
        state.confirm_discard_dialog ==> layers(state, current)[0] == Layer::UnsavedChanges,
        layers(state, current).len() == 1 + (if state.confirm_discard_dialog {
            1int
        } else {
            0
        }) + (if state.first_run_cert_dialog {
            1int
        } else {
            0
        }),
{
    let all = layers(state, current);
    if state.confirm_discard_dialog {
        assert(all[0] == Layer::UnsavedChanges);
    }
    if state.first_run_cert_dialog {
        assert(all[all.len() - 2] == Layer::FirstRun);
    }
}

/// The output of a server is looked at ten times a second while there is one, and only then.
/// The window ticks once a second and hears of its closing in any case.
pub proof fn servers_are_polled_while_there_is_one(has_connection: bool)
    ensures
        sources(has_connection).len() == (if has_connection {
            3int
        } else {
            2
        }),
        sources(has_connection)[0] is Tick,
        sources(has_connection)[0]->Tick_every_ms == 1000,
        sources(has_connection)[1] == MessageSource::CloseRequests,
        has_connection ==> sources(has_connection)[2] is PollServerLogs,
        has_connection ==> sources(has_connection)[2]->PollServerLogs_every_ms == 100,
{
}

/// Exported lines follow one another in order, none left out: two logs exported one behind
/// the other make the log of all their lines.
pub proof fn exported_lines_keep_their_order(first: Seq<LogLine>, second: Seq<LogLine>)
    ensures
        exported_lines(first + second) == exported_lines(first) + exported_lines(second),
    decreases second.len(),
{
    if second.len() == 0 {
        assert(first + second =~= first);
        assert(exported_lines(first) + exported_lines(second) =~= exported_lines(first));
    } else {
        assert((first + second).drop_last() =~= first + second.drop_last());
        exported_lines_keep_their_order(first, second.drop_last());
        assert(exported_lines(first + second) =~= exported_lines(first) + exported_lines(second));
    }
}

/// An exported line has its time, its level in brackets and its message, and ends there.
pub proof fn exported_lines_say_everything(line: LogLine, exported_at: Seq<char>)
    ensures
        exported_lines(seq![line]) == line.timestamp@ + seq![' ', '['] + line.level.title() + seq![
            ']',
            ' ',
        ] + line.message@ + seq!['\n'],
        exported_log(Seq::empty(), exported_at) == "# Lamco RDP Server Logs\n# Exported at: "@
            + exported_at + seq!['\n', '\n'],
        line.level is Trace ==> line.level.title() == "Trace"@,
        line.level is Debug ==> line.level.title() == "Debug"@,
        line.level is Info ==> line.level.title() == "Info"@,
        line.level is Warn ==> line.level.title() == "Warn"@,
        line.level is Error ==> line.level.title() == "Error"@,
{
    reveal_strlit(" [");
    reveal_strlit("] ");
    reveal_strlit("\n");
    reveal_strlit("\n\n");
    assert(" ["@ =~= seq![' ', '[']);
    assert("] "@ =~= seq![']', ' ']);
    assert("\n"@ =~= seq!['\n']);
    assert("\n\n"@ =~= seq!['\n', '\n']);
    reveal_with_fuel(exported_lines, 2);
    assert(seq![line].drop_last() =~= Seq::empty());
    assert(exported_lines(seq![line]) =~= exported_line(line));
    assert(exported_log(Seq::empty(), exported_at)
        =~= "# Lamco RDP Server Logs\n# Exported at: "@ + exported_at + seq!['\n', '\n']);
}

/// A path field shows a path as it is, and the hint only in its place.
pub proof fn hints_stand_in_for_paths(value: Seq<char>, hint: Seq<char>)
    ensures
        value.len() > 0 ==> shown_path(value, hint) == value,
        value.len() == 0 ==> shown_path(value, hint) == hint,
{
}

/// The text next to a slider begins with its value in figures and ends with its unit.
pub proof fn sliders_show_value_and_unit(value: u32, unit: Seq<char>)
    ensures
        ({
            let text = slider_text(value, unit);
            let figures = decimal(value as nat);
            &&& text.len() == figures.len() + 1 + unit.len()
            &&& text.take(figures.len() as int) == figures
            &&& text[figures.len() as int] == ' '
            &&& text.skip(figures.len() as int + 1) == unit
        }),
{
    reveal_strlit(" ");
    let text = slider_text(value, unit);
    let figures = decimal(value as nat);
    assert(text.take(figures.len() as int) =~= figures);
    assert(text.skip(figures.len() as int + 1) =~= unit);
}

} // verus!
