//! Session manager configuration.

use crate::failure::Failure;
use crate::gui::json::text_of;
use crate::paths::{join_path, path_joined};
use crate::text::{decimal, number, texts, trim, trimmed};
use crate::text_map::TextMap;
use vstd::prelude::*;

verus! {

/// Width of a session that nobody asked a size for.
pub const DEFAULT_WIDTH: u32 = 1920;

/// Height of a session that nobody asked a size for.
pub const DEFAULT_HEIGHT: u32 = 1080;

/// How long a component may take to become ready.
pub const DEFAULT_START_TIMEOUT_MS: u64 = 15_000;

/// How long the components may take to end.
pub const DEFAULT_STOP_TIMEOUT_MS: u64 = 10_000;

/// Desktop size that a client asked for.
#[derive(Debug, Clone, Copy, PartialEq, Eq, Structural)]
pub struct SessionSize {
    pub width: u32,
    pub height: u32,
}

impl Default for SessionSize {
    fn default() -> (r: SessionSize)
        ensures
            r == (SessionSize { width: DEFAULT_WIDTH, height: DEFAULT_HEIGHT }),
    {
        SessionSize { width: DEFAULT_WIDTH, height: DEFAULT_HEIGHT }
    }
}

/// A managed process.
#[derive(Debug, Clone)]
pub struct ComponentConfig {
    pub name: String,
    pub command: String,
    pub args: Vec<String>,
    pub env: TextMap,
    pub working_dir: Option<String>,
    pub log_path: Option<String>,
    pub readiness: ReadinessCheck,
    pub required: bool,
    pub startup_delay_ms: u64,
}

/// What tells that a component is ready.
#[derive(Debug, Clone)]
pub enum ReadinessCheck {
    /// It is ready while its process is alive.
    ProcessAlive,
    /// It is ready once a socket exists.
    UnixSocket { path: String },
    /// Nobody waits for it.
    Unchecked,
}

impl Default for ReadinessCheck {
    fn default() -> (r: ReadinessCheck)
        ensures
            r == ReadinessCheck::ProcessAlive,
    {
        ReadinessCheck::ProcessAlive
    }
}

/// Configuration of the session manager.
#[derive(Debug, Clone)]
pub struct SesmanConfig {
    pub session_name: String,
    pub user: String,
    pub xdg_runtime_dir: String,
    pub state_dir: String,
    pub log_dir: String,
    pub default_size: SessionSize,
    pub start_timeout_ms: u64,
    pub stop_timeout_ms: u64,
    pub environment: TextMap,
    pub cleanup_paths: Vec<String>,
    pub cleanup_globs: Vec<String>,
    pub components: Vec<ComponentConfig>,
}

/// The variables of the manager's own environment that its defaults go by.
#[derive(Debug, Clone)]
pub struct RuntimeEnv {
    /// `USER`
    pub user: Option<String>,
    /// `XDG_RUNTIME_DIR`
    pub xdg_runtime_dir: Option<String>,
}

impl RuntimeEnv {
    /// The runtime directory.
    pub open spec fn runtime_dir(self) -> Seq<char> {
        match self.xdg_runtime_dir {
            Some(d) => d@,
            None => "/run/user/1000"@,
        }
    }

    /// The user.
    pub open spec fn user_name(self) -> Seq<char> {
        match self.user {
            Some(u) => u@,
            None => "rui"@,
        }
    }
}

/// What a component is.
pub struct ComponentView {
    pub name: Seq<char>,
    pub command: Seq<char>,
    pub args: Seq<Seq<char>>,
    pub env: Map<Seq<char>, Seq<char>>,
    pub working_dir: Option<Seq<char>>,
    pub log_path: Option<Seq<char>>,
    /// The socket to wait for, if it is one; otherwise whether the process is awaited.
    pub readiness: Result<Seq<char>, bool>,
    pub required: bool,
    pub startup_delay_ms: u64,
}

/// What a component is.
pub open spec fn component_view(c: ComponentConfig) -> ComponentView {
    ComponentView {
        name: c.name@,
        command: c.command@,
        args: texts(c.args@),
        env: c.env@,
        working_dir: text_of(c.working_dir),
        log_path: text_of(c.log_path),
        readiness: match c.readiness {
            ReadinessCheck::UnixSocket { path } => Ok(path@),
            ReadinessCheck::ProcessAlive => Err(true),
            ReadinessCheck::Unchecked => Err(false),
        },
        required: c.required,
        startup_delay_ms: c.startup_delay_ms,
    }
}

/// What the components are.
pub open spec fn component_views(v: Seq<ComponentConfig>) -> Seq<ComponentView> {
    Seq::new(v.len(), |i: int| component_view(v[i]))
}

/// Nothing is set.
pub open spec fn no_vars() -> Map<Seq<char>, Seq<char>> {
    Map::empty()
}

/// The environment of every component unless configured otherwise.
pub open spec fn usual_environment() -> Map<Seq<char>, Seq<char>> {
    no_vars().insert("XDG_CURRENT_DESKTOP"@, "niri"@).insert("XDG_SESSION_DESKTOP"@, "niri"@).insert(
        "WLR_NO_HARDWARE_CURSORS"@,
        "1"@,
    ).insert("LIBVA_DRIVER_NAME"@, "iHD"@).insert("RUST_BACKTRACE"@, "1"@).insert(
        "PATH"@,
        "/usr/local/bin:/usr/bin:/bin"@,
    )
}

/// What is left over from an earlier run unless configured otherwise.
pub open spec fn usual_leftovers(runtime: Seq<char>) -> Seq<Seq<char>> {
    seq![
        path_joined(runtime, "wayland-weston"@),
        path_joined(runtime, "wayland-weston.lock"@),
        path_joined(runtime, "wayland-1"@),
        path_joined(runtime, "wayland-1.lock"@),
        "/tmp/lamco-rdp-server.log"@,
        "/tmp/niri-nested.log"@,
        "/tmp/weston-headless.log"@,
    ]
}

/// The patterns of what is left over unless configured otherwise.
pub open spec fn usual_leftover_globs(runtime: Seq<char>) -> Seq<Seq<char>> {
    seq![runtime + "/niri.wayland-1.*.sock"@]
}

/// The stack that is started unless configured otherwise: a headless compositor, a
/// nested one in it, and the server in that one.
pub open spec fn usual_stack(runtime: Seq<char>) -> Seq<ComponentView> {
    seq![
        ComponentView {
            name: "weston"@,
            command: "weston"@,
            args: seq![
                "--backend=headless"@,
                "--shell=kiosk-shell.so"@,
                "--socket=wayland-weston"@,
                "--width="@ + decimal(DEFAULT_WIDTH as nat),
                "--height="@ + decimal(DEFAULT_HEIGHT as nat),
                "--use-gl"@,
                "--idle-time=0"@,
            ],
            env: no_vars(),
            working_dir: None,
            log_path: Some("/tmp/weston-headless.log"@),
            readiness: Ok(path_joined(runtime, "wayland-weston"@)),
            required: true,
            startup_delay_ms: 0,
        },
        ComponentView {
            name: "niri"@,
            command: "/usr/local/bin/niri"@,
            args: Seq::empty(),
            env: no_vars().insert("WAYLAND_DISPLAY"@, "wayland-weston"@),
            working_dir: None,
            log_path: Some("/tmp/niri-nested.log"@),
            readiness: Ok(path_joined(runtime, "wayland-1"@)),
            required: true,
            startup_delay_ms: 5_000,
        },
        ComponentView {
            name: "lamco-rdp-server"@,
            command: "/usr/bin/lamco-rdp-server"@,
            args: seq!["-c"@, "/home/rui/.config/lamco-rdp-server/config.toml"@],
            env: no_vars().insert("LAMCO_RDP_ROTATE_180"@, "0"@).insert(
                "LAMCO_RDP_FLIP_VERTICAL"@,
                "1"@,
            ).insert("WAYLAND_DISPLAY"@, "wayland-1"@),
            working_dir: None,
            log_path: Some("/tmp/lamco-rdp-server.log"@),
            readiness: Err(true),
            required: true,
            startup_delay_ms: 0,
        },
    ]
}

/// Components are required unless configured otherwise.
pub fn default_true() -> (r: bool)
    ensures
        r,
{
    true
}

/// The name of a session that has none.
pub fn default_session_name() -> (r: String)
    ensures
        r@ == "default"@,
{
    "default".to_owned()
}

/// How long a component may take to become ready unless configured otherwise.
pub fn default_start_timeout_ms() -> (r: u64)
    ensures
        r == 15_000,
{
    DEFAULT_START_TIMEOUT_MS
}

/// How long the components may take to end unless configured otherwise.
pub fn default_stop_timeout_ms() -> (r: u64)
    ensures
        r == 10_000,
{
    DEFAULT_STOP_TIMEOUT_MS
}

/// The size of a session that nobody asked a size for.
pub fn default_size() -> (r: SessionSize)
    ensures
        r == (SessionSize { width: 1920, height: 1080 }),
{
    SessionSize::default()
}

/// The user whose session it is.
pub fn default_user(env: &RuntimeEnv) -> (r: String)
    ensures
        r@ == env.user_name(),
{
    match &env.user {
        Some(u) => u.clone(),
        None => "rui".to_owned(),
    }
}

/// The runtime directory.
pub fn default_xdg_runtime_dir(env: &RuntimeEnv) -> (r: String)
    ensures
        r@ == env.runtime_dir(),
{
    match &env.xdg_runtime_dir {
        Some(d) => d.clone(),
        None => "/run/user/1000".to_owned(),
    }
}

/// Where the registry entry is kept.
pub fn default_state_dir(env: &RuntimeEnv) -> (r: String)
    ensures
        r@ == path_joined(env.runtime_dir(), "lamco-sesman"@),
{
    join_path(default_xdg_runtime_dir(env).as_str(), "lamco-sesman")
}

/// Where the components log to.
pub fn default_log_dir() -> (r: String)
    ensures
        r@ == "/tmp"@,
{
    "/tmp".to_owned()
}

fn set_var(map: &mut TextMap, name: &str, value: &str)
    requires
        old(map).wf(),
    ensures
        final(map).wf(),
        final(map)@ == old(map)@.insert(name@, value@),
{
    map.insert(name.to_owned(), value.to_owned());
}

/// The environment of every component.
pub fn default_environment() -> (r: TextMap)
    ensures
        r.wf(),
        r@ == usual_environment(),
        r.entries@.len() > 0,
{
    let mut map = TextMap::new();
    set_var(&mut map, "XDG_CURRENT_DESKTOP", "niri");
    set_var(&mut map, "XDG_SESSION_DESKTOP", "niri");
    set_var(&mut map, "WLR_NO_HARDWARE_CURSORS", "1");
    set_var(&mut map, "LIBVA_DRIVER_NAME", "iHD");
    set_var(&mut map, "RUST_BACKTRACE", "1");
    set_var(&mut map, "PATH", "/usr/local/bin:/usr/bin:/bin");
    proof {
        map.lemma_nonempty("PATH"@);
    }
    map
}

/// What is left over from an earlier run.
pub fn default_cleanup_paths(env: &RuntimeEnv) -> (r: Vec<String>)
    ensures
        texts(r@) == usual_leftovers(env.runtime_dir()),
{
    let runtime = default_xdg_runtime_dir(env);
    let mut r: Vec<String> = Vec::new();
    r.push(join_path(runtime.as_str(), "wayland-weston"));
    r.push(join_path(runtime.as_str(), "wayland-weston.lock"));
    r.push(join_path(runtime.as_str(), "wayland-1"));
    r.push(join_path(runtime.as_str(), "wayland-1.lock"));
    r.push("/tmp/lamco-rdp-server.log".to_owned());
    r.push("/tmp/niri-nested.log".to_owned());
    r.push("/tmp/weston-headless.log".to_owned());
    assert(texts(r@) =~= usual_leftovers(env.runtime_dir()));
    r
}

/// The patterns of what is left over from an earlier run.
pub fn default_cleanup_globs(env: &RuntimeEnv) -> (r: Vec<String>)
    ensures
        texts(r@) == usual_leftover_globs(env.runtime_dir()),
{
    let mut r: Vec<String> = Vec::new();
    r.push(default_xdg_runtime_dir(env).concat("/niri.wayland-1.*.sock"));
    assert(texts(r@) =~= usual_leftover_globs(env.runtime_dir()));
    r
}

/// The stack that is started.
pub fn default_components(env: &RuntimeEnv) -> (r: Vec<ComponentConfig>)
    ensures
        component_views(r@) == usual_stack(env.runtime_dir()),
        forall|i: int| 0 <= i < r@.len() ==> (#[trigger] r@[i]).env.wf(),
{
    let runtime = default_xdg_runtime_dir(env);
    let mut weston_args: Vec<String> = Vec::new();
    weston_args.push("--backend=headless".to_owned());
    weston_args.push("--shell=kiosk-shell.so".to_owned());
    weston_args.push("--socket=wayland-weston".to_owned());
    weston_args.push("--width=".to_owned().concat(number(DEFAULT_WIDTH as u64).as_str()));
    weston_args.push("--height=".to_owned().concat(number(DEFAULT_HEIGHT as u64).as_str()));
    weston_args.push("--use-gl".to_owned());
    weston_args.push("--idle-time=0".to_owned());
    assert(texts(weston_args@) =~= usual_stack(env.runtime_dir())[0].args);
    let weston = ComponentConfig {
        name: "weston".to_owned(),
        command: "weston".to_owned(),
        args: weston_args,
        env: TextMap::new(),
        working_dir: None,
        log_path: Some("/tmp/weston-headless.log".to_owned()),
        readiness: ReadinessCheck::UnixSocket { path: join_path(runtime.as_str(), "wayland-weston") },
        required: true,
        startup_delay_ms: 0,
    };
    let mut niri_env = TextMap::new();
    set_var(&mut niri_env, "WAYLAND_DISPLAY", "wayland-weston");
    let niri = ComponentConfig {
        name: "niri".to_owned(),
        command: "/usr/local/bin/niri".to_owned(),
        args: Vec::new(),
        env: niri_env,
        working_dir: None,
        log_path: Some("/tmp/niri-nested.log".to_owned()),
        readiness: ReadinessCheck::UnixSocket { path: join_path(runtime.as_str(), "wayland-1") },
        required: true,
        startup_delay_ms: 5_000,
    };
    assert(texts(niri.args@) =~= Seq::<Seq<char>>::empty());
    let mut server_args: Vec<String> = Vec::new();
    server_args.push("-c".to_owned());
    server_args.push("/home/rui/.config/lamco-rdp-server/config.toml".to_owned());
    assert(texts(server_args@) =~= usual_stack(env.runtime_dir())[2].args);
    let mut server_env = TextMap::new();
    set_var(&mut server_env, "LAMCO_RDP_ROTATE_180", "0");
    set_var(&mut server_env, "LAMCO_RDP_FLIP_VERTICAL", "1");
    set_var(&mut server_env, "WAYLAND_DISPLAY", "wayland-1");
    let server = ComponentConfig {
        name: "lamco-rdp-server".to_owned(),
        command: "/usr/bin/lamco-rdp-server".to_owned(),
        args: server_args,
        env: server_env,
        working_dir: None,
        log_path: Some("/tmp/lamco-rdp-server.log".to_owned()),
        readiness: ReadinessCheck::ProcessAlive,
        required: true,
        startup_delay_ms: 0,
    };
    let mut r: Vec<ComponentConfig> = Vec::new();
    r.push(weston);
    r.push(niri);
    r.push(server);
    assert(component_views(r@) =~= usual_stack(env.runtime_dir()));
    r
}

/// What is wrong with a list of components, looking from the first on: an empty name,
/// then an empty command.
pub open spec fn component_problem(components: Seq<ComponentConfig>) -> Option<Seq<char>>
    decreases components.len(),
{
    if components.len() == 0 {
        None
    } else if trimmed(components[0].name@).len() == 0 {
        Some("component name cannot be empty"@)
    } else if trimmed(components[0].command@).len() == 0 {
        Some("component "@ + components[0].name@ + " has empty command"@)
    } else {
        component_problem(components.drop_first())
    }
}

/// How the configuration was found.
#[derive(Debug)]
pub enum ConfigSource {
    /// No configuration file was named.
    Unnamed,
    /// The named file does not exist.
    Missing,
    /// The named file could not be read.
    Unreadable { path: String, error: String },
    /// The named file could not be understood.
    Malformed { path: String, error: String },
    /// The named file holds a configuration.
    Parsed(SesmanConfig),
}

impl SesmanConfig {
    /// The maps hold every name once.
    pub open spec fn wf(self) -> bool {
        &&& self.environment.wf()
        &&& forall|i: int| 0 <= i < self.components@.len() ==> (#[trigger] self.components@[i]).env.wf()
    }

    /// The configuration is the default one.
    pub open spec fn is_default(self, env: RuntimeEnv) -> bool {
        &&& self.session_name@ == "default"@
        &&& self.user@ == env.user_name()
        &&& self.xdg_runtime_dir@ == env.runtime_dir()
        &&& self.state_dir@ == path_joined(env.runtime_dir(), "lamco-sesman"@)
        &&& self.log_dir@ == "/tmp"@
        &&& self.default_size == SessionSize { width: 1920, height: 1080 }
        &&& self.start_timeout_ms == 15_000
        &&& self.stop_timeout_ms == 10_000
        &&& self.environment@ == usual_environment()
        &&& texts(self.cleanup_paths@) == usual_leftovers(env.runtime_dir())
        &&& texts(self.cleanup_globs@) == usual_leftover_globs(env.runtime_dir())
        &&& component_views(self.components@) == usual_stack(env.runtime_dir())
    }

    /// The default configuration.
    pub fn defaults(env: &RuntimeEnv) -> (r: Self)
        ensures
            r.wf(),
            r.is_default(*env),
    {
        SesmanConfig {
            session_name: default_session_name(),
            user: default_user(env),
            xdg_runtime_dir: default_xdg_runtime_dir(env),
            state_dir: default_state_dir(env),
            log_dir: default_log_dir(),
            default_size: default_size(),
            start_timeout_ms: default_start_timeout_ms(),
            stop_timeout_ms: default_stop_timeout_ms(),
            environment: default_environment(),
            cleanup_paths: default_cleanup_paths(env),
            cleanup_globs: default_cleanup_globs(env),
            components: default_components(env),
        }
    }

    /// `self` is `before` with defaults in place of what it leaves empty.
    pub open spec fn completes(self, before: SesmanConfig, env: RuntimeEnv) -> bool {
        &&& self == SesmanConfig {
            environment: self.environment,
            cleanup_paths: self.cleanup_paths,
            cleanup_globs: self.cleanup_globs,
            components: self.components,
            ..before
        }
        &&& if before.environment.entries@.len() == 0 {
            self.environment@ == usual_environment()
        } else {
            self.environment == before.environment
        }
        &&& if before.cleanup_paths@.len() == 0 {
            texts(self.cleanup_paths@) == usual_leftovers(env.runtime_dir())
        } else {
            self.cleanup_paths == before.cleanup_paths
        }
        &&& if before.cleanup_globs@.len() == 0 {
            texts(self.cleanup_globs@) == usual_leftover_globs(env.runtime_dir())
        } else {
            self.cleanup_globs == before.cleanup_globs
        }
        &&& if before.components@.len() == 0 {
            component_views(self.components@) == usual_stack(env.runtime_dir())
        } else {
            self.components == before.components
        }
    }

    /// Puts defaults in place of what is left empty.
    pub fn apply_runtime_defaults(&mut self, env: &RuntimeEnv)
        requires
            old(self).wf(),
        ensures
            final(self).wf(),
            final(self).completes(*old(self), *env),
    {
        if self.environment.entries.len() == 0 {
            self.environment = default_environment();
        }
        if self.cleanup_paths.len() == 0 {
            self.cleanup_paths = default_cleanup_paths(env);
        }
        if self.cleanup_globs.len() == 0 {
            self.cleanup_globs = default_cleanup_globs(env);
        }
        if self.components.len() == 0 {
            self.components = default_components(env);
        }
    }

    /// What makes the configuration unusable.
    pub open spec fn problem(self) -> Option<Seq<char>> {
        if trimmed(self.session_name@).len() == 0 {
            Some("session_name cannot be empty"@)
        } else if self.components@.len() == 0 {
            Some("at least one component is required"@)
        } else {
            component_problem(self.components@)
        }
    }

    /// Refuses a configuration that cannot be used.
    pub fn validate(&self) -> (r: Result<(), String>)
        ensures
            match r {
                Ok(_) => self.problem() is None,
                Err(e) => self.problem() == Some(e@),
            },
    {
        if trim(self.session_name.as_str()).as_str().is_empty() {
            return Err("session_name cannot be empty".to_owned());
        }
        if self.components.len() == 0 {
            return Err("at least one component is required".to_owned());
        }
        let ghost all = self.components@;
        assert(all.skip(0) =~= all);
        let mut i: usize = 0;
        while i < self.components.len()
            invariant
                i <= self.components@.len(),
                all == self.components@,
                self.problem() == component_problem(all),
                component_problem(all) == component_problem(all.skip(i as int)),
            decreases self.components@.len() - i,
        {
            let component = &self.components[i];
            assert(all.skip(i as int)[0] == *component);
            assert(all.skip(i as int).drop_first() =~= all.skip(i + 1));
            if trim(component.name.as_str()).as_str().is_empty() {
                return Err("component name cannot be empty".to_owned());
            }
            if trim(component.command.as_str()).as_str().is_empty() {
                return Err(
                    "component ".to_owned().concat(component.name.as_str()).concat(
                        " has empty command",
                    ),
                );
            }
            i += 1;
        }
        Ok(())
    }

    /// The configuration of a source: the default one where no file is named or the named
    /// one does not exist; else what the file holds, completed and checked.
    pub fn load(source: ConfigSource, env: &RuntimeEnv) -> (r: Result<Self, Failure>)
        requires
            source matches ConfigSource::Parsed(c) ==> c.wf(),
        ensures
            match source {
                ConfigSource::Unnamed | ConfigSource::Missing => r matches Ok(c) && c.wf()
                    && c.is_default(*env),
                ConfigSource::Unreadable { path, error } => r matches Err(e) && e.is(
                    "failed to read "@ + path@,
                    Some(error@),
                ),
                ConfigSource::Malformed { path, error } => r matches Err(e) && e.is(
                    "failed to parse "@ + path@,
                    Some(error@),
                ),
                ConfigSource::Parsed(parsed) => match r {
                    Ok(c) => c.wf() && c.completes(parsed, *env) && c.problem() is None,
                    Err(e) => e.cause is None && exists|c: SesmanConfig| #[trigger]
                        c.completes(parsed, *env) && c.problem() == Some(e.message@),
                },
            },
    {
        match source {
            ConfigSource::Unnamed => Ok(SesmanConfig::defaults(env)),
            ConfigSource::Missing => Ok(SesmanConfig::defaults(env)),
            ConfigSource::Unreadable { path, error } => Err(
                Failure::caused_by("failed to read ".to_owned().concat(path.as_str()), error),
            ),
            ConfigSource::Malformed { path, error } => Err(
                Failure::caused_by("failed to parse ".to_owned().concat(path.as_str()), error),
            ),
            ConfigSource::Parsed(parsed) => {
                let mut config = parsed;
                config.apply_runtime_defaults(env);
                match config.validate() {
                    Ok(_) => Ok(config),
                    Err(e) => {
                        assert(config.completes(parsed, *env));
                        Err(Failure::new(e))
                    },
                }
            },
        }
    }

    /// The file of the registry entry.
    pub open spec fn state_file(self) -> Seq<char> {
        path_joined(self.state_dir@, self.session_name@ + ".state.json"@)
    }

    /// The file of the registry entry.
    pub fn state_path(&self) -> (r: String)
        ensures
            r@ == self.state_file(),
    {
        join_path(
            self.state_dir.as_str(),
            self.session_name.clone().concat(".state.json").as_str(),
        )
    }

    /// The file that a new registry entry is written to before it replaces the old one.
    pub open spec fn temp_state_file(self) -> Seq<char> {
        path_joined(self.state_dir@, self.session_name@ + ".state.state.json.tmp"@)
    }

    /// The lock file.
    pub open spec fn lock_file(self) -> Seq<char> {
        path_joined(self.state_dir@, self.session_name@ + ".lock"@)
    }

    /// The file that a new registry entry is written to before it replaces the old one.
    pub fn temp_state_path(&self) -> (r: String)
        ensures
            r@ == self.temp_state_file(),
    {
        join_path(
            self.state_dir.as_str(),
            self.session_name.clone().concat(".state.state.json.tmp").as_str(),
        )
    }

    /// The lock file.
    pub fn lock_path(&self) -> (r: String)
        ensures
            r@ == self.lock_file(),
    {
        join_path(self.state_dir.as_str(), self.session_name.clone().concat(".lock").as_str())
    }
}

/// The default stack nests one compositor in the other and puts the server in the inner
/// one.
pub proof fn default_stack_is_nested(config: SesmanConfig, env: RuntimeEnv)
    requires
        config.is_default(env),
    ensures
        config.components@.len() == 3,
        config.components@[0].name@ == "weston"@,
        config.components@[1].name@ == "niri"@,
        config.components@[2].name@ == "lamco-rdp-server"@,
        config.components@[1].env@["WAYLAND_DISPLAY"@] == "wayland-weston"@,
        config.components@[2].env@["WAYLAND_DISPLAY"@] == "wayland-1"@,
{
    let views = component_views(config.components@);
    assert(views.len() == 3);
    assert(views[0] == component_view(config.components@[0]));
    assert(views[1] == component_view(config.components@[1]));
    assert(views[2] == component_view(config.components@[2]));
}

/// A configuration can be used exactly if the session and every component have a name, every
/// component has a command, and there is a component. White space is no name and no command.
pub proof fn usable_configurations_are_complete(config: SesmanConfig)
    ensures
        config.problem() is None <==> (trimmed(config.session_name@).len() > 0
            && config.components@.len() > 0 && forall|i: int|
            0 <= i < config.components@.len() ==> trimmed(
                (#[trigger] config.components@[i]).name@,
            ).len() > 0 && trimmed(config.components@[i].command@).len() > 0),
        trimmed(config.session_name@).len() == 0 ==> config.problem() == Some(
            "session_name cannot be empty"@,
        ),
        trimmed(config.session_name@).len() > 0 && config.components@.len() == 0
            ==> config.problem() == Some("at least one component is required"@),
{
    lemma_component_problem(config.components@);
}

proof fn lemma_component_problem(components: Seq<ComponentConfig>)
    ensures
        component_problem(components) is None <==> forall|i: int|
            0 <= i < components.len() ==> trimmed((#[trigger] components[i]).name@).len() > 0
                && trimmed(components[i].command@).len() > 0,
    decreases components.len(),
{
    if components.len() > 0 {
        let rest = components.drop_first();
        lemma_component_problem(rest);
        if component_problem(components) is None {
            assert forall|i: int| 0 <= i < components.len() implies trimmed(
                (#[trigger] components[i]).name@,
            ).len() > 0 && trimmed(components[i].command@).len() > 0 by {
                if i > 0 {
                    assert(rest[i - 1] == components[i]);
                }
            }
        }
        if forall|i: int|
            0 <= i < components.len() ==> trimmed((#[trigger] components[i]).name@).len() > 0
                && trimmed(components[i].command@).len() > 0 {
            assert(trimmed(components[0].name@).len() > 0);
            assert forall|i: int| 0 <= i < rest.len() implies trimmed(
                (#[trigger] rest[i]).name@,
            ).len() > 0 && trimmed(rest[i].command@).len() > 0 by {
                assert(rest[i] == components[i + 1]);
            }
        }
    }
}

/// The first component that cannot be used decides on the complaint: about its name, or else
/// about its command, which is complained of under its name.
pub proof fn first_bad_component_is_named(components: Seq<ComponentConfig>, i: int)
    requires
        0 <= i < components.len(),
        forall|k: int|
            0 <= k < i ==> trimmed((#[trigger] components[k]).name@).len() > 0 && trimmed(
                components[k].command@,
            ).len() > 0,
    ensures
        trimmed(components[i].name@).len() == 0 ==> component_problem(components) == Some(
            "component name cannot be empty"@,
        ),
        trimmed(components[i].name@).len() > 0 && trimmed(components[i].command@).len() == 0
            ==> component_problem(components) == Some(
            "component "@ + components[i].name@ + " has empty command"@,
        ),
    decreases i,
{
    if i > 0 {
        let rest = components.drop_first();
        assert(trimmed(components[0].name@).len() > 0);
        assert forall|k: int| 0 <= k < i - 1 implies trimmed((#[trigger] rest[k]).name@).len() > 0
            && trimmed(rest[k].command@).len() > 0 by {
            assert(rest[k] == components[k + 1]);
        }
        first_bad_component_is_named(rest, i - 1);
    }
}

/// What a configuration says is kept: defaults stand in only for what it leaves empty, and for
/// nothing that has to be said.
pub proof fn defaults_fill_gaps_only(after: SesmanConfig, before: SesmanConfig, env: RuntimeEnv)
    requires
        after.completes(before, env),
    ensures
        after.session_name == before.session_name,
        after.user == before.user,
        after.xdg_runtime_dir == before.xdg_runtime_dir,
        after.state_dir == before.state_dir,
        after.log_dir == before.log_dir,
        after.default_size == before.default_size,
        after.start_timeout_ms == before.start_timeout_ms,
        after.stop_timeout_ms == before.stop_timeout_ms,
        before.environment.entries@.len() > 0 ==> after.environment == before.environment,
        before.cleanup_paths@.len() > 0 ==> after.cleanup_paths == before.cleanup_paths,
        before.cleanup_globs@.len() > 0 ==> after.cleanup_globs == before.cleanup_globs,
        before.components@.len() > 0 ==> after.components == before.components,
        before.components@.len() == 0 ==> after.components@.len() == 3,
        before.cleanup_paths@.len() == 0 ==> after.cleanup_paths@.len() == 7,
        before.cleanup_globs@.len() == 0 ==> after.cleanup_globs@.len() == 1,
        before.environment.entries@.len() == 0 ==> after.environment@["PATH"@]
            == "/usr/local/bin:/usr/bin:/bin"@,
{
    assert(component_views(after.components@).len() == after.components@.len());
    assert(texts(after.cleanup_paths@).len() == after.cleanup_paths@.len());
    assert(texts(after.cleanup_globs@).len() == after.cleanup_globs@.len());
}

/// The default configuration keeps its registry under the runtime directory, gives components
/// fifteen seconds to become ready and ten to end, and has a full HD desktop.
pub proof fn defaults_are_as_documented(config: SesmanConfig, env: RuntimeEnv)
    requires
        config.is_default(env),
    ensures
        config.session_name@ == "default"@,
        config.log_dir@ == "/tmp"@,
        config.default_size.width == 1920,
        config.default_size.height == 1080,
        config.start_timeout_ms == 15_000,
        config.stop_timeout_ms == 10_000,
        env.user matches Some(u) ==> config.user@ == u@,
        env.user is None ==> config.user@ == "rui"@,
        env.xdg_runtime_dir matches Some(d) ==> config.xdg_runtime_dir@ == d@ && config.state_dir@
            == path_joined(d@, "lamco-sesman"@),
        env.xdg_runtime_dir is None ==> config.xdg_runtime_dir@ == "/run/user/1000"@
            && config.state_dir@ == path_joined("/run/user/1000"@, "lamco-sesman"@),
{
}

/// The parts of the default stack wait for one another: the outer compositor and the inner one
/// are awaited by the sockets that the next part connects to, the server by its process. All of
/// them are required, and only the inner compositor gets time to settle, which is five seconds.
pub proof fn default_stack_waits_for_its_sockets(config: SesmanConfig, env: RuntimeEnv)
    requires
        config.is_default(env),
    ensures
        config.components@.len() == 3,
        config.components@[0].command@ == "weston"@,
        config.components@[1].command@ == "/usr/local/bin/niri"@,
        config.components@[2].command@ == "/usr/bin/lamco-rdp-server"@,
        config.components@[0].readiness matches ReadinessCheck::UnixSocket { path } && path@
            == path_joined(
            config.xdg_runtime_dir@,
            config.components@[1].env@["WAYLAND_DISPLAY"@],
        ),
        config.components@[1].readiness matches ReadinessCheck::UnixSocket { path } && path@
            == path_joined(
            config.xdg_runtime_dir@,
            config.components@[2].env@["WAYLAND_DISPLAY"@],
        ),
        config.components@[2].readiness is ProcessAlive,
        config.components@[0].required && config.components@[1].required
            && config.components@[2].required,
        config.components@[0].startup_delay_ms == 0,
        config.components@[1].startup_delay_ms == 5_000,
        config.components@[2].startup_delay_ms == 0,
        config.components@[0].args@.len() == 7,
        config.components@[0].args@[2]@ == "--socket=wayland-weston"@,
        config.components@[0].args@[3]@ == "--width="@ + decimal(1920),
        config.components@[0].args@[4]@ == "--height="@ + decimal(1080),
        config.components@[1].args@.len() == 0,
        config.components@[2].args@.len() == 2,
        config.components@[2].args@[0]@ == "-c"@,
{
    let views = component_views(config.components@);
    assert(views.len() == 3);
    assert(views[0] == component_view(config.components@[0]));
    assert(views[1] == component_view(config.components@[1]));
    assert(views[2] == component_view(config.components@[2]));
    let first = texts(config.components@[0].args@);
    assert(first.len() == config.components@[0].args@.len());
    assert(first[2] == config.components@[0].args@[2]@);
    assert(first[3] == config.components@[0].args@[3]@);
    assert(first[4] == config.components@[0].args@[4]@);
    assert(texts(config.components@[1].args@).len() == config.components@[1].args@.len());
    let third = texts(config.components@[2].args@);
    assert(third.len() == config.components@[2].args@.len());
    assert(third[0] == config.components@[2].args@[0]@);
}

/// What the default configuration removes are the sockets of its own compositors with their
/// locks, and the logs of its own components.
pub proof fn default_leftovers_belong_to_the_stack(config: SesmanConfig, env: RuntimeEnv)
    requires
        config.is_default(env),
    ensures
        config.cleanup_paths@.len() == 7,
        config.components@[0].readiness matches ReadinessCheck::UnixSocket { path } && path@
            == config.cleanup_paths@[0]@,
        config.components@[1].readiness matches ReadinessCheck::UnixSocket { path } && path@
            == config.cleanup_paths@[2]@,
        config.cleanup_paths@[1]@ == path_joined(
            config.xdg_runtime_dir@,
            "wayland-weston.lock"@,
        ),
        config.cleanup_paths@[3]@ == path_joined(config.xdg_runtime_dir@, "wayland-1.lock"@),
        config.components@[2].log_path matches Some(p) && p@ == config.cleanup_paths@[4]@,
        config.components@[1].log_path matches Some(p) && p@ == config.cleanup_paths@[5]@,
        config.components@[0].log_path matches Some(p) && p@ == config.cleanup_paths@[6]@,
        config.cleanup_globs@.len() == 1,
        config.cleanup_globs@[0]@ == config.xdg_runtime_dir@ + "/niri.wayland-1.*.sock"@,
{
    let views = component_views(config.components@);
    assert(views.len() == 3);
    assert(views[0] == component_view(config.components@[0]));
    assert(views[1] == component_view(config.components@[1]));
    assert(views[2] == component_view(config.components@[2]));
    let paths = texts(config.cleanup_paths@);
    assert(paths.len() == config.cleanup_paths@.len());
    assert forall|i: int| 0 <= i < paths.len() implies #[trigger] paths[i]
        == config.cleanup_paths@[i]@ by {}
    assert(paths[0] == config.cleanup_paths@[0]@ && paths[1] == config.cleanup_paths@[1]@);
    assert(paths[2] == config.cleanup_paths@[2]@ && paths[3] == config.cleanup_paths@[3]@);
    assert(paths[4] == config.cleanup_paths@[4]@ && paths[5] == config.cleanup_paths@[5]@);
    assert(paths[6] == config.cleanup_paths@[6]@);
    let globs = texts(config.cleanup_globs@);
    assert(globs.len() == config.cleanup_globs@.len());
    assert(globs[0] == config.cleanup_globs@[0]@);
}

/// The registry entry, its temporary file and the lock of a session are three different files
/// of the state directory, each under the name of the session.
pub proof fn session_files_are_apart(config: SesmanConfig)
    requires
        config.state_dir@.len() > 0,
        config.state_dir@.last() != '/',
        config.session_name@.len() > 0,
        config.session_name@[0] != '/',
    ensures
        config.state_file() == config.state_dir@ + "/"@ + config.session_name@ + ".state.json"@,
        config.lock_file() == config.state_dir@ + "/"@ + config.session_name@ + ".lock"@,
        config.temp_state_file() == config.state_dir@ + "/"@ + config.session_name@
            + ".state.state.json.tmp"@,
        config.state_file() != config.lock_file(),
        config.state_file() != config.temp_state_file(),
        config.lock_file() != config.temp_state_file(),
{
    reveal_strlit("/");
    reveal_strlit(".state.json");
    reveal_strlit(".lock");
    reveal_strlit(".state.state.json.tmp");
    assert("/"@.len() == 1 && ".state.json"@.len() == 11 && ".lock"@.len() == 5);
    assert(".state.state.json.tmp"@.len() == 21);
    let dir = config.state_dir@;
    let name = config.session_name@;
    assert((name + ".state.json"@)[0] == name[0]);
    assert((name + ".lock"@)[0] == name[0]);
    assert((name + ".state.state.json.tmp"@)[0] == name[0]);
    assert(dir.push('/') + (name + ".state.json"@) =~= dir + "/"@ + name + ".state.json"@);
    assert(dir.push('/') + (name + ".lock"@) =~= dir + "/"@ + name + ".lock"@);
    assert(dir.push('/') + (name + ".state.state.json.tmp"@) =~= dir + "/"@ + name
        + ".state.state.json.tmp"@);
    assert(config.state_file().len() == dir.len() + 1 + name.len() + 11);
    assert(config.lock_file().len() == dir.len() + 1 + name.len() + 5);
    assert(config.temp_state_file().len() == dir.len() + 1 + name.len() + 21);
}

/// User and runtime directory come from the environment where it has them.
pub proof fn environment_names_user_and_directory(env: RuntimeEnv)
    ensures
        env.user is Some ==> env.user_name() == env.user->0@,
        env.user is None ==> env.user_name() == "rui"@,
        env.xdg_runtime_dir is Some ==> env.runtime_dir() == env.xdg_runtime_dir->0@,
        env.xdg_runtime_dir is None ==> env.runtime_dir() == "/run/user/1000"@,
{
}

/// What is known of a component is what its entry says. A socket, a living process and
/// nothing at all to wait for are told apart.
pub proof fn components_are_what_their_entries_say(c: ComponentConfig)
    ensures
        ({
            let v = component_view(c);
            &&& v.name == c.name@
            &&& v.command == c.command@
            &&& v.args == texts(c.args@)
            &&& v.env == c.env@
            &&& v.required == c.required
            &&& v.startup_delay_ms == c.startup_delay_ms
            &&& v.readiness is Ok <==> c.readiness is UnixSocket
            &&& c.readiness is UnixSocket ==> v.readiness->Ok_0 == c.readiness->path@
            &&& c.readiness is ProcessAlive ==> v.readiness->Err_0
            &&& c.readiness is Unchecked ==> !v.readiness->Err_0
        }),
{
}

} // verus!
