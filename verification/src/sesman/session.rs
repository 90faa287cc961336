//! The registry entry of a session and what it says about its health.

use crate::clock::Timestamp;
use crate::gui::json::text_of;
use crate::paths::{join_path, path_joined};
use crate::sesman::config::{ComponentConfig, ReadinessCheck, SesmanConfig, SessionSize};
use crate::text::{same_text, texts};
use crate::text_map::TextMap;
use vstd::prelude::*;

verus! {

/// Version of the registry entry.
pub const STATE_VERSION: u32 = 1;

/// A client, kept for reconnect decisions.
#[derive(Debug, Clone)]
pub struct ClientInfo {
    pub peer: String,
    pub connected_at: Timestamp,
    pub requested_size: Option<SessionSize>,
}

/// A started component.
#[derive(Debug, Clone)]
pub struct ComponentState {
    pub name: String,
    pub pid: i32,
    pub command: Vec<String>,
    pub started_at: Timestamp,
    pub required: bool,
}

/// The registry entry of a session.
#[derive(Debug)]
pub struct SessionState {
    pub version: u32,
    /// Unique id, in its text form.
    pub id: String,
    pub name: String,
    pub user: String,
    pub created_at: Timestamp,
    pub updated_at: Timestamp,
    pub xdg_runtime_dir: String,
    pub default_size: SessionSize,
    pub requested_size: Option<SessionSize>,
    pub last_client: Option<ClientInfo>,
    pub components: Vec<ComponentState>,
}

/// Health of the registered session.
#[derive(Debug, Clone, Copy, PartialEq, Eq, Structural)]
pub enum SessionHealth {
    Missing,
    Healthy,
    Degraded,
    Dead,
}

/// What is known of the registered session.
#[derive(Debug)]
pub struct SessionStatus {
    pub health: SessionHealth,
    pub state_path: String,
    pub state: Option<SessionState>,
    pub dead_components: Vec<String>,
}

/// What a request for a session came to.
#[derive(Debug)]
pub struct EnsureResult {
    pub reused_existing: bool,
    pub status: SessionStatus,
}

/// A request for a session.
#[derive(Debug)]
pub struct EnsureOptions {
    pub force_restart: bool,
    pub requested_size: Option<SessionSize>,
    pub client_peer: Option<String>,
}

impl Default for EnsureOptions {
    fn default() -> (r: EnsureOptions)
        ensures
            r == (EnsureOptions { force_restart: false, requested_size: None, client_peer: None }),
    {
        EnsureOptions { force_restart: false, requested_size: None, client_peer: None }
    }
}

/// The command line of a component.
pub open spec fn command_line(component: ComponentConfig) -> Seq<Seq<char>> {
    seq![component.command@] + texts(component.args@)
}

/// The names of the components that are not alive.
pub open spec fn dead_names(components: Seq<ComponentState>, alive: Seq<bool>) -> Seq<Seq<char>>
    decreases components.len(),
{
    if components.len() == 0 {
        Seq::empty()
    } else {
        let rest = dead_names(components.drop_last(), alive);
        if alive[components.len() - 1] {
            rest
        } else {
            rest.push(components.last().name@)
        }
    }
}

/// The health of a session with so many components of which so many are dead. A session
/// without components has nothing dead.
pub open spec fn health_of(dead: nat, total: nat) -> SessionHealth {
    if dead == 0 {
        SessionHealth::Healthy
    } else if dead == total {
        SessionHealth::Dead
    } else {
        SessionHealth::Degraded
    }
}

proof fn lemma_dead_bounded(components: Seq<ComponentState>, alive: Seq<bool>)
    ensures
        dead_names(components, alive).len() <= components.len(),
    decreases components.len(),
{
    if components.len() > 0 {
        lemma_dead_bounded(components.drop_last(), alive);
    }
}

/// A session is healthy exactly if every component is alive, and dead exactly if it has
/// components and none is.
pub proof fn health_tells_liveness(components: Seq<ComponentState>, alive: Seq<bool>)
    requires
        components.len() == alive.len(),
    ensures
        health_of(dead_names(components, alive).len(), components.len()) == SessionHealth::Healthy
            <==> forall|i: int| 0 <= i < alive.len() ==> #[trigger] alive[i],
        health_of(dead_names(components, alive).len(), components.len()) == SessionHealth::Dead <==> (
        components.len() > 0 && forall|i: int| 0 <= i < alive.len() ==> !#[trigger] alive[i]),
    decreases components.len(),
{
    lemma_dead_count(components, alive, components.len() as int);
    lemma_dead_bounded(components, alive);
    assert(components.take(components.len() as int) =~= components);
}

proof fn lemma_dead_count(components: Seq<ComponentState>, alive: Seq<bool>, n: int)
    requires
        0 <= n <= components.len(),
        components.len() == alive.len(),
    ensures
        dead_names(components.take(n), alive).len() <= n,
        dead_names(components.take(n), alive).len() == 0 <==> forall|i: int|
            0 <= i < n ==> #[trigger] alive[i],
        dead_names(components.take(n), alive).len() == n <==> forall|i: int|
            0 <= i < n ==> !#[trigger] alive[i],
    decreases n,
{
    if n > 0 {
        lemma_dead_count(components, alive, n - 1);
        assert(components.take(n).drop_last() =~= components.take(n - 1));
    }
}

impl SessionState {
    /// The entry of a session in which nothing was started yet.
    pub open spec fn is_fresh(self, config: SesmanConfig, id: Seq<char>, now: Timestamp) -> bool {
        &&& self.version == STATE_VERSION
        &&& self.id@ == id
        &&& self.name@ == config.session_name@
        &&& self.user@ == config.user@
        &&& self.created_at == now
        &&& self.updated_at == now
        &&& self.xdg_runtime_dir@ == config.xdg_runtime_dir@
        &&& self.default_size == config.default_size
        &&& self.requested_size is None
        &&& self.last_client is None
        &&& self.components@.len() == 0
    }

    /// The entry of a session in which nothing was started yet.
    pub fn new(config: &SesmanConfig, id: String, now: Timestamp) -> (r: Self)
        ensures
            r.is_fresh(*config, id@, now),
    {
        SessionState {
            version: STATE_VERSION,
            id,
            name: config.session_name.clone(),
            user: config.user.clone(),
            created_at: now,
            updated_at: now,
            xdg_runtime_dir: config.xdg_runtime_dir.clone(),
            default_size: config.default_size,
            requested_size: None,
            last_client: None,
            components: Vec::new(),
        }
    }

    /// Notes that the entry changed.
    pub fn mark_updated(&mut self, now: Timestamp)
        ensures
            *final(self) == (SessionState { updated_at: now, ..*old(self) }),
    {
        self.updated_at = now;
    }

    /// The entry after a client asked for the session.
    pub open spec fn reconnected(self, options: EnsureOptions, now: Timestamp) -> SessionState {
        SessionState {
            requested_size: match options.requested_size {
                Some(size) => Some(size),
                None => self.requested_size,
            },
            last_client: match options.client_peer {
                Some(peer) => Some(
                    ClientInfo {
                        peer,
                        connected_at: now,
                        requested_size: options.requested_size,
                    },
                ),
                None => self.last_client,
            },
            updated_at: now,
            ..self
        }
    }

    /// Notes the client that asked for the session and the size it asked for. What the
    /// request leaves open stays.
    pub fn update_reconnect_state(&mut self, options: &EnsureOptions, now: Timestamp)
        ensures
            *final(self) == old(self).reconnected(*options, now),
    {
        if let Some(size) = options.requested_size {
            self.requested_size = Some(size);
        }
        if let Some(peer) = &options.client_peer {
            self.last_client = Some(
                ClientInfo {
                    peer: peer.clone(),
                    connected_at: now,
                    requested_size: options.requested_size,
                },
            );
        }
        self.mark_updated(now);
    }

    /// The process of a component: that of the first with its name.
    pub open spec fn pid_of(self, name: Seq<char>) -> Option<i32> {
        first_pid(self.components@, name)
    }

    /// The process of a component.
    pub fn component_pid(&self, name: &str) -> (r: Option<i32>)
        ensures
            r == self.pid_of(name@),
    {
        let ghost all = self.components@;
        assert(all.skip(0) =~= all);
        let mut i: usize = 0;
        while i < self.components.len()
            invariant
                i <= self.components@.len(),
                all == self.components@,
                first_pid(all, name@) == first_pid(all.skip(i as int), name@),
            decreases self.components@.len() - i,
        {
            assert(all.skip(i as int)[0] == all[i as int]);
            assert(all.skip(i as int).drop_first() =~= all.skip(i + 1));
            if same_text(self.components[i].name.as_str(), name) {
                return Some(self.components[i].pid);
            }
            i += 1;
        }
        None
    }
}

/// The process of the first component with the name.
pub open spec fn first_pid(components: Seq<ComponentState>, name: Seq<char>) -> Option<i32>
    decreases components.len(),
{
    if components.len() == 0 {
        None
    } else if components[0].name@ == name {
        Some(components[0].pid)
    } else {
        first_pid(components.drop_first(), name)
    }
}

/// The status of a registered session; `alive` tells of each component whether its
/// process is.
pub open spec fn is_status(
    status: SessionStatus,
    state_path: Seq<char>,
    state: Option<SessionState>,
    alive: Seq<bool>,
) -> bool {
    &&& status.state == state
    &&& status.state_path@ == state_path
    &&& match state {
        None => status.health == SessionHealth::Missing && status.dead_components@.len() == 0,
        Some(s) => {
            &&& texts(status.dead_components@) == dead_names(s.components@, alive)
            &&& status.health == health_of(
                dead_names(s.components@, alive).len(),
                s.components@.len(),
            )
        },
    }
}

/// Decides the health of a registered session.
pub fn status(config: &SesmanConfig, state: Option<SessionState>, alive: &Vec<bool>) -> (r:
    SessionStatus)
    requires
        state matches Some(s) ==> s.components@.len() == alive@.len(),
    ensures
        is_status(r, config.state_file(), state, alive@),
{
    let state_path = config.state_path();
    let mut dead_components: Vec<String> = Vec::new();
    let health = match &state {
        None => SessionHealth::Missing,
        Some(s) => {
            let ghost all = s.components@;
            assert(all.take(0) =~= Seq::<ComponentState>::empty());
            assert(texts(dead_components@) =~= dead_names(all.take(0), alive@));
            let mut i: usize = 0;
            while i < s.components.len()
                invariant
                    i <= s.components@.len(),
                    s.components@.len() == alive@.len(),
                    all == s.components@,
                    texts(dead_components@) == dead_names(all.take(i as int), alive@),
                decreases s.components@.len() - i,
            {
                let ghost before = dead_components@;
                assert(all.take(i + 1).drop_last() =~= all.take(i as int));
                assert(all.take(i + 1).last() == all[i as int]);
                if !alive[i] {
                    dead_components.push(s.components[i].name.clone());
                    assert(texts(dead_components@) =~= texts(before).push(all[i as int].name@));
                }
                i += 1;
            }
            assert(all.take(i as int) =~= all);
            assert(dead_components@.len() == texts(dead_components@).len());
            if dead_components.len() == 0 {
                SessionHealth::Healthy
            } else if dead_components.len() == s.components.len() {
                SessionHealth::Dead
            } else {
                SessionHealth::Degraded
            }
        },
    };
    SessionStatus { health, state_path, state, dead_components }
}

/// The processes among the first `n` components that are alive, last one first.
pub open spec fn living(components: Seq<ComponentState>, alive: Seq<bool>, n: int) -> Seq<i32>
    decreases n,
{
    if n <= 0 {
        Seq::empty()
    } else if alive[n - 1] {
        seq![components[n - 1].pid] + living(components, alive, n - 1)
    } else {
        living(components, alive, n - 1)
    }
}

/// The processes to signal: those that are alive, in the reverse of the order in which
/// they were started.
pub fn processes_to_signal(components: &Vec<ComponentState>, alive: &Vec<bool>) -> (r: Vec<i32>)
    requires
        components@.len() == alive@.len(),
    ensures
        r@ == living(components@, alive@, components@.len() as int),
{
    let mut r: Vec<i32> = Vec::new();
    let mut i: usize = components.len();
    assert(r@ + living(components@, alive@, i as int) =~= living(components@, alive@, i as int));
    while i > 0
        invariant
            i <= components@.len(),
            components@.len() == alive@.len(),
            r@ + living(components@, alive@, i as int) == living(
                components@,
                alive@,
                components@.len() as int,
            ),
        decreases i,
    {
        let ghost before = r@;
        if alive[i - 1] {
            r.push(components[i - 1].pid);
            assert(before + living(components@, alive@, i as int) =~= r@ + living(
                components@,
                alive@,
                i - 1,
            ));
        }
        i -= 1;
    }
    assert(r@ + living(components@, alive@, 0) =~= r@);
    r
}

/// What the wait for components that were asked to end comes to.
#[derive(Debug, Clone, Copy, PartialEq, Eq, Structural)]
pub enum StopWait {
    /// Look again after so many milliseconds.
    Again(u64),
    /// Kill what is still alive.
    Kill,
}

/// What the wait comes to: as long as something is alive and there is time, another look.
pub open spec fn waits(config: SesmanConfig, waited_ms: u64, alive: Seq<bool>) -> StopWait {
    if waited_ms < config.stop_timeout_ms && exists|i: int|
        0 <= i < alive.len() && #[trigger] alive[i] {
        StopWait::Again(100)
    } else {
        StopWait::Kill
    }
}

/// Waits for the components to end, no longer than the timeout.
pub fn stop_wait(config: &SesmanConfig, waited_ms: u64, alive: &Vec<bool>) -> (r: StopWait)
    ensures
        r == waits(*config, waited_ms, alive@),
{
    if waited_ms >= config.stop_timeout_ms {
        return StopWait::Kill;
    }
    let mut i: usize = 0;
    while i < alive.len()
        invariant
            i <= alive@.len(),
            waited_ms < config.stop_timeout_ms,
            forall|k: int| 0 <= k < i ==> !#[trigger] alive@[k],
        decreases alive@.len() - i,
    {
        if alive[i] {
            return StopWait::Again(100);
        }
        i += 1;
    }
    StopWait::Kill
}

/// What looking at a component that is to become ready comes to.
#[derive(Debug)]
pub enum ReadyWait {
    Ready,
    /// Look again after so many milliseconds.
    Again(u64),
    Failed(String),
}

/// The component counts as ready; `alive` tells of its process, `socket_exists` of the
/// socket it is awaited by.
pub open spec fn counts_as_ready(
    component: ComponentConfig,
    alive: bool,
    socket_exists: bool,
) -> bool {
    match component.readiness {
        ReadinessCheck::Unchecked => true,
        ReadinessCheck::ProcessAlive => alive,
        ReadinessCheck::UnixSocket { .. } => socket_exists,
    }
}

/// What looking at a component comes to: one that is required must not end before it is ready,
/// and none may take longer than the timeout.
pub open spec fn looked_at(
    config: SesmanConfig,
    component: ComponentConfig,
    alive: bool,
    socket_exists: bool,
    waited_ms: u64,
    r: ReadyWait,
) -> bool {
    if !alive && component.required {
        r matches ReadyWait::Failed(e) && e@ == "component "@ + component.name@
            + " exited before becoming ready"@
    } else if counts_as_ready(component, alive, socket_exists) {
        r is Ready
    } else if waited_ms >= config.start_timeout_ms {
        r matches ReadyWait::Failed(e) && e@ == "timed out waiting for component "@
            + component.name@ + " readiness"@
    } else {
        r == ReadyWait::Again(100)
    }
}

/// Decides on a component that is to become ready: one that is required must not end
/// before, and none may take longer than the timeout.
pub fn ready_wait(
    config: &SesmanConfig,
    component: &ComponentConfig,
    alive: bool,
    socket_exists: bool,
    waited_ms: u64,
) -> (r: ReadyWait)
    ensures
        looked_at(*config, *component, alive, socket_exists, waited_ms, r),
{
    if !alive && component.required {
        return ReadyWait::Failed(
            "component ".to_owned().concat(component.name.as_str()).concat(
                " exited before becoming ready",
            ),
        );
    }
    let ready = match &component.readiness {
        ReadinessCheck::Unchecked => true,
        ReadinessCheck::ProcessAlive => alive,
        ReadinessCheck::UnixSocket { .. } => socket_exists,
    };
    if ready {
        ReadyWait::Ready
    } else if waited_ms >= config.start_timeout_ms {
        ReadyWait::Failed(
            "timed out waiting for component ".to_owned().concat(component.name.as_str()).concat(
                " readiness",
            ),
        )
    } else {
        ReadyWait::Again(100)
    }
}

/// How to start a component.
#[derive(Debug)]
pub struct SpawnPlan {
    pub program: String,
    pub args: Vec<String>,
    /// The variables to set: later ones win.
    pub env: TextMap,
    pub working_dir: Option<String>,
    pub log_path: String,
}

/// The variables of `over` set over those of `base`.
pub open spec fn overlaid(
    base: Map<Seq<char>, Seq<char>>,
    over: Map<Seq<char>, Seq<char>>,
) -> Map<Seq<char>, Seq<char>> {
    base.union_prefer_right(over)
}

/// The variables that a component is started with: the runtime directory, then what all
/// components get, then its own.
pub open spec fn spawn_env(
    config: SesmanConfig,
    component: ComponentConfig,
) -> Map<Seq<char>, Seq<char>> {
    overlaid(
        overlaid(
            Map::empty().insert("XDG_RUNTIME_DIR"@, config.xdg_runtime_dir@),
            config.environment@,
        ),
        component.env@,
    )
}

fn overlay(base: &mut TextMap, over: &TextMap)
    requires
        old(base).wf(),
        over.wf(),
    ensures
        final(base).wf(),
        final(base)@ == overlaid(old(base)@, over@),
{
    let ghost before = base@;
    let mut i: usize = 0;
    proof {
        over.lemma_upto(0);
    }
    assert(base@ =~= overlaid(before, over.upto(0)));
    while i < over.entries.len()
        invariant
            i <= over.entries@.len(),
            over.wf(),
            base.wf(),
            base@ == overlaid(before, over.upto(i as int)),
        decreases over.entries@.len() - i,
    {
        let name = over.entries[i].0.clone();
        let value = over.entries[i].1.clone();
        base.insert(name, value);
        proof {
            over.lemma_upto(i as int);
            over.lemma_upto(i + 1);
        }
        assert(base@ =~= overlaid(before, over.upto(i + 1)));
        i += 1;
    }
    proof {
        over.lemma_upto(i as int);
    }
    assert(base@ =~= overlaid(before, over@));
}

impl SpawnPlan {
    /// The plan starts a component as it is configured.
    pub open spec fn starts(self, config: SesmanConfig, component: ComponentConfig) -> bool {
        &&& self.program@ == component.command@
        &&& texts(self.args@) == texts(component.args@)
        &&& self.env.wf()
        &&& self.env@ == spawn_env(config, component)
        &&& text_of(self.working_dir) == text_of(component.working_dir)
        &&& self.log_path@ == (match component.log_path {
            Some(p) => p@,
            None => path_joined(config.log_dir@, component.name@ + ".log"@),
        })
    }
}

/// How to start a component.
pub fn spawn_plan(config: &SesmanConfig, component: &ComponentConfig) -> (r: SpawnPlan)
    requires
        config.wf(),
        component.env.wf(),
    ensures
        r.starts(*config, *component),
{
    let mut env = TextMap::new();
    env.insert("XDG_RUNTIME_DIR".to_owned(), config.xdg_runtime_dir.clone());
    overlay(&mut env, &config.environment);
    overlay(&mut env, &component.env);
    let log_path = match &component.log_path {
        Some(p) => p.clone(),
        None => join_path(
            config.log_dir.as_str(),
            component.name.clone().concat(".log").as_str(),
        ),
    };
    let working_dir = match &component.working_dir {
        Some(d) => Some(d.clone()),
        None => None,
    };
    SpawnPlan {
        program: component.command.clone(),
        args: copy_texts(&component.args),
        env,
        working_dir,
        log_path,
    }
}

/// A component's own variables win over those that all components get, and those over
/// the runtime directory.
pub proof fn own_variables_win(config: SesmanConfig, component: ComponentConfig, name: Seq<char>)
    ensures
        component.env@.dom().contains(name) ==> spawn_env(config, component)[name]
            == component.env@[name],
        !component.env@.dom().contains(name) && config.environment@.dom().contains(name)
            ==> spawn_env(config, component)[name] == config.environment@[name],
        !component.env@.dom().contains("XDG_RUNTIME_DIR"@)
            && !config.environment@.dom().contains("XDG_RUNTIME_DIR"@) ==> spawn_env(
            config,
            component,
        )["XDG_RUNTIME_DIR"@] == config.xdg_runtime_dir@,
{
}

/// A copy of a list of texts.
pub fn copy_texts(v: &Vec<String>) -> (r: Vec<String>)
    ensures
        texts(r@) == texts(v@),
{
    let mut r: Vec<String> = Vec::new();
    let mut i: usize = 0;
    while i < v.len()
        invariant
            i <= v@.len(),
            texts(r@) =~= texts(v@).take(i as int),
        decreases v@.len() - i,
    {
        let ghost before = r@;
        r.push(v[i].clone());
        assert(texts(r@) =~= texts(before).push(v@[i as int]@));
        i += 1;
    }
    assert(texts(v@).take(i as int) =~= texts(v@));
    r
}

impl ComponentState {
    /// The record of a component: its name, command line and importance.
    pub open spec fn describes(self, component: ComponentConfig) -> bool {
        &&& self.name@ == component.name@
        &&& texts(self.command@) == command_line(component)
        &&& self.required == component.required
    }
}

/// The registry record of a component that was just started.
pub fn started_component(component: &ComponentConfig, pid: i32, now: Timestamp) -> (r:
    ComponentState)
    ensures
        r.describes(*component),
        r.pid == pid,
        r.started_at == now,
{
    let mut command: Vec<String> = Vec::new();
    command.push(component.command.clone());
    let mut args = copy_texts(&component.args);
    let ghost copied = args@;
    command.append(&mut args);
    proof {
        assert(command@.len() == 1 + copied.len());
        assert forall|i: int| 0 <= i < command@.len() implies texts(command@)[i] == command_line(
            *component,
        )[i] by {
            if i > 0 {
                assert(command@[i] == copied[i - 1]);
                assert(texts(copied)[i - 1] == texts(component.args@)[i - 1]);
            }
        }
        assert(texts(copied).len() == texts(component.args@).len());
        assert(texts(command@) =~= command_line(*component));
    }
    ComponentState {
        name: component.name.clone(),
        pid,
        command,
        started_at: now,
        required: component.required,
    }
}

/// Some of the components of a degraded session are dead and some are alive.
pub proof fn degraded_sessions_are_mixed(components: Seq<ComponentState>, alive: Seq<bool>)
    requires
        components.len() == alive.len(),
    ensures
        health_of(dead_names(components, alive).len(), components.len()) == SessionHealth::Degraded
            <==> (exists|i: int| 0 <= i < alive.len() && #[trigger] alive[i]) && (exists|i: int|
            0 <= i < alive.len() && !#[trigger] alive[i]),
{
    health_tells_liveness(components, alive);
    let health = health_of(dead_names(components, alive).len(), components.len());
    assert(health != SessionHealth::Missing);
    if health == SessionHealth::Degraded {
        assert(components.len() > 0) by {
            lemma_dead_bounded(components, alive);
        }
    }
}

/// A session with an entry is never missing, one without is, and what is dead of it says how it
/// is: nothing of a healthy one, all of a dead one, a part of a degraded one.
pub proof fn status_tells_what_is_dead(
    status: SessionStatus,
    path: Seq<char>,
    state: Option<SessionState>,
    alive: Seq<bool>,
)
    requires
        is_status(status, path, state, alive),
        state matches Some(s) ==> s.components@.len() == alive.len(),
    ensures
        status.state_path@ == path,
        status.health == SessionHealth::Missing <==> state is None,
        state is None ==> status.dead_components@.len() == 0,
        state matches Some(s) ==> {
            &&& status.health == SessionHealth::Healthy <==> status.dead_components@.len() == 0
            &&& status.health == SessionHealth::Dead <==> (status.dead_components@.len()
                == s.components@.len() && s.components@.len() > 0)
            &&& status.health == SessionHealth::Healthy <==> forall|i: int|
                0 <= i < alive.len() ==> #[trigger] alive[i]
        },
{
    if let Some(s) = state {
        health_tells_liveness(s.components@, alive);
        lemma_dead_bounded(s.components@, alive);
        assert(texts(status.dead_components@).len() == status.dead_components@.len());
    }
}

/// Whoever is dead is reported by name, and nobody else.
pub proof fn the_dead_are_named(components: Seq<ComponentState>, alive: Seq<bool>, name: Seq<char>)
    requires
        components.len() == alive.len(),
    ensures
        dead_names(components, alive).contains(name) <==> exists|i: int|
            0 <= i < components.len() && !alive[i] && (#[trigger] components[i]).name@ == name,
{
    assert(components.take(components.len() as int) =~= components);
    lemma_dead_named(components, alive, name, components.len() as int);
}

proof fn lemma_dead_named(
    components: Seq<ComponentState>,
    alive: Seq<bool>,
    name: Seq<char>,
    n: int,
)
    requires
        0 <= n <= components.len(),
        components.len() == alive.len(),
    ensures
        dead_names(components.take(n), alive).contains(name) <==> exists|i: int|
            0 <= i < n && !alive[i] && (#[trigger] components[i]).name@ == name,
    decreases n,
{
    if n > 0 {
        lemma_dead_named(components, alive, name, n - 1);
        assert(components.take(n).drop_last() =~= components.take(n - 1));
        let rest = dead_names(components.take(n - 1), alive);
        let all = dead_names(components.take(n), alive);
        if !alive[n - 1] {
            assert(all =~= rest.push(components[n - 1].name@));
            if all.contains(name) {
                let k = choose|k: int| 0 <= k < all.len() && all[k] == name;
                if k < rest.len() {
                    assert(rest[k] == name);
                    assert(rest.contains(name));
                } else {
                    assert(components[n - 1].name@ == name);
                }
            }
            if exists|i: int|
                0 <= i < n && !alive[i] && (#[trigger] components[i]).name@ == name {
                let i = choose|i: int|
                    0 <= i < n && !alive[i] && (#[trigger] components[i]).name@ == name;
                if i == n - 1 {
                    assert(all[rest.len() as int] == name);
                } else {
                    assert(rest.contains(name));
                    let k = choose|k: int| 0 <= k < rest.len() && rest[k] == name;
                    assert(all[k] == name);
                }
            }
        }
    }
}

/// Every component is either reported as dead or signalled when the session is stopped.
pub proof fn components_are_dead_or_signalled(components: Seq<ComponentState>, alive: Seq<bool>)
    requires
        components.len() == alive.len(),
    ensures
        dead_names(components, alive).len() + living(
            components,
            alive,
            components.len() as int,
        ).len() == components.len(),
{
    assert(components.take(components.len() as int) =~= components);
    lemma_dead_or_living(components, alive, components.len() as int);
}

proof fn lemma_dead_or_living(components: Seq<ComponentState>, alive: Seq<bool>, n: int)
    requires
        0 <= n <= components.len(),
        components.len() == alive.len(),
    ensures
        dead_names(components.take(n), alive).len() + living(components, alive, n).len() == n,
    decreases n,
{
    if n > 0 {
        lemma_dead_or_living(components, alive, n - 1);
        assert(components.take(n).drop_last() =~= components.take(n - 1));
    }
}

/// Components are signalled in the reverse of the order in which they were started: what lives
/// of the later ones comes before what lives of the earlier ones.
pub proof fn later_components_are_signalled_first(
    components: Seq<ComponentState>,
    alive: Seq<bool>,
    m: int,
    n: int,
)
    requires
        0 <= m <= n <= components.len(),
        components.len() == alive.len(),
    ensures
        living(components, alive, n) == living(components.skip(m), alive.skip(m), n - m) + living(
            components,
            alive,
            m,
        ),
        n > 0 && alive[n - 1] ==> living(components, alive, n)[0] == components[n - 1].pid,
    decreases n,
{
    if n == m {
        assert(living(components.skip(m), alive.skip(m), 0) + living(components, alive, m)
            =~= living(components, alive, m));
    } else {
        later_components_are_signalled_first(components, alive, m, n - 1);
        assert(components.skip(m)[n - m - 1] == components[n - 1]);
        assert(alive.skip(m)[n - m - 1] == alive[n - 1]);
        assert(living(components, alive, n) =~= living(
            components.skip(m),
            alive.skip(m),
            n - m,
        ) + living(components, alive, m));
    }
}

/// Components that were asked to end are given their time: none is killed while one is alive
/// and the timeout has not passed. After that, and as soon as none is left, nobody waits.
pub proof fn components_get_their_time(config: SesmanConfig, waited_ms: u64, alive: Seq<bool>, i: int)
    ensures
        0 <= i < alive.len() && alive[i] && waited_ms < config.stop_timeout_ms ==> waits(
            config,
            waited_ms,
            alive,
        ) == StopWait::Again(100),
        waited_ms >= config.stop_timeout_ms ==> waits(config, waited_ms, alive) == StopWait::Kill,
        (forall|k: int| 0 <= k < alive.len() ==> !#[trigger] alive[k]) ==> waits(
            config,
            waited_ms,
            alive,
        ) == StopWait::Kill,
{
}

/// A component that has to live is never taken for ready once its process is gone, whatever it
/// is awaited by.
pub proof fn required_components_must_live(
    config: SesmanConfig,
    component: ComponentConfig,
    socket_exists: bool,
    waited_ms: u64,
    r: ReadyWait,
)
    requires
        component.required,
        looked_at(config, component, false, socket_exists, waited_ms, r),
    ensures
        r matches ReadyWait::Failed(e) && e@ == "component "@ + component.name@
            + " exited before becoming ready"@,
{
}

/// A living component is ready at once where nobody waits for it or where its process is what
/// is awaited. Where a socket is awaited, it is ready as soon as the socket exists; until then
/// it is looked at again, until the timeout passes.
pub proof fn living_components_become_ready(
    config: SesmanConfig,
    component: ComponentConfig,
    socket_exists: bool,
    waited_ms: u64,
    r: ReadyWait,
)
    requires
        looked_at(config, component, true, socket_exists, waited_ms, r),
    ensures
        component.readiness is Unchecked ==> r is Ready,
        component.readiness is ProcessAlive ==> r is Ready,
        component.readiness is UnixSocket && socket_exists ==> r is Ready,
        component.readiness is UnixSocket && !socket_exists && waited_ms < config.start_timeout_ms
            ==> r == ReadyWait::Again(100),
        component.readiness is UnixSocket && !socket_exists && waited_ms >= config.start_timeout_ms
            ==> (r matches ReadyWait::Failed(e) && e@ == "timed out waiting for component "@
            + component.name@ + " readiness"@),
{
}

/// A component that need not live is not given up before the timeout because it ended, and is
/// not taken for ready where its process is awaited.
pub proof fn optional_components_may_end(
    config: SesmanConfig,
    component: ComponentConfig,
    socket_exists: bool,
    waited_ms: u64,
    r: ReadyWait,
)
    requires
        !component.required,
        looked_at(config, component, false, socket_exists, waited_ms, r),
    ensures
        r is Ready <==> component.readiness is Unchecked || (component.readiness is UnixSocket
            && socket_exists),
        r is Failed ==> waited_ms >= config.start_timeout_ms,
{
}

/// A component gets no variables but the runtime directory, those of all components and its
/// own.
pub proof fn components_get_no_other_variables(
    config: SesmanConfig,
    component: ComponentConfig,
    name: Seq<char>,
)
    ensures
        spawn_env(config, component).dom().contains(name) <==> name == "XDG_RUNTIME_DIR"@
            || config.environment@.dom().contains(name) || component.env@.dom().contains(name),
{
}

/// A component runs its own command with its own arguments, in the directory that it names,
/// and logs to its own file: the one it names, or else one under its name among the logs.
pub proof fn components_run_as_configured(
    plan: SpawnPlan,
    config: SesmanConfig,
    component: ComponentConfig,
    i: int,
)
    requires
        plan.starts(config, component),
    ensures
        plan.program@ == component.command@,
        plan.args@.len() == component.args@.len(),
        0 <= i < component.args@.len() ==> plan.args@[i]@ == component.args@[i]@,
        plan.working_dir is Some <==> component.working_dir is Some,
        component.working_dir is Some ==> plan.working_dir->0@ == component.working_dir->0@,
        component.log_path matches Some(p) ==> plan.log_path@ == p@,
        component.log_path is None && config.log_dir@.len() > 0 && config.log_dir@.last() != '/'
            && component.name@.len() > 0 && component.name@[0] != '/' ==> plan.log_path@
            == config.log_dir@ + "/"@ + component.name@ + ".log"@,
        !component.env@.dom().contains("XDG_RUNTIME_DIR"@)
            && !config.environment@.dom().contains("XDG_RUNTIME_DIR"@)
            ==> plan.env@["XDG_RUNTIME_DIR"@] == config.xdg_runtime_dir@,
{
    assert(texts(plan.args@).len() == plan.args@.len());
    assert(texts(component.args@).len() == component.args@.len());
    if 0 <= i < component.args@.len() {
        assert(texts(plan.args@)[i] == texts(component.args@)[i]);
    }
    reveal_strlit("/");
    reveal_strlit(".log");
    let name = component.name@ + ".log"@;
    if component.name@.len() > 0 {
        assert(name[0] == component.name@[0]);
    }
    assert(config.log_dir@.push('/') + name =~= config.log_dir@ + "/"@ + component.name@
        + ".log"@);
}

/// Asking for a session again changes who asked last and when, and the size where one was asked
/// for; what the request leaves open and all else stays. The same request twice is as good as
/// once.
pub proof fn requests_leave_the_rest_alone(
    state: SessionState,
    options: EnsureOptions,
    now: Timestamp,
)
    ensures
        ({
            let after = state.reconnected(options, now);
            &&& after.updated_at == now
            &&& options.requested_size is Some ==> after.requested_size == options.requested_size
            &&& options.requested_size is None ==> after.requested_size == state.requested_size
            &&& options.client_peer is None ==> after.last_client == state.last_client
            &&& options.client_peer matches Some(peer) ==> (after.last_client matches Some(c)
                && c.peer == peer && c.connected_at == now && c.requested_size
                == options.requested_size)
            &&& after.id == state.id
            &&& after.name == state.name
            &&& after.user == state.user
            &&& after.version == state.version
            &&& after.created_at == state.created_at
            &&& after.components == state.components
            &&& after.default_size == state.default_size
            &&& after.xdg_runtime_dir == state.xdg_runtime_dir
            &&& after.reconnected(options, now) == after
        }),
{
}

/// The entry of a new session names the configured session and user, and lists nothing yet.
pub proof fn new_entries_are_empty(
    state: SessionState,
    config: SesmanConfig,
    id: Seq<char>,
    now: Timestamp,
)
    requires
        state.is_fresh(config, id, now),
    ensures
        state.version == 1,
        state.id@ == id,
        state.name@ == config.session_name@,
        state.user@ == config.user@,
        state.created_at == now,
        state.updated_at == now,
        state.default_size == config.default_size,
        state.requested_size is None,
        state.last_client is None,
        state.components@ == Seq::<ComponentState>::empty(),
{
}

/// The process of a component is that of the first one with its name, and there is none where
/// nothing has the name.
pub proof fn first_component_with_the_name_counts(
    components: Seq<ComponentState>,
    name: Seq<char>,
    i: int,
)
    requires
        0 <= i < components.len(),
        components[i].name@ == name,
        forall|k: int| 0 <= k < i ==> (#[trigger] components[k]).name@ != name,
    ensures
        first_pid(components, name) == Some(components[i].pid),
    decreases components.len(),
{
    if i > 0 {
        let rest = components.drop_first();
        assert(components[0].name@ != name);
        assert forall|k: int| 0 <= k < i - 1 implies (#[trigger] rest[k]).name@ != name by {
            assert(rest[k] == components[k + 1]);
        }
        first_component_with_the_name_counts(rest, name, i - 1);
    }
}

/// A name that no component has belongs to no process.
pub proof fn unknown_names_have_no_process(components: Seq<ComponentState>, name: Seq<char>)
    requires
        forall|k: int| 0 <= k < components.len() ==> (#[trigger] components[k]).name@ != name,
    ensures
        first_pid(components, name) is None,
    decreases components.len(),
{
    if components.len() > 0 {
        let rest = components.drop_first();
        assert(components[0].name@ != name);
        assert forall|k: int| 0 <= k < rest.len() implies (#[trigger] rest[k]).name@ != name by {
            assert(rest[k] == components[k + 1]);
        }
        unknown_names_have_no_process(rest, name);
    }
}

/// The record of a component has its name, and its command line begins with the command and
/// goes on with the arguments.
pub proof fn records_hold_the_command_line(
    record: ComponentState,
    component: ComponentConfig,
    i: int,
)
    requires
        record.describes(component),
    ensures
        record.name@ == component.name@,
        record.required == component.required,
        record.command@.len() == component.args@.len() + 1,
        record.command@[0]@ == component.command@,
        0 <= i < component.args@.len() ==> record.command@[i + 1]@ == component.args@[i]@,
{
    let line = command_line(component);
    assert(texts(record.command@).len() == record.command@.len());
    assert(texts(record.command@)[0] == line[0]);
    if 0 <= i < component.args@.len() {
        assert(texts(record.command@)[i + 1] == line[i + 1]);
        assert(line[i + 1] == texts(component.args@)[i]);
    }
}

/// A client that asked is noted with the time and the size it asked for. What the request
/// leaves open stays as it was, and nothing else of the session changes.
pub proof fn clients_are_noted(before: SessionState, options: EnsureOptions, now: Timestamp)
    ensures
        ({
            let after = before.reconnected(options, now);
            &&& after.updated_at == now
            &&& options.requested_size is Some ==> after.requested_size == options.requested_size
            &&& options.requested_size is None ==> after.requested_size == before.requested_size
            &&& options.client_peer is None ==> after.last_client == before.last_client
            &&& options.client_peer is Some ==> {
                &&& after.last_client is Some
                &&& after.last_client->0.peer == options.client_peer->0
                &&& after.last_client->0.connected_at == now
                &&& after.last_client->0.requested_size == options.requested_size
            }
            &&& after.components == before.components
        }),
{
}

/// A component goes by its name: the process is that of the first component with it.
pub proof fn components_go_by_their_names(state: SessionState, name: Seq<char>, at: int)
    requires
        0 <= at <= state.components@.len(),
        forall|i: int| 0 <= i < at ==> (#[trigger] state.components@[i]).name@ != name,
        at < state.components@.len() ==> state.components@[at].name@ == name,
    ensures
        at < state.components@.len() ==> state.pid_of(name) == Some(state.components@[at].pid),
        at == state.components@.len() ==> state.pid_of(name) is None,
{
    lemma_first_pid(state.components@, name, at);
}

proof fn lemma_first_pid(components: Seq<ComponentState>, name: Seq<char>, at: int)
    requires
        0 <= at <= components.len(),
        forall|i: int| 0 <= i < at ==> (#[trigger] components[i]).name@ != name,
        at < components.len() ==> components[at].name@ == name,
    ensures
        at < components.len() ==> first_pid(components, name) == Some(components[at].pid),
        at == components.len() ==> first_pid(components, name) is None,
    decreases components.len(),
{
    if components.len() > 0 && at > 0 {
        let rest = components.drop_first();
        assert forall|i: int| 0 <= i < at - 1 implies (#[trigger] rest[i]).name@ != name by {
            assert(rest[i] == components[i + 1]);
        }
        if at < components.len() {
            assert(rest[at - 1] == components[at]);
        }
        assert(components[0].name@ != name);
        lemma_first_pid(rest, name, at - 1);
    }
}

} // verus!
