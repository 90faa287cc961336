//! Making sure that a usable session exists.
//!
//! [`EnsureRun`] is the request on its way: each step takes what the last action gave
//! and says what to do next. A healthy session is reused, a broken one is stopped, and
//! the components of a new one are started in their order, each recorded in the registry
//! before the next.

use crate::clock::Timestamp;
use crate::ids::{is_random_id, random_id};
use crate::sesman::config::{ComponentConfig, SesmanConfig};
use crate::sesman::manager::SessionManager;
use crate::sesman::session::{
    health_tells_liveness,
    is_status,
    started_component,
    EnsureOptions,
    EnsureResult,
    SessionHealth,
    SessionState,
    SessionStatus,
};
use vstd::prelude::*;

verus! {

/// A request for a session on its way.
#[derive(Debug)]
pub enum EnsureRun {
    /// The session is being looked at.
    Inspecting { options: EnsureOptions },
    /// The session is being stopped because a restart was asked for.
    Restarting { options: EnsureOptions },
    /// The session is being looked at again.
    Reinspecting { options: EnsureOptions },
    /// A healthy session's new registry entry is being written.
    Reusing { state: SessionState },
    /// A reused session is being looked at.
    Reused,
    /// A broken session is being stopped.
    Clearing { options: EnsureOptions },
    /// Leftovers are being removed.
    Cleaning { options: EnsureOptions },
    /// Component `next` is being started.
    Starting { state: SessionState, next: usize },
    /// The registry entry with component `next` is being written.
    Recording { state: SessionState, next: usize },
    /// Component `next` is to become ready.
    Awaiting { state: SessionState, next: usize },
    /// Component `next` gets time to settle.
    Resting { state: SessionState, next: usize },
    /// All components are started and the session is being looked at.
    Started,
}

/// What the last action gave.
#[derive(Debug)]
pub enum EnsureEvent {
    Inspected(SessionStatus),
    Stopped,
    Recorded,
    /// Leftovers are removed.
    Cleaned,
    Spawned { pid: i32 },
    Ready,
    Rested,
}

/// What to do next.
#[derive(Debug, Clone, Copy, PartialEq, Eq, Structural)]
pub enum EnsureAction {
    /// Look at the registered session.
    Inspect,
    /// Stop the registered session.
    Stop,
    /// Write the registry entry.
    Record,
    /// Remove leftovers.
    Clean,
    /// Start the component with this index.
    Spawn(usize),
    /// Wait until the component with this index is ready.
    Await(usize),
    /// Wait so many milliseconds.
    Rest(u64),
}

/// What a step came to.
#[derive(Debug)]
pub enum EnsureStep {
    Continue(EnsureRun, EnsureAction),
    Done(EnsureResult),
    Failed(String),
}

/// The registry entry lists the first `n` components, in the order of the configuration.
pub open spec fn lists(state: SessionState, config: SesmanConfig, n: int) -> bool {
    &&& state.components@.len() == n
    &&& n <= config.components@.len()
    &&& forall|i: int|
        0 <= i < n ==> (#[trigger] state.components@[i]).describes(config.components@[i])
}

impl EnsureRun {
    /// The registry entry on its way lists exactly what was started so far.
    pub open spec fn wf(self, config: SesmanConfig) -> bool {
        match self {
            EnsureRun::Starting { state, next } => lists(state, config, next as int) && next
                < config.components@.len(),
            EnsureRun::Recording { state, next }
            | EnsureRun::Awaiting { state, next }
            | EnsureRun::Resting { state, next } => lists(state, config, next + 1),
            _ => true,
        }
    }

    /// The registry entry to write.
    pub fn state(&self) -> (r: Option<&SessionState>)
        ensures
            match *self {
                EnsureRun::Reusing { state }
                | EnsureRun::Starting { state, .. }
                | EnsureRun::Recording { state, .. }
                | EnsureRun::Awaiting { state, .. }
                | EnsureRun::Resting { state, .. } => r == Some(&state),
                _ => r is None,
            },
    {
        match self {
            EnsureRun::Reusing { state } => Some(state),
            EnsureRun::Starting { state, next: _ } => Some(state),
            EnsureRun::Recording { state, next: _ } => Some(state),
            EnsureRun::Awaiting { state, next: _ } => Some(state),
            EnsureRun::Resting { state, next: _ } => Some(state),
            _ => None,
        }
    }
}

/// What is done about a session that was looked at: a healthy one is reused, a broken one
/// is stopped, a missing one is started.
pub open spec fn decided(
    options: EnsureOptions,
    status: SessionStatus,
    now: Timestamp,
    r: EnsureStep,
) -> bool {
    match status.health {
        SessionHealth::Healthy => match status.state {
            Some(state) => r == EnsureStep::Continue(
                EnsureRun::Reusing { state: state.reconnected(options, now) },
                EnsureAction::Record,
            ),
            None => r matches EnsureStep::Failed(e) && e@ == "healthy status without state"@,
        },
        SessionHealth::Degraded | SessionHealth::Dead => r == EnsureStep::Continue(
            EnsureRun::Clearing { options },
            EnsureAction::Stop,
        ),
        SessionHealth::Missing => r == EnsureStep::Continue(
            EnsureRun::Cleaning { options },
            EnsureAction::Clean,
        ),
    }
}

/// What follows once components before `next` are done with.
pub open spec fn proceeding(state: SessionState, next: int, config: SesmanConfig) -> EnsureStep {
    if next < config.components@.len() {
        EnsureStep::Continue(
            EnsureRun::Starting { state, next: next as usize },
            EnsureAction::Spawn(next as usize),
        )
    } else {
        EnsureStep::Continue(EnsureRun::Started, EnsureAction::Inspect)
    }
}

/// What a new session with an identifier begins with.
pub open spec fn begun(
    options: EnsureOptions,
    config: SesmanConfig,
    id: Seq<char>,
    now: Timestamp,
    r: EnsureStep,
) -> bool {
    exists|fresh: SessionState| #[trigger]
        fresh.is_fresh(config, id, now) && r == proceeding(
            fresh.reconnected(options, now),
            0,
            config,
        )
}

/// `after` is `before` with a record of one more started component.
pub open spec fn recorded(
    before: SessionState,
    after: SessionState,
    component: ComponentConfig,
    pid: i32,
    now: Timestamp,
) -> bool {
    &&& after == SessionState { components: after.components, updated_at: now, ..before }
    &&& after.components@.len() == before.components@.len() + 1
    &&& after.components@.drop_last() == before.components@
    &&& after.components@.last().describes(component)
    &&& after.components@.last().pid == pid
    &&& after.components@.last().started_at == now
}

/// What a step comes to.
pub open spec fn ensured(
    run: EnsureRun,
    config: SesmanConfig,
    event: EnsureEvent,
    now: Timestamp,
    r: EnsureStep,
) -> bool {
    match (run, event) {
        (EnsureRun::Inspecting { options }, EnsureEvent::Inspected(status)) => {
            if options.force_restart {
                r == EnsureStep::Continue(EnsureRun::Restarting { options }, EnsureAction::Stop)
            } else {
                decided(options, status, now, r)
            }
        },
        (EnsureRun::Restarting { options }, EnsureEvent::Stopped) => r == EnsureStep::Continue(
            EnsureRun::Reinspecting { options },
            EnsureAction::Inspect,
        ),
        (EnsureRun::Reinspecting { options }, EnsureEvent::Inspected(status)) => decided(
            options,
            status,
            now,
            r,
        ),
        (EnsureRun::Reusing { .. }, EnsureEvent::Recorded) => r == EnsureStep::Continue(
            EnsureRun::Reused,
            EnsureAction::Inspect,
        ),
        (EnsureRun::Reused, EnsureEvent::Inspected(status)) => r == EnsureStep::Done(
            EnsureResult { reused_existing: true, status },
        ),
        (EnsureRun::Clearing { options }, EnsureEvent::Stopped) => r == EnsureStep::Continue(
            EnsureRun::Cleaning { options },
            EnsureAction::Clean,
        ),
        (EnsureRun::Cleaning { options }, EnsureEvent::Cleaned) => exists|id: Seq<char>| #[trigger]
            is_random_id(id) && begun(options, config, id, now, r),
        (EnsureRun::Starting { state, next }, EnsureEvent::Spawned { pid }) => {
            &&& r is Continue
            &&& r->Continue_1 == EnsureAction::Record
            &&& r->Continue_0 is Recording
            &&& r->Continue_0->Recording_next == next
            &&& recorded(
                state,
                r->Continue_0->Recording_state,
                config.components@[next as int],
                pid,
                now,
            )
        },
        (EnsureRun::Recording { state, next }, EnsureEvent::Recorded) => r == EnsureStep::Continue(
            EnsureRun::Awaiting { state, next },
            EnsureAction::Await(next),
        ),
        (EnsureRun::Awaiting { state, next }, EnsureEvent::Ready) => {
            let delay = config.components@[next as int].startup_delay_ms;
            if delay > 0 {
                r == EnsureStep::Continue(
                    EnsureRun::Resting { state, next },
                    EnsureAction::Rest(delay),
                )
            } else {
                r == proceeding(state, next + 1, config)
            }
        },
        (EnsureRun::Resting { state, next }, EnsureEvent::Rested) => r == proceeding(
            state,
            next + 1,
            config,
        ),
        (EnsureRun::Started, EnsureEvent::Inspected(status)) => r == EnsureStep::Done(
            EnsureResult { reused_existing: false, status },
        ),
        _ => r is Failed,
    }
}

impl SessionManager {
    /// Begins to make sure that a session exists: the first thing is to look at it.
    pub fn ensure(&self, options: EnsureOptions) -> (r: (EnsureRun, EnsureAction))
        ensures
            r.0 == (EnsureRun::Inspecting { options }),
            r.1 == EnsureAction::Inspect,
            r.0.wf(self.settings()),
    {
        (EnsureRun::Inspecting { options }, EnsureAction::Inspect)
    }

    fn decide(options: EnsureOptions, status: SessionStatus, now: Timestamp) -> (r: EnsureStep)
        ensures
            decided(options, status, now, r),
    {
        match status.health {
            SessionHealth::Healthy => match status.state {
                Some(state) => {
                    let mut state = state;
                    state.update_reconnect_state(&options, now);
                    EnsureStep::Continue(EnsureRun::Reusing { state }, EnsureAction::Record)
                },
                None => EnsureStep::Failed("healthy status without state".to_owned()),
            },
            SessionHealth::Degraded => EnsureStep::Continue(
                EnsureRun::Clearing { options },
                EnsureAction::Stop,
            ),
            SessionHealth::Dead => EnsureStep::Continue(
                EnsureRun::Clearing { options },
                EnsureAction::Stop,
            ),
            SessionHealth::Missing => EnsureStep::Continue(
                EnsureRun::Cleaning { options },
                EnsureAction::Clean,
            ),
        }
    }

    fn proceed(&self, state: SessionState, next: usize) -> (r: EnsureStep)
        requires
            lists(state, self.settings(), next as int),
        ensures
            r == proceeding(state, next as int, self.settings()),
            r matches EnsureStep::Continue(run, _) ==> run.wf(self.settings()),
    {
        if next < self.config().components.len() {
            EnsureStep::Continue(EnsureRun::Starting { state, next }, EnsureAction::Spawn(next))
        } else {
            EnsureStep::Continue(EnsureRun::Started, EnsureAction::Inspect)
        }
    }

    fn record(&self, state: SessionState, next: usize, pid: i32, now: Timestamp) -> (r: SessionState)
        requires
            lists(state, self.settings(), next as int),
            next < self.settings().components@.len(),
        ensures
            recorded(state, r, self.settings().components@[next as int], pid, now),
            lists(r, self.settings(), next + 1),
    {
        let mut state = state;
        let ghost before = state;
        state.components.push(started_component(&self.config().components[next], pid, now));
        state.mark_updated(now);
        assert(state.components@.drop_last() =~= before.components@);
        state
    }

    /// Begins a new session with an identifier: its first component is to be started.
    pub fn begin_session(&self, options: EnsureOptions, id: String, now: Timestamp) -> (r:
        EnsureStep)
        ensures
            begun(options, self.settings(), id@, now, r),
            r matches EnsureStep::Continue(run, _) ==> run.wf(self.settings()),
    {
        let mut state = SessionState::new(self.config(), id, now);
        let ghost fresh = state;
        state.update_reconnect_state(&options, now);
        assert(fresh.is_fresh(self.settings(), id@, now));
        self.proceed(state, 0)
    }

    /// Takes what the last action gave and says what to do next. A new session gets a random
    /// identifier.
    pub fn step(&self, run: EnsureRun, event: EnsureEvent, now: Timestamp) -> (r: EnsureStep)
        requires
            run.wf(self.settings()),
        ensures
            ensured(run, self.settings(), event, now, r),
            r matches EnsureStep::Continue(next, _) ==> next.wf(self.settings()),
    {
        match (run, event) {
            (EnsureRun::Inspecting { options }, EnsureEvent::Inspected(status)) => {
                if options.force_restart {
                    EnsureStep::Continue(EnsureRun::Restarting { options }, EnsureAction::Stop)
                } else {
                    Self::decide(options, status, now)
                }
            },
            (EnsureRun::Restarting { options }, EnsureEvent::Stopped) => EnsureStep::Continue(
                EnsureRun::Reinspecting { options },
                EnsureAction::Inspect,
            ),
            (EnsureRun::Reinspecting { options }, EnsureEvent::Inspected(status)) => Self::decide(
                options,
                status,
                now,
            ),
            (EnsureRun::Reusing { .. }, EnsureEvent::Recorded) => EnsureStep::Continue(
                EnsureRun::Reused,
                EnsureAction::Inspect,
            ),
            (EnsureRun::Reused, EnsureEvent::Inspected(status)) => EnsureStep::Done(
                EnsureResult { reused_existing: true, status },
            ),
            (EnsureRun::Clearing { options }, EnsureEvent::Stopped) => EnsureStep::Continue(
                EnsureRun::Cleaning { options },
                EnsureAction::Clean,
            ),
            (EnsureRun::Cleaning { options }, EnsureEvent::Cleaned) => {
                let id = random_id();
                self.begin_session(options, id, now)
            },
            (EnsureRun::Starting { state, next }, EnsureEvent::Spawned { pid }) => {
                let state = self.record(state, next, pid, now);
                EnsureStep::Continue(EnsureRun::Recording { state, next }, EnsureAction::Record)
            },
            (EnsureRun::Recording { state, next }, EnsureEvent::Recorded) => EnsureStep::Continue(
                EnsureRun::Awaiting { state, next },
                EnsureAction::Await(next),
            ),
            (EnsureRun::Awaiting { state, next }, EnsureEvent::Ready) => {
                assert(next < self.settings().components.len());
                let delay: u64 = self.config().components[next].startup_delay_ms;
                if delay > 0 {
                    EnsureStep::Continue(
                        EnsureRun::Resting { state, next },
                        EnsureAction::Rest(delay),
                    )
                } else {
                    self.proceed(state, next + 1)
                }
            },
            (EnsureRun::Resting { state, next }, EnsureEvent::Rested) => {
                assert(next < self.settings().components.len());
                self.proceed(state, next + 1)
            },
            (EnsureRun::Started, EnsureEvent::Inspected(status)) => EnsureStep::Done(
                EnsureResult { reused_existing: false, status },
            ),
            _ => EnsureStep::Failed("unexpected event while ensuring a session".to_owned()),
        }
    }
}

/// A request that does not force a restart never stops a healthy session: it is reused,
/// with nothing of it changed but who asked for it and when.
pub proof fn healthy_session_is_reused(
    options: EnsureOptions,
    config: SesmanConfig,
    status: SessionStatus,
    state: SessionState,
    now: Timestamp,
    r: EnsureStep,
)
    requires
        !options.force_restart,
        status.health == SessionHealth::Healthy,
        status.state == Some(state),
        ensured(
            EnsureRun::Inspecting { options },
            config,
            EnsureEvent::Inspected(status),
            now,
            r,
        ),
    ensures
        r matches EnsureStep::Continue(EnsureRun::Reusing { state: kept }, action) && action
            == EnsureAction::Record && kept.components == state.components && kept.id == state.id
            && kept.created_at == state.created_at,
{
}

/// A reported success names a session that was looked at last.
pub proof fn success_reports_last_status(
    run: EnsureRun,
    config: SesmanConfig,
    event: EnsureEvent,
    now: Timestamp,
    r: EnsureStep,
)
    requires
        ensured(run, config, event, now, r),
        r is Done,
    ensures
        event matches EnsureEvent::Inspected(status) && (r matches EnsureStep::Done(result)
            && result.status == status && (result.reused_existing <==> run is Reused)),
{
}

/// A request that does not force a restart stops a session of which anything is dead, and so
/// does one that does where the session is still there after its restart: such a session is
/// never recorded as reused.
pub proof fn broken_sessions_are_stopped(
    options: EnsureOptions,
    config: SesmanConfig,
    status: SessionStatus,
    now: Timestamp,
    r: EnsureStep,
)
    requires
        status.health == SessionHealth::Degraded || status.health == SessionHealth::Dead,
        !options.force_restart && ensured(
            EnsureRun::Inspecting { options },
            config,
            EnsureEvent::Inspected(status),
            now,
            r,
        ) || ensured(
            EnsureRun::Reinspecting { options },
            config,
            EnsureEvent::Inspected(status),
            now,
            r,
        ),
    ensures
        r == EnsureStep::Continue(EnsureRun::Clearing { options }, EnsureAction::Stop),
{
}

/// A session with a dead component is stopped, whichever component it is; one with nothing but
/// living components is kept.
pub proof fn one_dead_component_is_enough(
    options: EnsureOptions,
    config: SesmanConfig,
    status: SessionStatus,
    state: SessionState,
    alive: Seq<bool>,
    now: Timestamp,
    r: EnsureStep,
)
    requires
        !options.force_restart,
        is_status(status, config.state_file(), Some(state), alive),
        state.components@.len() == alive.len(),
        ensured(
            EnsureRun::Inspecting { options },
            config,
            EnsureEvent::Inspected(status),
            now,
            r,
        ),
    ensures
        (exists|i: int| 0 <= i < alive.len() && !#[trigger] alive[i]) ==> r
            == EnsureStep::Continue(EnsureRun::Clearing { options }, EnsureAction::Stop),
        (forall|i: int| 0 <= i < alive.len() ==> #[trigger] alive[i]) ==> (
        r matches EnsureStep::Continue(EnsureRun::Reusing { state: kept }, EnsureAction::Record)
            && kept.components == state.components),
{
    health_tells_liveness(state.components@, alive);
}

/// Only a healthy session is ever reused, and what is recorded of it is its own entry.
pub proof fn only_healthy_sessions_are_reused(
    run: EnsureRun,
    config: SesmanConfig,
    event: EnsureEvent,
    now: Timestamp,
    r: EnsureStep,
)
    requires
        ensured(run, config, event, now, r),
        r matches EnsureStep::Continue(next, _) && next is Reusing,
    ensures
        run is Inspecting || run is Reinspecting,
        event matches EnsureEvent::Inspected(status) && status.health == SessionHealth::Healthy
            && status.state is Some && (r matches EnsureStep::Continue(
            EnsureRun::Reusing { state },
            action,
        ) && action == EnsureAction::Record && state.id == status.state->0.id && state.components
            == status.state->0.components),
{
}

/// Where a restart is asked for, the session is stopped first, however it is, and looked at
/// again afterwards.
pub proof fn restarts_stop_first(
    options: EnsureOptions,
    config: SesmanConfig,
    status: SessionStatus,
    now: Timestamp,
    r: EnsureStep,
    again: EnsureStep,
)
    requires
        options.force_restart,
        ensured(
            EnsureRun::Inspecting { options },
            config,
            EnsureEvent::Inspected(status),
            now,
            r,
        ),
        ensured(EnsureRun::Restarting { options }, config, EnsureEvent::Stopped, now, again),
    ensures
        r == EnsureStep::Continue(EnsureRun::Restarting { options }, EnsureAction::Stop),
        again == EnsureStep::Continue(EnsureRun::Reinspecting { options }, EnsureAction::Inspect),
{
}

/// Where no session is registered, and once a broken one was stopped, the leftovers are removed
/// before anything is started.
pub proof fn leftovers_go_first(
    options: EnsureOptions,
    config: SesmanConfig,
    status: SessionStatus,
    now: Timestamp,
    missing: EnsureStep,
    cleared: EnsureStep,
)
    requires
        !options.force_restart,
        status.health == SessionHealth::Missing,
        ensured(
            EnsureRun::Inspecting { options },
            config,
            EnsureEvent::Inspected(status),
            now,
            missing,
        ),
        ensured(EnsureRun::Clearing { options }, config, EnsureEvent::Stopped, now, cleared),
    ensures
        missing == EnsureStep::Continue(EnsureRun::Cleaning { options }, EnsureAction::Clean),
        cleared == EnsureStep::Continue(EnsureRun::Cleaning { options }, EnsureAction::Clean),
{
}

/// A new session begins with its first component and with an entry that lists none yet, names
/// the session and remembers what the client asked for.
pub proof fn new_sessions_begin_with_the_first_component(
    options: EnsureOptions,
    config: SesmanConfig,
    now: Timestamp,
    r: EnsureStep,
)
    requires
        config.components@.len() > 0,
        ensured(EnsureRun::Cleaning { options }, config, EnsureEvent::Cleaned, now, r),
    ensures
        r matches EnsureStep::Continue(EnsureRun::Starting { state, next }, action) && next == 0
            && action == EnsureAction::Spawn(0) && state.components@.len() == 0 && state.name@
            == config.session_name@ && state.user@ == config.user@ && state.created_at == now
            && is_random_id(state.id@) && state.requested_size == options.requested_size && (
        options.client_peer matches Some(peer) ==> (state.last_client matches Some(c) && c.peer
            == peer)),
{
}

/// A component that was started is recorded with its process before it is waited for, after
/// those that were started before it.
pub proof fn started_components_are_recorded(
    state: SessionState,
    next: usize,
    pid: i32,
    config: SesmanConfig,
    now: Timestamp,
    r: EnsureStep,
)
    requires
        next < config.components@.len(),
        ensured(
            EnsureRun::Starting { state, next },
            config,
            EnsureEvent::Spawned { pid },
            now,
            r,
        ),
    ensures
        r matches EnsureStep::Continue(EnsureRun::Recording { state: after, next: same }, action)
            && same == next && action == EnsureAction::Record && after.components@.len()
            == state.components@.len() + 1 && after.components@.last().pid == pid
            && after.components@.last().name@ == config.components@[next as int].name@
            && after.components@.last().started_at == now && after.id == state.id && (forall|i: int|
            0 <= i < state.components@.len() ==> after.components@[i] == #[trigger] state.components@[i]),
{
    let after = r->Continue_0->Recording_state;
    assert forall|i: int| 0 <= i < state.components@.len() implies after.components@[i]
        == #[trigger] state.components@[i] by {
        assert(after.components@.drop_last()[i] == state.components@[i]);
    }
}

/// A recorded component is waited for, given the time that it is configured to need, and then
/// the next one is started; after the last one the session is looked at. No component is left
/// out and none comes twice.
pub proof fn components_start_one_after_the_other(
    state: SessionState,
    next: usize,
    config: SesmanConfig,
    now: Timestamp,
    recorded: EnsureStep,
    ready: EnsureStep,
    rested: EnsureStep,
)
    requires
        next < config.components@.len(),
        ensured(
            EnsureRun::Recording { state, next },
            config,
            EnsureEvent::Recorded,
            now,
            recorded,
        ),
        ensured(EnsureRun::Awaiting { state, next }, config, EnsureEvent::Ready, now, ready),
        ensured(EnsureRun::Resting { state, next }, config, EnsureEvent::Rested, now, rested),
    ensures
        recorded == EnsureStep::Continue(
            EnsureRun::Awaiting { state, next },
            EnsureAction::Await(next),
        ),
        config.components@[next as int].startup_delay_ms > 0 ==> ready == EnsureStep::Continue(
            EnsureRun::Resting { state, next },
            EnsureAction::Rest(config.components@[next as int].startup_delay_ms),
        ),
        config.components@[next as int].startup_delay_ms == 0 ==> ready == rested,
        next + 1 < config.components@.len() ==> rested == EnsureStep::Continue(
            EnsureRun::Starting { state, next: (next + 1) as usize },
            EnsureAction::Spawn((next + 1) as usize),
        ),
        next + 1 == config.components@.len() ==> rested == EnsureStep::Continue(
            EnsureRun::Started,
            EnsureAction::Inspect,
        ),
{
}

/// A session that was started is reported as new and one that was kept as reused, each with
/// what the last look at it showed.
pub proof fn results_say_where_sessions_come_from(
    config: SesmanConfig,
    status: SessionStatus,
    now: Timestamp,
    started: EnsureStep,
    reused: EnsureStep,
)
    requires
        ensured(EnsureRun::Started, config, EnsureEvent::Inspected(status), now, started),
        ensured(EnsureRun::Reused, config, EnsureEvent::Inspected(status), now, reused),
    ensures
        started matches EnsureStep::Done(result) && !result.reused_existing && result.status
            == status,
        reused matches EnsureStep::Done(result) && result.reused_existing && result.status
            == status,
{
}

/// A healthy session without an entry is not usable, and neither is an event that does not
/// answer the last action: both end the request with a failure.
pub proof fn nonsense_ends_the_request(
    options: EnsureOptions,
    config: SesmanConfig,
    status: SessionStatus,
    now: Timestamp,
    r: EnsureStep,
    other: EnsureStep,
)
    requires
        !options.force_restart,
        status.health == SessionHealth::Healthy,
        status.state is None,
        ensured(
            EnsureRun::Inspecting { options },
            config,
            EnsureEvent::Inspected(status),
            now,
            r,
        ),
        ensured(EnsureRun::Inspecting { options }, config, EnsureEvent::Ready, now, other),
    ensures
        r matches EnsureStep::Failed(e) && e@ == "healthy status without state"@,
        other is Failed,
{
}

} // verus!
