//! Stopping the registered session.
//!
//! The processes are asked to end, last one first, then waited for, and those that are
//! left are killed. After that the registry entry and the leftovers are removed.

use crate::sesman::config::SesmanConfig;
use crate::sesman::manager::SessionManager;
use crate::sesman::session::{
    living,
    processes_to_signal,
    stop_wait,
    ComponentState,
    SessionStatus,
    StopWait,
};
use vstd::prelude::*;

verus! {

/// A stop on its way.
#[derive(Debug)]
pub enum StopRun {
    /// The session is being looked at.
    Inspecting,
    /// The processes are being looked at, before they are asked to end.
    Probing { components: Vec<ComponentState> },
    /// The processes are being asked to end.
    Terminating { components: Vec<ComponentState> },
    /// The processes were asked to end and are being looked at.
    Waiting { components: Vec<ComponentState> },
    /// What is left is being killed.
    Killing,
    /// The registry entry is being removed.
    Removing,
    /// Leftovers are being removed.
    Cleaning,
}

/// What the last action gave.
#[derive(Debug)]
pub enum StopEvent {
    Inspected(SessionStatus),
    /// Which processes are alive, and how long ago they were asked to end.
    Probed { alive: Vec<bool>, waited_ms: u64 },
    Signalled,
    Removed,
    Cleaned,
}

/// What to do next.
#[derive(Debug)]
pub enum StopAction {
    Inspect,
    /// Look which processes are alive.
    Probe,
    /// Wait so many milliseconds, then look which processes are alive.
    ProbeAfter(u64),
    /// Ask these processes to end, in this order.
    Terminate(Vec<i32>),
    /// Kill these processes, in this order.
    Kill(Vec<i32>),
    RemoveEntry,
    Clean,
}

/// What a step came to.
#[derive(Debug)]
pub enum StopStep {
    Continue(StopRun, StopAction),
    Done,
    Failed(String),
}

/// Some process is alive.
pub open spec fn any_alive(alive: Seq<bool>) -> bool {
    exists|i: int| 0 <= i < alive.len() && #[trigger] alive[i]
}

/// What a step comes to.
pub open spec fn stopped(
    run: StopRun,
    config: SesmanConfig,
    event: StopEvent,
    r: StopStep,
) -> bool {
    match (run, event) {
        (StopRun::Inspecting, StopEvent::Inspected(status)) => match status.state {
            Some(state) => r == StopStep::Continue(
                StopRun::Probing { components: state.components },
                StopAction::Probe,
            ),
            None => r == StopStep::Done,
        },
        (StopRun::Probing { components }, StopEvent::Probed { alive, .. }) => {
            if alive@.len() == components@.len() {
                &&& r matches StopStep::Continue(next, StopAction::Terminate(pids))
                &&& next == StopRun::Terminating { components }
                &&& pids@ == living(components@, alive@, components@.len() as int)
            } else {
                r is Failed
            }
        },
        (StopRun::Terminating { components }, StopEvent::Signalled) => r == StopStep::Continue(
            StopRun::Waiting { components },
            StopAction::Probe,
        ),
        (StopRun::Waiting { components }, StopEvent::Probed { alive, waited_ms }) => {
            if alive@.len() != components@.len() {
                r is Failed
            } else if waited_ms < config.stop_timeout_ms && any_alive(alive@) {
                r == StopStep::Continue(
                    StopRun::Waiting { components },
                    StopAction::ProbeAfter(100),
                )
            } else {
                &&& r matches StopStep::Continue(next, StopAction::Kill(pids))
                &&& next == StopRun::Killing
                &&& pids@ == living(components@, alive@, components@.len() as int)
            }
        },
        (StopRun::Killing, StopEvent::Signalled) => r == StopStep::Continue(
            StopRun::Removing,
            StopAction::RemoveEntry,
        ),
        (StopRun::Removing, StopEvent::Removed) => r == StopStep::Continue(
            StopRun::Cleaning,
            StopAction::Clean,
        ),
        (StopRun::Cleaning, StopEvent::Cleaned) => r == StopStep::Done,
        _ => r is Failed,
    }
}

impl SessionManager {
    /// Begins to stop the session: the first thing is to look at it.
    pub fn stop(&self) -> (r: (StopRun, StopAction))
        ensures
            r.0 == StopRun::Inspecting,
            r.1 == StopAction::Inspect,
    {
        (StopRun::Inspecting, StopAction::Inspect)
    }

    /// Takes what the last action gave and says what to do next.
    pub fn stop_step(&self, run: StopRun, event: StopEvent) -> (r: StopStep)
        ensures
            stopped(run, self.settings(), event, r),
    {
        match (run, event) {
            (StopRun::Inspecting, StopEvent::Inspected(status)) => match status.state {
                Some(state) => StopStep::Continue(
                    StopRun::Probing { components: state.components },
                    StopAction::Probe,
                ),
                None => StopStep::Done,
            },
            (StopRun::Probing { components }, StopEvent::Probed { alive, waited_ms: _ }) => {
                if alive.len() != components.len() {
                    return StopStep::Failed("unexpected number of processes".to_owned());
                }
                let pids = processes_to_signal(&components, &alive);
                StopStep::Continue(
                    StopRun::Terminating { components },
                    StopAction::Terminate(pids),
                )
            },
            (StopRun::Terminating { components }, StopEvent::Signalled) => StopStep::Continue(
                StopRun::Waiting { components },
                StopAction::Probe,
            ),
            (StopRun::Waiting { components }, StopEvent::Probed { alive, waited_ms }) => {
                if alive.len() != components.len() {
                    return StopStep::Failed("unexpected number of processes".to_owned());
                }
                match stop_wait(self.config(), waited_ms, &alive) {
                    StopWait::Again(ms) => StopStep::Continue(
                        StopRun::Waiting { components },
                        StopAction::ProbeAfter(ms),
                    ),
                    StopWait::Kill => {
                        let pids = processes_to_signal(&components, &alive);
                        StopStep::Continue(StopRun::Killing, StopAction::Kill(pids))
                    },
                }
            },
            (StopRun::Killing, StopEvent::Signalled) => StopStep::Continue(
                StopRun::Removing,
                StopAction::RemoveEntry,
            ),
            (StopRun::Removing, StopEvent::Removed) => StopStep::Continue(
                StopRun::Cleaning,
                StopAction::Clean,
            ),
            (StopRun::Cleaning, StopEvent::Cleaned) => StopStep::Done,
            _ => StopStep::Failed("unexpected event while stopping a session".to_owned()),
        }
    }
}

/// A session that was stopped has no entry any more: the last step comes either where there was
/// no entry, or after the entry was removed.
pub proof fn stopped_sessions_have_no_entry(run: StopRun, config: SesmanConfig, event: StopEvent)
    ensures
        stopped(run, config, event, StopStep::Done) ==> (run is Cleaning || (run is Inspecting && (
        event matches StopEvent::Inspected(status) && status.state is None))),
        forall|action: StopAction|
            stopped(run, config, event, StopStep::Continue(StopRun::Cleaning, action)) ==> run
                is Removing && event is Removed && action is Clean,
{
}

/// The process belongs to one of the first `n` components, and that one is alive.
pub open spec fn is_living(
    components: Seq<ComponentState>,
    alive: Seq<bool>,
    n: int,
    pid: i32,
) -> bool {
    exists|i: int| 0 <= i < n && alive[i] && (#[trigger] components[i]).pid == pid
}

/// Exactly the living processes are signalled.
pub proof fn signals_reach_the_living(
    components: Seq<ComponentState>,
    alive: Seq<bool>,
    n: int,
    pid: i32,
)
    requires
        0 <= n <= components.len(),
        components.len() == alive.len(),
    ensures
        living(components, alive, n).contains(pid) <==> is_living(components, alive, n, pid),
    decreases n,
{
    if n > 0 {
        signals_reach_the_living(components, alive, n - 1, pid);
        let rest = living(components, alive, n - 1);
        let all = living(components, alive, n);
        if alive[n - 1] {
            assert(all =~= seq![components[n - 1].pid] + rest);
            if all.contains(pid) {
                let k = choose|k: int| 0 <= k < all.len() && all[k] == pid;
                if k > 0 {
                    assert(rest[k - 1] == pid);
                    assert(rest.contains(pid));
                }
            }
            if is_living(components, alive, n, pid) {
                let i = choose|i: int|
                    0 <= i < n && alive[i] && (#[trigger] components[i]).pid == pid;
                if i == n - 1 {
                    assert(all[0] == pid);
                } else {
                    assert(is_living(components, alive, n - 1, pid));
                    let k = choose|k: int| 0 <= k < rest.len() && rest[k] == pid;
                    assert(all[k + 1] == pid);
                }
            }
        }
    }
}

/// Processes are asked to end before any is killed, and each time exactly those are signalled
/// that were seen alive, the last one first.
pub proof fn processes_are_asked_before_they_are_killed(
    run: StopRun,
    config: SesmanConfig,
    event: StopEvent,
    next: StopRun,
    pids: Vec<i32>,
)
    ensures
        stopped(run, config, event, StopStep::Continue(next, StopAction::Terminate(pids)))
            ==> next is Terminating && (run matches StopRun::Probing { components } && (
        event matches StopEvent::Probed { alive, .. } && pids@ == living(
            components@,
            alive@,
            components@.len() as int,
        ) && alive@.len() == components@.len())),
        stopped(run, config, event, StopStep::Continue(next, StopAction::Kill(pids))) ==> next
            is Killing && (run matches StopRun::Waiting { components } && (
        event matches StopEvent::Probed { alive, .. } && pids@ == living(
            components@,
            alive@,
            components@.len() as int,
        ) && alive@.len() == components@.len())),
{
}

/// Nothing is killed while something is alive and there is time left: it is looked at again
/// after a tenth of a second. Once the time is up, or nothing is alive, what is left is killed.
pub proof fn processes_get_their_time(
    components: Vec<ComponentState>,
    config: SesmanConfig,
    alive: Vec<bool>,
    waited_ms: u64,
    r: StopStep,
)
    requires
        alive@.len() == components@.len(),
        stopped(
            StopRun::Waiting { components },
            config,
            StopEvent::Probed { alive, waited_ms },
            r,
        ),
    ensures
        waited_ms < config.stop_timeout_ms && (exists|i: int|
            0 <= i < alive@.len() && #[trigger] alive@[i]) ==> r == StopStep::Continue(
            StopRun::Waiting { components },
            StopAction::ProbeAfter(100),
        ),
        waited_ms >= config.stop_timeout_ms ==> (r matches StopStep::Continue(
            StopRun::Killing,
            StopAction::Kill(_),
        )),
        (forall|i: int| 0 <= i < alive@.len() ==> !#[trigger] alive@[i]) ==> (
        r matches StopStep::Continue(StopRun::Killing, StopAction::Kill(pids)) && pids@.len()
            == 0),
{
    if forall|i: int| 0 <= i < alive@.len() ==> !#[trigger] alive@[i] {
        lemma_nothing_lives(components@, alive@, components@.len() as int);
    }
}

proof fn lemma_nothing_lives(components: Seq<ComponentState>, alive: Seq<bool>, n: int)
    requires
        0 <= n <= alive.len(),
        forall|i: int| 0 <= i < alive.len() ==> !#[trigger] alive[i],
    ensures
        living(components, alive, n).len() == 0,
    decreases n,
{
    if n > 0 {
        lemma_nothing_lives(components, alive, n - 1);
    }
}

/// A stop goes from looking to asking to waiting to killing, then removes the entry, then the
/// leftovers, and is done after that. Where no session is registered there is nothing to do.
pub proof fn stopping_keeps_its_order(
    config: SesmanConfig,
    status: SessionStatus,
    components: Vec<ComponentState>,
    seen: StopStep,
    asked: StopStep,
    killed: StopStep,
    removed: StopStep,
    cleaned: StopStep,
)
    requires
        stopped(StopRun::Inspecting, config, StopEvent::Inspected(status), seen),
        stopped(StopRun::Terminating { components }, config, StopEvent::Signalled, asked),
        stopped(StopRun::Killing, config, StopEvent::Signalled, killed),
        stopped(StopRun::Removing, config, StopEvent::Removed, removed),
        stopped(StopRun::Cleaning, config, StopEvent::Cleaned, cleaned),
    ensures
        status.state is None ==> seen == StopStep::Done,
        status.state matches Some(state) ==> seen == StopStep::Continue(
            StopRun::Probing { components: state.components },
            StopAction::Probe,
        ),
        asked == StopStep::Continue(StopRun::Waiting { components }, StopAction::Probe),
        killed == StopStep::Continue(StopRun::Removing, StopAction::RemoveEntry),
        removed == StopStep::Continue(StopRun::Cleaning, StopAction::Clean),
        cleaned == StopStep::Done,
{
}

} // verus!
