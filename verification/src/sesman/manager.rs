//! The session manager.

use crate::sesman::config::SesmanConfig;
use crate::sesman::lock::{asks_for, cleanup_simple_glob, Cleanup};
use crate::sesman::session::{is_status, status, SessionState, SessionStatus};
use crate::text::lemma_first_at;
use vstd::prelude::*;

verus! {

/// Lamco session manager.
#[derive(Debug)]
pub struct SessionManager {
    config: SesmanConfig,
}

impl SessionManager {
    /// What the manager goes by.
    pub closed spec fn settings(self) -> SesmanConfig {
        self.config
    }

    /// A manager for a configuration.
    pub fn new(config: SesmanConfig) -> (r: Self)
        ensures
            r.settings() == config,
    {
        SessionManager { config }
    }

    /// What the manager goes by.
    pub fn config(&self) -> (r: &SesmanConfig)
        ensures
            *r == self.settings(),
    {
        &self.config
    }

    /// The status of the registered session; `alive` tells of each of its components
    /// whether the process is.
    pub fn status(&self, state: Option<SessionState>, alive: &Vec<bool>) -> (r: SessionStatus)
        requires
            state matches Some(s) ==> s.components@.len() == alive@.len(),
        ensures
            is_status(r, self.settings().state_file(), state, alive@),
    {
        status(&self.config, state, alive)
    }

    /// What to remove before a session is started and after it was stopped: the configured
    /// paths, then what the configured patterns ask for.
    pub fn cleanup_runtime_paths(&self) -> (r: Vec<Cleanup>)
        ensures
            cleans(self.settings(), r@),
    {
        let config = self.config();
        let mut r: Vec<Cleanup> = Vec::new();
        let mut i: usize = 0;
        while i < config.cleanup_paths.len()
            invariant
                i <= config.cleanup_paths@.len(),
                r@.len() == i,
                forall|k: int|
                    0 <= k < i ==> (#[trigger] r@[k] matches Cleanup::File(p) && p@
                        == config.cleanup_paths@[k]@),
            decreases config.cleanup_paths@.len() - i,
        {
            r.push(Cleanup::File(config.cleanup_paths[i].clone()));
            i += 1;
        }
        let n: usize = i;
        let mut j: usize = 0;
        while j < config.cleanup_globs.len()
            invariant
                j <= config.cleanup_globs@.len(),
                n == config.cleanup_paths@.len(),
                r@.len() == n + j,
                forall|k: int|
                    0 <= k < n ==> (#[trigger] r@[k] matches Cleanup::File(p) && p@
                        == config.cleanup_paths@[k]@),
                forall|k: int|
                    0 <= k < j ==> asks_for((#[trigger] config.cleanup_globs@[k])@, r@[n + k]),
            decreases config.cleanup_globs@.len() - j,
        {
            r.push(cleanup_simple_glob(config.cleanup_globs[j].as_str()));
            j += 1;
        }
        r
    }
}

/// The removals are those that a configuration asks for: its paths, then its patterns.
pub open spec fn cleans(config: SesmanConfig, r: Seq<Cleanup>) -> bool {
    &&& r.len() == config.cleanup_paths@.len() + config.cleanup_globs@.len()
    &&& forall|i: int|
        0 <= i < config.cleanup_paths@.len() ==> (#[trigger] r[i] matches Cleanup::File(p) && p@
            == config.cleanup_paths@[i]@)
    &&& forall|i: int|
        0 <= i < config.cleanup_globs@.len() ==> asks_for(
            (#[trigger] config.cleanup_globs@[i])@,
            r[config.cleanup_paths@.len() + i],
        )
}

/// Every configured path and every configured pattern is removed, and nothing else: a removal
/// of one file is that of a configured path or of a pattern without a star, and each has its
/// own.
pub proof fn every_leftover_is_removed(config: SesmanConfig, r: Seq<Cleanup>, i: int, j: int)
    requires
        cleans(config, r),
    ensures
        r.len() == config.cleanup_paths@.len() + config.cleanup_globs@.len(),
        0 <= i < config.cleanup_paths@.len() ==> (r[i] matches Cleanup::File(p) && p@
            == config.cleanup_paths@[i]@),
        0 <= j < config.cleanup_globs@.len() && !config.cleanup_globs@[j]@.contains('*') ==> (
        r[config.cleanup_paths@.len() + j] matches Cleanup::File(p) && p@
            == config.cleanup_globs@[j]@),
        0 <= j < config.cleanup_globs@.len() && config.cleanup_globs@[j]@.contains('*') ==> !(
        r[config.cleanup_paths@.len() + j] is File),
{
    if 0 <= j < config.cleanup_globs@.len() {
        let pattern = config.cleanup_globs@[j]@;
        assert(asks_for(pattern, r[config.cleanup_paths@.len() + j]));
        lemma_first_at(pattern, '*');
    }
}

} // verus!
