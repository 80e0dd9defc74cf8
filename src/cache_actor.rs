//! The supervisor: holds the cache directory and begins invocations.

use vstd::prelude::*;
use crate::cache_path::{cache_file_path, cache_file_path_of};
use crate::orchestrator::{initial, opt_str_view, Action, ActionModel, Orchestration};

verus! {

/// Holds the cache-directory configuration. With no directory, outputs are
/// still computed and loaded, but not persisted.
///
/// Invocations are not deduplicated: two invocations whose units report the
/// same key both persist to the same path, and the later move replaces the
/// earlier file.
pub struct CacheActor {
    cache_dir: Option<String>,
}

impl View for CacheActor {
    type V = Option<Seq<char>>;

    closed spec fn view(&self) -> Option<Seq<char>> {
        opt_str_view(self.cache_dir)
    }
}

impl CacheActor {
    pub fn new(cache_dir: Option<String>) -> (r: CacheActor)
        ensures
            r@ == opt_str_view(cache_dir),
    {
        CacheActor { cache_dir }
    }

    /// The configured cache directory.
    pub fn cache_dir(&self) -> (r: Option<&String>)
        ensures
            match r {
                Some(d) => self@ == Some(d@),
                None => self@ is None,
            },
    {
        match &self.cache_dir {
            Some(d) => Some(d),
            None => None,
        }
    }

    /// Where the artifact with `key` is persisted; `None` without a cache
    /// directory.
    pub fn cache_path(&self, key: &str) -> (r: Option<String>)
        ensures
            match self@ {
                Some(dir) => r is Some && r->0@ == cache_file_path_of(dir, key@),
                None => r is None,
            },
    {
        match &self.cache_dir {
            Some(d) => Some(cache_file_path(d.as_str(), key)),
            None => None,
        }
    }

    /// Begins one invocation of the protocol against this configuration.
    pub fn begin<E>(&self) -> (r: (Orchestration, Action<E>))
        ensures
            r.0@ == initial(self@),
            r.1@ == ActionModel::<E>::AllocateScratch,
    {
        let dir = match &self.cache_dir {
            Some(d) => Some(d.clone()),
            None => None,
        };
        Orchestration::start(dir)
    }
}

} // verus!
