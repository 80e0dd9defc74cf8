//! The requests that a cacheable unit answers, and the request that starts an
//! invocation.

use vstd::prelude::*;

verus! {

/// Asks a unit for the key of the artifact it computed.
#[derive(Clone, Copy, Debug, PartialEq, Eq, Structural)]
pub struct GetCacheKey;

/// Asks a unit to compute and write its output, whole, to `path`.
pub struct Compute {
    pub path: String,
}

impl Compute {
    pub fn new(path: String) -> (r: Compute)
        ensures
            r.path == path,
    {
        Compute { path }
    }
}

/// Asks a unit to adopt `value` as its in-memory state.
pub struct LoadCache {
    pub value: Vec<u8>,
}

impl LoadCache {
    pub fn new(value: Vec<u8>) -> (r: LoadCache)
        ensures
            r.value == value,
    {
        LoadCache { value }
    }
}

/// Asks the supervisor to compute `0`, persist its output and load it.
pub struct ComputeMemoized<T>(pub T);

} // verus!
