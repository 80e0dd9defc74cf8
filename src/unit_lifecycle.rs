//! The lifecycle of a cacheable unit, which a unit keeps to answer its three
//! requests in order: a key only after a successful compute, and a load only
//! once, after it.

use vstd::prelude::*;

verus! {

#[derive(Clone, Copy, Debug, PartialEq, Eq, Structural)]
pub enum UnitPhase {
    Created,
    Computing,
    /// The output is written; the key is known.
    Computed,
    /// The output has been loaded.
    Ready,
    Failed,
}

/// A request that came out of order.
#[derive(Clone, Copy, Debug, PartialEq, Eq, Structural)]
pub enum LifecycleError {
    /// A compute was asked of a unit that has already begun one.
    AlreadyStarted,
    /// The key or a load was asked before a compute succeeded.
    NotComputed,
    /// A second load was asked.
    AlreadyLoaded,
}

/// The key is known once a compute has succeeded.
pub open spec fn key_known(p: UnitPhase) -> bool {
    p == UnitPhase::Computed || p == UnitPhase::Ready
}

pub struct UnitLifecycleModel {
    pub phase: UnitPhase,
    pub key: Seq<char>,
}

pub struct UnitLifecycle {
    phase: UnitPhase,
    key: String,
}

impl View for UnitLifecycle {
    type V = UnitLifecycleModel;

    closed spec fn view(&self) -> UnitLifecycleModel {
        UnitLifecycleModel { phase: self.phase, key: self.key@ }
    }
}

impl UnitLifecycle {
    pub fn new() -> (r: UnitLifecycle)
        ensures
            r@.phase == UnitPhase::Created,
            r@.key == Seq::<char>::empty(),
    {
        UnitLifecycle { phase: UnitPhase::Created, key: String::new() }
    }

    pub fn phase(&self) -> (r: UnitPhase)
        ensures
            r == self@.phase,
    {
        self.phase
    }

    /// Marks the start of a compute; only a fresh unit may begin one.
    pub fn begin_compute(&mut self) -> (r: Result<(), LifecycleError>)
        ensures
            old(self)@.phase == UnitPhase::Created ==> (r is Ok && final(self)@.phase
                == UnitPhase::Computing && final(self)@.key == old(self)@.key),
            old(self)@.phase != UnitPhase::Created ==> (r == Err::<(), _>(
                LifecycleError::AlreadyStarted,
            ) && final(self)@ == old(self)@),
    {
        if self.phase == UnitPhase::Created {
            self.phase = UnitPhase::Computing;
            Ok(())
        } else {
            Err(LifecycleError::AlreadyStarted)
        }
    }

    /// Records the outcome of the compute that is under way: the key of the
    /// artifact on success, `None` on failure.
    pub fn finish_compute(&mut self, key: Option<String>) -> (r: Result<(), LifecycleError>)
        ensures
            old(self)@.phase == UnitPhase::Computing ==> (r is Ok && match key {
                Some(k) => final(self)@.phase == UnitPhase::Computed && final(self)@.key == k@,
                None => final(self)@.phase == UnitPhase::Failed && final(self)@.key == old(
                    self,
                )@.key,
            }),
            old(self)@.phase != UnitPhase::Computing ==> (r == Err::<(), _>(
                LifecycleError::NotComputed,
            ) && final(self)@ == old(self)@),
    {
        if self.phase != UnitPhase::Computing {
            return Err(LifecycleError::NotComputed);
        }
        match key {
            Some(k) => {
                self.phase = UnitPhase::Computed;
                self.key = k;
            },
            None => {
                self.phase = UnitPhase::Failed;
            },
        }
        Ok(())
    }

    /// The key of the computed artifact, once the compute has succeeded.
    pub fn cache_key(&self) -> (r: Result<String, LifecycleError>)
        ensures
            key_known(self@.phase) ==> (r is Ok && r->Ok_0@ == self@.key),
            !key_known(self@.phase) ==> (r == Err::<String, _>(LifecycleError::NotComputed)),
    {
        if self.phase == UnitPhase::Computed || self.phase == UnitPhase::Ready {
            Ok(self.key.clone())
        } else {
            Err(LifecycleError::NotComputed)
        }
    }

    /// Marks the output as loaded; allowed once, after a successful compute.
    pub fn load(&mut self) -> (r: Result<(), LifecycleError>)
        ensures
            old(self)@.phase == UnitPhase::Computed ==> (r is Ok && final(self)@.phase
                == UnitPhase::Ready && final(self)@.key == old(self)@.key),
            old(self)@.phase == UnitPhase::Ready ==> (r == Err::<(), _>(
                LifecycleError::AlreadyLoaded,
            ) && final(self)@ == old(self)@),
            !key_known(old(self)@.phase) ==> (r == Err::<(), _>(LifecycleError::NotComputed)
                && final(self)@ == old(self)@),
    {
        if self.phase == UnitPhase::Computed {
            self.phase = UnitPhase::Ready;
            Ok(())
        } else if self.phase == UnitPhase::Ready {
            Err(LifecycleError::AlreadyLoaded)
        } else {
            Err(LifecycleError::NotComputed)
        }
    }
}

} // verus!
