//! The compute-and-persist protocol for one invocation, as a state machine.
//!
//! The driver calls [`Orchestration::start`], performs the returned action,
//! reports its outcome as an [`Event`] to [`Orchestration::step`], and repeats
//! until it receives [`Action::Finish`] or [`Action::Abort`].

use vstd::prelude::*;
use crate::cache_path::{cache_file_path, cache_file_path_of};

verus! {

/// Where one invocation stands.
#[derive(Clone, Copy, Debug, PartialEq, Eq, Structural)]
pub enum Phase {
    /// A scratch file has been asked for.
    AllocatingScratch,
    /// The unit has been asked to compute into the scratch file.
    Computing,
    /// The scratch file is being read back.
    Reading,
    /// The unit has been asked for its cache key.
    KeyRequested,
    /// The scratch file is being persisted, or discarded when no cache
    /// directory is configured.
    Storing,
    /// The unit has been asked to load the bytes it wrote.
    Loading,
    /// The unit is loaded; its handle has been handed back.
    Ready,
    /// The invocation stopped at a failure.
    Failed,
}

/// The outcome of the last action, as reported by the driver.
#[derive(Debug)]
pub enum Event<E> {
    /// A scratch file was created at `path`.
    ScratchAllocated { path: String },
    /// The unit finished writing its output into the scratch file.
    ComputeDone,
    /// The scratch file was read back whole.
    ScratchRead { bytes: Vec<u8> },
    /// The unit reported its cache key.
    KeyReceived { key: String },
    /// The scratch file was persisted (or discarded) as asked.
    Stored,
    /// The unit loaded the bytes.
    Loaded,
    /// The action failed: message delivery, file handling or the unit itself.
    StepFailed { error: E },
}

/// Why an invocation was abandoned.
#[derive(Debug)]
pub enum OrchestrationError<E> {
    /// The driver reported an event that does not answer the last action.
    OutOfOrder,
    /// The last action failed with this error.
    Unit(E),
}

/// What the driver is to do next.
#[derive(Debug)]
pub enum Action<E> {
    /// Create a uniquely named scratch file.
    AllocateScratch,
    /// Ask the unit to compute into the scratch file at `path`.
    SendCompute { path: String },
    /// Read the whole scratch file at `path`.
    ReadScratch { path: String },
    /// Ask the unit for its cache key.
    SendGetCacheKey,
    /// Move the scratch file at `scratch` to `target`, replacing what is there.
    Persist { scratch: String, target: String },
    /// Remove the scratch file at `scratch`.
    DiscardScratch { scratch: String },
    /// Ask the unit to load `bytes`.
    SendLoadCache { bytes: Vec<u8> },
    /// Hand the unit's handle back to the caller.
    Finish,
    /// Remove the scratch file named by `discard`, if any, and return `error`.
    Abort { discard: Option<String>, error: OrchestrationError<E> },
    /// Nothing is left to do: the invocation has ended.
    Halted,
}

/// An event, with strings and bytes seen as sequences.
pub enum EventModel<E> {
    ScratchAllocated { path: Seq<char> },
    ComputeDone,
    ScratchRead { bytes: Seq<u8> },
    KeyReceived { key: Seq<char> },
    Stored,
    Loaded,
    StepFailed { error: E },
}

/// An action, with strings and bytes seen as sequences.
pub enum ActionModel<E> {
    AllocateScratch,
    SendCompute { path: Seq<char> },
    ReadScratch { path: Seq<char> },
    SendGetCacheKey,
    Persist { scratch: Seq<char>, target: Seq<char> },
    DiscardScratch { scratch: Seq<char> },
    SendLoadCache { bytes: Seq<u8> },
    Finish,
    Abort { discard: Option<Seq<char>>, error: OrchestrationError<E> },
    Halted,
}

/// The state of one invocation.
pub struct OrchestrationModel {
    pub phase: Phase,
    /// The cache directory, if persistence is configured.
    pub cache_dir: Option<Seq<char>>,
    /// The scratch file that this invocation still owns.
    pub scratch: Option<Seq<char>>,
    /// The bytes read back from the scratch file.
    pub blob: Seq<u8>,
    /// The key that the unit reported.
    pub key: Seq<char>,
}

pub open spec fn opt_str_view(o: Option<String>) -> Option<Seq<char>> {
    match o {
        Some(s) => Some(s@),
        None => None,
    }
}

impl<E> View for Event<E> {
    type V = EventModel<E>;

    open spec fn view(&self) -> EventModel<E> {
        match self {
            Event::ScratchAllocated { path } => EventModel::ScratchAllocated { path: path@ },
            Event::ComputeDone => EventModel::ComputeDone,
            Event::ScratchRead { bytes } => EventModel::ScratchRead { bytes: bytes@ },
            Event::KeyReceived { key } => EventModel::KeyReceived { key: key@ },
            Event::Stored => EventModel::Stored,
            Event::Loaded => EventModel::Loaded,
            Event::StepFailed { error } => EventModel::StepFailed { error: *error },
        }
    }
}

impl<E> View for Action<E> {
    type V = ActionModel<E>;

    open spec fn view(&self) -> ActionModel<E> {
        match self {
            Action::AllocateScratch => ActionModel::AllocateScratch,
            Action::SendCompute { path } => ActionModel::SendCompute { path: path@ },
            Action::ReadScratch { path } => ActionModel::ReadScratch { path: path@ },
            Action::SendGetCacheKey => ActionModel::SendGetCacheKey,
            Action::Persist { scratch, target } => ActionModel::Persist {
                scratch: scratch@,
                target: target@,
            },
            Action::DiscardScratch { scratch } => ActionModel::DiscardScratch {
                scratch: scratch@,
            },
            Action::SendLoadCache { bytes } => ActionModel::SendLoadCache { bytes: bytes@ },
            Action::Finish => ActionModel::Finish,
            Action::Abort { discard, error } => ActionModel::Abort {
                discard: opt_str_view(*discard),
                error: *error,
            },
            Action::Halted => ActionModel::Halted,
        }
    }
}

/// The state in which an invocation begins: a scratch file is asked for.
pub open spec fn initial(cache_dir: Option<Seq<char>>) -> OrchestrationModel {
    OrchestrationModel {
        phase: Phase::AllocatingScratch,
        cache_dir,
        scratch: None,
        blob: Seq::empty(),
        key: Seq::empty(),
    }
}

/// The invocation has ended, either way.
pub open spec fn is_terminal(p: Phase) -> bool {
    p == Phase::Ready || p == Phase::Failed
}

/// Stop with `error`, releasing the scratch file that is still owned.
pub open spec fn abort<E>(m: OrchestrationModel, error: OrchestrationError<E>) -> (
    OrchestrationModel,
    ActionModel<E>,
) {
    (
        OrchestrationModel { phase: Phase::Failed, scratch: None, ..m },
        ActionModel::Abort { discard: m.scratch, error },
    )
}

/// The protocol: the next state and action, given the current state and the
/// outcome of the last action.
///
/// Each step answers exactly one expected event; any failure aborts, and an
/// event that does not answer the last action aborts as out of order. Once
/// ended, an invocation stays as it is and asks for nothing more. A failed
/// persist is fatal: the unit is then not loaded.
pub open spec fn transition<E>(m: OrchestrationModel, e: EventModel<E>) -> (
    OrchestrationModel,
    ActionModel<E>,
) {
    if is_terminal(m.phase) {
        (m, ActionModel::Halted)
    } else {
        match e {
            EventModel::StepFailed { error } => abort(m, OrchestrationError::Unit(error)),
            EventModel::ScratchAllocated { path } => if m.phase == Phase::AllocatingScratch {
                (
                    OrchestrationModel { phase: Phase::Computing, scratch: Some(path), ..m },
                    ActionModel::SendCompute { path },
                )
            } else {
                abort(m, OrchestrationError::OutOfOrder)
            },
            EventModel::ComputeDone => if m.phase == Phase::Computing {
                (
                    OrchestrationModel { phase: Phase::Reading, ..m },
                    ActionModel::ReadScratch { path: m.scratch->0 },
                )
            } else {
                abort(m, OrchestrationError::OutOfOrder)
            },
            EventModel::ScratchRead { bytes } => if m.phase == Phase::Reading {
                (
                    OrchestrationModel { phase: Phase::KeyRequested, blob: bytes, ..m },
                    ActionModel::SendGetCacheKey,
                )
            } else {
                abort(m, OrchestrationError::OutOfOrder)
            },
            EventModel::KeyReceived { key } => if m.phase == Phase::KeyRequested {
                (
                    OrchestrationModel { phase: Phase::Storing, key, ..m },
                    match m.cache_dir {
                        Some(dir) => ActionModel::Persist {
                            scratch: m.scratch->0,
                            target: cache_file_path_of(dir, key),
                        },
                        None => ActionModel::DiscardScratch { scratch: m.scratch->0 },
                    },
                )
            } else {
                abort(m, OrchestrationError::OutOfOrder)
            },
            EventModel::Stored => if m.phase == Phase::Storing {
                (
                    OrchestrationModel { phase: Phase::Loading, scratch: None, ..m },
                    ActionModel::SendLoadCache { bytes: m.blob },
                )
            } else {
                abort(m, OrchestrationError::OutOfOrder)
            },
            EventModel::Loaded => if m.phase == Phase::Loading {
                (OrchestrationModel { phase: Phase::Ready, ..m }, ActionModel::Finish)
            } else {
                abort(m, OrchestrationError::OutOfOrder)
            },
        }
    }
}

/// Which phases own a scratch file.
pub open spec fn owns_scratch(p: Phase) -> bool {
    p == Phase::Computing || p == Phase::Reading || p == Phase::KeyRequested || p
        == Phase::Storing
}

/// The state of one invocation of the protocol.
pub struct Orchestration {
    phase: Phase,
    cache_dir: Option<String>,
    scratch: Option<String>,
    blob: Vec<u8>,
    key: String,
}

impl View for Orchestration {
    type V = OrchestrationModel;

    closed spec fn view(&self) -> OrchestrationModel {
        OrchestrationModel {
            phase: self.phase,
            cache_dir: opt_str_view(self.cache_dir),
            scratch: opt_str_view(self.scratch),
            blob: self.blob@,
            key: self.key@,
        }
    }
}

/// A scratch file is owned exactly in the phases between its creation and its
/// persisting or discarding.
pub open spec fn well_formed(m: OrchestrationModel) -> bool {
    m.scratch is Some <==> owns_scratch(m.phase)
}

fn clone_opt_string(o: &Option<String>) -> (r: Option<String>)
    ensures
        opt_str_view(r) == opt_str_view(*o),
{
    match o {
        Some(s) => Some(s.clone()),
        None => None,
    }
}

impl Orchestration {
    /// Begins an invocation that persists into `cache_dir`, when given.
    pub fn start<E>(cache_dir: Option<String>) -> (r: (Orchestration, Action<E>))
        ensures
            r.0@ == initial(opt_str_view(cache_dir)),
            r.1@ == ActionModel::<E>::AllocateScratch,
            well_formed(r.0@),
    {
        (
            Orchestration {
                phase: Phase::AllocatingScratch,
                cache_dir,
                scratch: None,
                blob: Vec::new(),
                key: String::new(),
            },
            Action::AllocateScratch,
        )
    }

    /// Where this invocation stands.
    pub fn phase(&self) -> (r: Phase)
        ensures
            r == self@.phase,
    {
        self.phase
    }

    /// The key that the unit reported; empty before it did.
    pub fn key(&self) -> (r: &String)
        ensures
            r@ == self@.key,
    {
        &self.key
    }

    fn abort_with<E>(self, error: OrchestrationError<E>) -> (r: (Orchestration, Action<E>))
        ensures
            (r.0@, r.1@) == abort(self@, error),
    {
        let Orchestration { phase: _, cache_dir, scratch, blob, key } = self;
        (
            Orchestration { phase: Phase::Failed, cache_dir, scratch: None, blob, key },
            Action::Abort { discard: scratch, error },
        )
    }

    /// Takes the outcome of the last action and returns the next state and
    /// the next action.
    pub fn step<E>(self, event: Event<E>) -> (r: (Orchestration, Action<E>))
        requires
            well_formed(self@),
        ensures
            (r.0@, r.1@) == transition(self@, event@),
            well_formed(r.0@),
    {
        if self.phase == Phase::Ready || self.phase == Phase::Failed {
            return (self, Action::Halted);
        }
        match event {
            Event::StepFailed { error } => self.abort_with(OrchestrationError::Unit(error)),
            Event::ScratchAllocated { path } => {
                if self.phase == Phase::AllocatingScratch {
                    let p = path.clone();
                    let Orchestration { phase: _, cache_dir, scratch: _, blob, key } = self;
                    (
                        Orchestration { phase: Phase::Computing, cache_dir, scratch: Some(p), blob, key },
                        Action::SendCompute { path },
                    )
                } else {
                    self.abort_with(OrchestrationError::OutOfOrder)
                }
            },
            Event::ComputeDone => {
                if self.phase == Phase::Computing {
                    let path = match &self.scratch {
                        Some(s) => s.clone(),
                        None => String::new(),
                    };
                    let Orchestration { phase: _, cache_dir, scratch, blob, key } = self;
                    (
                        Orchestration { phase: Phase::Reading, cache_dir, scratch, blob, key },
                        Action::ReadScratch { path },
                    )
                } else {
                    self.abort_with(OrchestrationError::OutOfOrder)
                }
            },
            Event::ScratchRead { bytes } => {
                if self.phase == Phase::Reading {
                    let Orchestration { phase: _, cache_dir, scratch, blob: _, key } = self;
                    (
                        Orchestration { phase: Phase::KeyRequested, cache_dir, scratch, blob: bytes, key },
                        Action::SendGetCacheKey,
                    )
                } else {
                    self.abort_with(OrchestrationError::OutOfOrder)
                }
            },
            Event::KeyReceived { key } => {
                if self.phase == Phase::KeyRequested {
                    let scratch_path = match &self.scratch {
                        Some(s) => s.clone(),
                        None => String::new(),
                    };
                    let action = match &self.cache_dir {
                        Some(dir) => Action::Persist {
                            scratch: scratch_path,
                            target: cache_file_path(dir.as_str(), key.as_str()),
                        },
                        None => Action::DiscardScratch { scratch: scratch_path },
                    };
                    let Orchestration { phase: _, cache_dir, scratch, blob, key: _ } = self;
                    (Orchestration { phase: Phase::Storing, cache_dir, scratch, blob, key }, action)
                } else {
                    self.abort_with(OrchestrationError::OutOfOrder)
                }
            },
            Event::Stored => {
                if self.phase == Phase::Storing {
                    let bytes = self.blob.clone();
                    let Orchestration { phase: _, cache_dir, scratch: _, blob, key } = self;
                    (
                        Orchestration { phase: Phase::Loading, cache_dir, scratch: None, blob, key },
                        Action::SendLoadCache { bytes },
                    )
                } else {
                    self.abort_with(OrchestrationError::OutOfOrder)
                }
            },
            Event::Loaded => {
                if self.phase == Phase::Loading {
                    let Orchestration { phase: _, cache_dir, scratch, blob, key } = self;
                    (Orchestration { phase: Phase::Ready, cache_dir, scratch, blob, key }, Action::Finish)
                } else {
                    self.abort_with(OrchestrationError::OutOfOrder)
                }
            },
        }
    }
}

} // verus!
