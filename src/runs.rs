//! Facts about whole invocations: what a sequence of reported events makes
//! the protocol do.

use vstd::prelude::*;
use crate::cache_path::{cache_file_name, cache_file_path_of, lemma_path_ends_with_key};
use crate::orchestrator::{
    initial, is_terminal, owns_scratch, transition, well_formed, ActionModel, EventModel,
    OrchestrationError, OrchestrationModel, Phase,
};

verus! {

/// The state reached from `m` after `events`, and the action answering each
/// event in turn.
pub open spec fn run<E>(m: OrchestrationModel, events: Seq<EventModel<E>>) -> (
    OrchestrationModel,
    Seq<ActionModel<E>>,
)
    decreases events.len(),
{
    if events.len() == 0 {
        (m, Seq::empty())
    } else {
        let prev = run(m, events.drop_last());
        let next = transition(prev.0, events.last());
        (next.0, prev.1.push(next.1))
    }
}

/// The state after the first `n` events.
pub open spec fn state_at<E>(m: OrchestrationModel, events: Seq<EventModel<E>>, n: int) -> OrchestrationModel {
    run(m, events.take(n)).0
}

proof fn lemma_run_len<E>(m: OrchestrationModel, events: Seq<EventModel<E>>)
    ensures
        run(m, events).1.len() == events.len(),
    decreases events.len(),
{
    if events.len() > 0 {
        lemma_run_len(m, events.drop_last());
    }
}

proof fn lemma_run_prefix<E>(m: OrchestrationModel, events: Seq<EventModel<E>>, n: int)
    requires
        0 <= n <= events.len(),
    ensures
        run(m, events.take(n)).1 == run(m, events).1.take(n),
    decreases events.len(),
{
    lemma_run_len(m, events);
    if n == events.len() {
        assert(events.take(n) =~= events);
        assert(run(m, events).1.take(n) =~= run(m, events).1);
    } else {
        let d = events.drop_last();
        lemma_run_prefix(m, d, n);
        lemma_run_len(m, d);
        assert(d.take(n) =~= events.take(n));
        assert(run(m, events).1.take(n) =~= run(m, d).1.take(n));
    }
}

/// The `n`-th action answers the `n`-th event from the state before it.
proof fn lemma_step_at<E>(m: OrchestrationModel, events: Seq<EventModel<E>>, n: int)
    requires
        0 <= n < events.len(),
    ensures
        run(m, events).1.len() == events.len(),
        (state_at(m, events, n + 1), run(m, events).1[n]) == transition(
            state_at(m, events, n),
            events[n],
        ),
{
    lemma_run_len(m, events);
    lemma_run_prefix(m, events, n + 1);
    let t = events.take(n + 1);
    assert(t.drop_last() =~= events.take(n));
    assert(t.last() == events[n]);
    assert(run(m, t).1.last() == run(m, events).1[n]);
}

/// Every step keeps a state well formed.
pub proof fn lemma_transition_well_formed<E>(m: OrchestrationModel, e: EventModel<E>)
    requires
        well_formed(m),
    ensures
        well_formed(transition(m, e).0),
        transition(m, e).0.cache_dir == m.cache_dir,
{
}

proof fn lemma_states_well_formed<E>(dir: Option<Seq<char>>, events: Seq<EventModel<E>>, n: int)
    requires
        0 <= n <= events.len(),
    ensures
        well_formed(state_at(initial(dir), events, n)),
        state_at(initial(dir), events, n).cache_dir == dir,
    decreases n,
{
    if n == 0 {
        assert(events.take(0) =~= Seq::<EventModel<E>>::empty());
    } else {
        lemma_states_well_formed(dir, events, n - 1);
        lemma_step_at(initial(dir), events, n - 1);
        lemma_transition_well_formed(state_at(initial(dir), events, n - 1), events[n - 1]);
    }
}

/// Once an invocation has ended, it stays as it is and asks for nothing more.
pub proof fn lemma_ended_stays_ended<E>(
    m: OrchestrationModel,
    events: Seq<EventModel<E>>,
    n: int,
    k: int,
)
    requires
        0 <= n <= k < events.len(),
        is_terminal(state_at(m, events, n).phase),
    ensures
        state_at(m, events, k + 1) == state_at(m, events, n),
        run(m, events).1[k] == ActionModel::<E>::Halted,
    decreases k - n,
{
    if k > n {
        lemma_ended_stays_ended(m, events, n, k - 1);
    }
    lemma_step_at(m, events, k);
}

/// Only the first state asks for a scratch file, and only the second waits on
/// a compute.
proof fn lemma_early_phases<E>(dir: Option<Seq<char>>, events: Seq<EventModel<E>>, n: int)
    requires
        0 <= n <= events.len(),
    ensures
        state_at(initial(dir), events, n).phase == Phase::AllocatingScratch ==> n == 0,
        state_at(initial(dir), events, n).phase == Phase::Computing ==> n == 1 && run(
            initial(dir),
            events,
        ).1[0] is SendCompute,
{
    let m = initial(dir);
    if n > 0 {
        lemma_step_at(m, events, n - 1);
        if n > 1 {
            lemma_step_at(m, events, n - 2);
        } else {
            assert(events.take(0) =~= Seq::<EventModel<E>>::empty());
        }
    }
}

/// When the unit's compute fails, the invocation aborts with the unit's error
/// and releases its scratch file. Before it, the only request was that
/// compute; after it, the key is never asked for, nothing is persisted and
/// nothing is loaded, whatever else is reported.
pub proof fn lemma_compute_failure_stops<E>(
    dir: Option<Seq<char>>,
    events: Seq<EventModel<E>>,
    i: int,
    error: E,
)
    requires
        0 <= i < events.len(),
        state_at(initial(dir), events, i).phase == Phase::Computing,
        events[i] == (EventModel::StepFailed { error }),
    ensures
        state_at(initial(dir), events, i).scratch is Some,
        i == 1,
        run(initial(dir), events).1[0] is SendCompute,
        run(initial(dir), events).1[i] == (ActionModel::Abort {
            discard: state_at(initial(dir), events, i).scratch,
            error: OrchestrationError::Unit(error),
        }),
        forall|j: int|
            i < j < events.len() ==> run(initial(dir), events).1[j] == ActionModel::<E>::Halted,
{
    let m = initial(dir);
    lemma_states_well_formed(dir, events, i);
    lemma_early_phases(dir, events, i);
    lemma_step_at(m, events, i);
    assert forall|j: int| i < j < events.len() implies run(m, events).1[j]
        == ActionModel::<E>::Halted by {
        lemma_ended_stays_ended(m, events, i + 1, j);
    }
}

/// Between a state in which the unit's bytes are held and the first `n`
/// events, there is the accepted read of those bytes.
pub open spec fn bytes_were_read<E>(
    m: OrchestrationModel,
    events: Seq<EventModel<E>>,
    n: int,
    bytes: Seq<u8>,
) -> bool {
    exists|j: int|
        #![trigger events[j]]
        0 <= j < n && state_at(m, events, j).phase == Phase::Reading && events[j]
            == (EventModel::<E>::ScratchRead { bytes })
}

pub open spec fn holds_read_bytes(p: Phase) -> bool {
    p == Phase::KeyRequested || p == Phase::Storing || p == Phase::Loading || p == Phase::Ready
}

proof fn lemma_blob_was_read<E>(dir: Option<Seq<char>>, events: Seq<EventModel<E>>, n: int)
    requires
        0 <= n <= events.len(),
    ensures
        holds_read_bytes(state_at(initial(dir), events, n).phase) ==> bytes_were_read(
            initial(dir),
            events,
            n,
            state_at(initial(dir), events, n).blob,
        ),
    decreases n,
{
    let m = initial(dir);
    if n == 0 {
        assert(events.take(0) =~= Seq::<EventModel<E>>::empty());
    } else {
        lemma_blob_was_read(dir, events, n - 1);
        lemma_step_at(m, events, n - 1);
        let prev = state_at(m, events, n - 1);
        let cur = state_at(m, events, n);
        if holds_read_bytes(cur.phase) {
            if prev.phase == Phase::Reading {
                assert(events[n - 1] == (EventModel::<E>::ScratchRead { bytes: cur.blob }));
            } else {
                let j = choose|j: int|
                    #![trigger events[j]]
                    0 <= j < n - 1 && state_at(m, events, j).phase == Phase::Reading && events[j]
                        == (EventModel::<E>::ScratchRead { bytes: prev.blob });
                assert(events[j] == (EventModel::<E>::ScratchRead { bytes: cur.blob }));
            }
        }
    }
}

/// The unit is asked to load exactly the bytes that were read back from its
/// scratch file after its compute, in the same invocation, whether or not a
/// cache directory is configured.
pub proof fn lemma_load_gets_computed_bytes<E>(
    dir: Option<Seq<char>>,
    events: Seq<EventModel<E>>,
    i: int,
    bytes: Seq<u8>,
)
    requires
        0 <= i < events.len(),
        run(initial(dir), events).1[i] == (ActionModel::<E>::SendLoadCache { bytes }),
    ensures
        bytes_were_read(initial(dir), events, i, bytes),
{
    lemma_step_at(initial(dir), events, i);
    lemma_blob_was_read(dir, events, i);
}

/// Every state that owns a scratch file owns the one that the unit was asked
/// to compute into.
pub open spec fn scratch_was_computed_into<E>(
    m: OrchestrationModel,
    events: Seq<EventModel<E>>,
    n: int,
    path: Seq<char>,
) -> bool {
    exists|j: int|
        #![trigger run(m, events).1[j]]
        0 <= j < n && run(m, events).1[j] == (ActionModel::<E>::SendCompute { path })
}

proof fn lemma_scratch_was_computed_into<E>(
    dir: Option<Seq<char>>,
    events: Seq<EventModel<E>>,
    n: int,
)
    requires
        0 <= n <= events.len(),
    ensures
        owns_scratch(state_at(initial(dir), events, n).phase) ==> scratch_was_computed_into(
            initial(dir),
            events,
            n,
            state_at(initial(dir), events, n).scratch->0,
        ),
    decreases n,
{
    let m = initial(dir);
    if n == 0 {
        assert(events.take(0) =~= Seq::<EventModel<E>>::empty());
    } else {
        lemma_scratch_was_computed_into(dir, events, n - 1);
        lemma_step_at(m, events, n - 1);
        let prev = state_at(m, events, n - 1);
        let cur = state_at(m, events, n);
        if owns_scratch(cur.phase) {
            if prev.phase == Phase::AllocatingScratch {
                assert(run(m, events).1[n - 1] == (ActionModel::<E>::SendCompute {
                    path: cur.scratch->0,
                }));
            } else {
                let j = choose|j: int|
                    #![trigger run(m, events).1[j]]
                    0 <= j < n - 1 && run(m, events).1[j] == (ActionModel::<E>::SendCompute {
                        path: prev.scratch->0,
                    });
                assert(run(m, events).1[j] == (ActionModel::<E>::SendCompute {
                    path: cur.scratch->0,
                }));
            }
        }
    }
}

/// With a cache directory `dir`, a persist happens only in answer to the key
/// `key` that the unit reported: it moves the very scratch file that the unit
/// computed into to `<dir>/cachefile-<key>`, so the persisted file name ends
/// in the reported key, and the invocation keeps that key.
pub proof fn lemma_persist_names_reported_key<E>(
    dir: Seq<char>,
    events: Seq<EventModel<E>>,
    i: int,
    scratch: Seq<char>,
    target: Seq<char>,
)
    requires
        0 <= i < events.len(),
        run(initial(Some(dir)), events).1[i] == (ActionModel::<E>::Persist { scratch, target }),
    ensures
        events[i] is KeyReceived,
        target == cache_file_path_of(dir, events[i]->key),
        state_at(initial(Some(dir)), events, i + 1).key == events[i]->key,
        target.subrange(target.len() - cache_file_name(events[i]->key).len(), target.len() as int)
            == cache_file_name(events[i]->key),
        target.subrange(target.len() - events[i]->key.len(), target.len() as int)
            == events[i]->key,
        scratch_was_computed_into(initial(Some(dir)), events, i, scratch),
{
    let m = initial(Some(dir));
    lemma_step_at(m, events, i);
    lemma_states_well_formed(Some(dir), events, i);
    lemma_scratch_was_computed_into(Some(dir), events, i);
    lemma_path_ends_with_key(dir, events[i]->key);
}

/// Invocations are not deduplicated: two invocations against the same cache
/// directory whose units report the same key both persist to the same path,
/// so the later move replaces the earlier file.
pub proof fn lemma_same_key_same_target<E>(
    dir: Seq<char>,
    events1: Seq<EventModel<E>>,
    i1: int,
    scratch1: Seq<char>,
    target1: Seq<char>,
    events2: Seq<EventModel<E>>,
    i2: int,
    scratch2: Seq<char>,
    target2: Seq<char>,
)
    requires
        0 <= i1 < events1.len(),
        0 <= i2 < events2.len(),
        run(initial(Some(dir)), events1).1[i1] == (ActionModel::<E>::Persist {
            scratch: scratch1,
            target: target1,
        }),
        run(initial(Some(dir)), events2).1[i2] == (ActionModel::<E>::Persist {
            scratch: scratch2,
            target: target2,
        }),
        events1[i1] is KeyReceived && events2[i2] is KeyReceived && events1[i1]->key
            == events2[i2]->key,
    ensures
        target1 == target2,
{
    lemma_persist_names_reported_key(dir, events1, i1, scratch1, target1);
    lemma_persist_names_reported_key(dir, events2, i2, scratch2, target2);
}

/// Whenever an invocation lets go of its scratch file, the file is released:
/// either the action removes it as the invocation aborts, or the file was
/// persisted or removed by the action before, as the driver confirmed. No
/// ended invocation owns a scratch file.
pub proof fn lemma_scratch_released<E>(dir: Option<Seq<char>>, events: Seq<EventModel<E>>, n: int)
    requires
        0 <= n < events.len(),
        state_at(initial(dir), events, n).scratch is Some,
        state_at(initial(dir), events, n + 1).scratch is None,
    ensures
        ({
            let p = state_at(initial(dir), events, n).scratch->0;
            let acts = run(initial(dir), events).1;
            ||| acts[n] matches ActionModel::Abort { discard, .. } && discard == Some(p)
            ||| n > 0 && events[n] is Stored && (acts[n - 1] matches ActionModel::Persist {
                scratch,
                ..
            } && scratch == p || acts[n - 1] == (ActionModel::<E>::DiscardScratch {
                scratch: p,
            }))
        }),
        is_terminal(state_at(initial(dir), events, n + 1).phase) ==> state_at(
            initial(dir),
            events,
            n + 1,
        ).scratch is None,
{
    let m = initial(dir);
    lemma_step_at(m, events, n);
    lemma_states_well_formed(dir, events, n);
    lemma_states_well_formed(dir, events, n + 1);
    if n > 0 {
        lemma_step_at(m, events, n - 1);
        lemma_states_well_formed(dir, events, n - 1);
    } else {
        assert(events.take(0) =~= Seq::<EventModel<E>>::empty());
    }
}

} // verus!
