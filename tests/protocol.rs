use std::collections::BTreeMap;

use memo_cache::cache_actor::CacheActor;
use memo_cache::cache_path::cache_file_path;
use memo_cache::messages::{Compute, ComputeMemoized, GetCacheKey, LoadCache};
use memo_cache::orchestrator::{Action, Event, Orchestration, OrchestrationError, Phase};
use memo_cache::unit_lifecycle::{LifecycleError, UnitLifecycle, UnitPhase};

/// A unit that writes fixed bytes and reports a fixed key, or fails.
struct FakeUnit {
    output: Vec<u8>,
    key: String,
    fail_compute: bool,
    fail_load: bool,
    calls: Vec<&'static str>,
    loaded: Option<Vec<u8>>,
    life: UnitLifecycle,
}

impl FakeUnit {
    fn new(output: &str, key: &str) -> FakeUnit {
        FakeUnit {
            output: output.as_bytes().to_vec(),
            key: key.to_string(),
            fail_compute: false,
            fail_load: false,
            calls: vec![],
            loaded: None,
            life: UnitLifecycle::new(),
        }
    }
}

/// An in-memory file store standing in for the disk.
#[derive(Default)]
struct Disk {
    files: BTreeMap<String, Vec<u8>>,
    next_scratch: u32,
    fail_persist: bool,
}

fn is_scratch(path: &str) -> bool {
    path.starts_with("/tmp/scratch")
}

/// Drives one step of an invocation: performs `action` and reports its outcome.
fn perform(action: Action<String>, unit: &mut FakeUnit, disk: &mut Disk) -> Event<String> {
    match action {
        Action::AllocateScratch => {
            disk.next_scratch += 1;
            let path = format!("/tmp/scratch{}", disk.next_scratch);
            disk.files.insert(path.clone(), vec![]);
            Event::ScratchAllocated { path }
        }
        Action::SendCompute { path } => {
            let msg = Compute::new(path);
            unit.calls.push("compute");
            unit.life.begin_compute().unwrap();
            if unit.fail_compute {
                unit.life.finish_compute(None).unwrap();
                disk.files.insert(msg.path, b"partial".to_vec());
                Event::StepFailed { error: "io: disk full".to_string() }
            } else {
                unit.life.finish_compute(Some(unit.key.clone())).unwrap();
                disk.files.insert(msg.path, unit.output.clone());
                Event::ComputeDone
            }
        }
        Action::ReadScratch { path } => Event::ScratchRead { bytes: disk.files[&path].clone() },
        Action::SendGetCacheKey => {
            let _ = GetCacheKey;
            unit.calls.push("key");
            Event::KeyReceived { key: unit.life.cache_key().unwrap() }
        }
        Action::Persist { scratch, target } => {
            unit.calls.push("persist");
            if disk.fail_persist {
                return Event::StepFailed { error: "io: cannot persist".to_string() };
            }
            let bytes = disk.files.remove(&scratch).unwrap();
            disk.files.insert(target, bytes);
            Event::Stored
        }
        Action::DiscardScratch { scratch } => {
            disk.files.remove(&scratch);
            Event::Stored
        }
        Action::SendLoadCache { bytes } => {
            let msg = LoadCache::new(bytes);
            unit.calls.push("load");
            unit.life.load().unwrap();
            if unit.fail_load {
                return Event::StepFailed { error: "domain: bad bytes".to_string() };
            }
            unit.loaded = Some(msg.value);
            Event::Loaded
        }
        Action::Finish | Action::Abort { .. } | Action::Halted => {
            unreachable!()
        }
    }
}

/// Runs a whole invocation; returns the key on success, the error otherwise.
fn compute_memoized(
    actor: &CacheActor,
    item: ComputeMemoized<&mut FakeUnit>,
    disk: &mut Disk,
) -> Result<String, OrchestrationError<String>> {
    let unit = item.0;
    let (mut state, mut action) = actor.begin::<String>();
    loop {
        match action {
            Action::Finish => return Ok(state.key().clone()),
            Action::Abort { discard, error } => {
                if let Some(p) = discard {
                    disk.files.remove(&p);
                }
                return Err(error);
            }
            Action::Halted => unreachable!(),
            other => {
                let event = perform(other, unit, disk);
                let next = state.step(event);
                state = next.0;
                action = next.1;
            }
        }
    }
}

fn scratch_files(disk: &Disk) -> usize {
    disk.files.keys().filter(|p| is_scratch(p)).count()
}

fn unit_error(e: OrchestrationError<String>) -> String {
    match e {
        OrchestrationError::Unit(s) => s,
        OrchestrationError::OutOfOrder => panic!("out of order"),
    }
}

#[test]
fn persists_and_loads_output() {
    let actor = CacheActor::new(Some("/cache".to_string()));
    let mut disk = Disk::default();
    let mut unit = FakeUnit::new("hello", "abc123");
    let key = compute_memoized(&actor, ComputeMemoized(&mut unit), &mut disk).unwrap();
    assert_eq!(key, "abc123");
    assert_eq!(disk.files["/cache/cachefile-abc123"], b"hello".to_vec());
    assert_eq!(unit.loaded, Some(b"hello".to_vec()));
    assert_eq!(unit.calls, vec!["compute", "key", "persist", "load"]);
    assert_eq!(unit.life.phase(), UnitPhase::Ready);
    assert_eq!(unit.life.cache_key().unwrap(), "abc123");
    assert_eq!(scratch_files(&disk), 0);
}

#[test]
fn compute_failure_returns_error() {
    let actor = CacheActor::new(Some("/cache".to_string()));
    let mut disk = Disk::default();
    let mut unit = FakeUnit::new("hello", "abc123");
    unit.fail_compute = true;
    let err = compute_memoized(&actor, ComputeMemoized(&mut unit), &mut disk).unwrap_err();
    assert_eq!(unit_error(err), "io: disk full");
    assert_eq!(unit.calls, vec!["compute"]);
    assert_eq!(unit.loaded, None);
    assert!(disk.files.is_empty());
}

#[test]
fn distinct_keys_give_distinct_files() {
    let actor = CacheActor::new(Some("/cache".to_string()));
    let mut disk = Disk::default();
    let mut u1 = FakeUnit::new("one", "k1");
    let mut u2 = FakeUnit::new("two", "k2");
    let (mut s1, mut a1) = actor.begin::<String>();
    let (mut s2, mut a2) = actor.begin::<String>();
    // interleave the two invocations step by step
    let mut paths = vec![];
    loop {
        let done1 = matches!(a1, Action::Finish);
        let done2 = matches!(a2, Action::Finish);
        if done1 && done2 {
            break;
        }
        if !done1 {
            if let Action::SendCompute { path } = &a1 {
                paths.push(path.clone());
            }
            let e = perform(a1, &mut u1, &mut disk);
            let n = s1.step(e);
            s1 = n.0;
            a1 = n.1;
        }
        if !done2 {
            if let Action::SendCompute { path } = &a2 {
                paths.push(path.clone());
            }
            let e = perform(a2, &mut u2, &mut disk);
            let n = s2.step(e);
            s2 = n.0;
            a2 = n.1;
        }
    }
    assert_ne!(paths[0], paths[1]);
    assert_eq!(disk.files["/cache/cachefile-k1"], b"one".to_vec());
    assert_eq!(disk.files["/cache/cachefile-k2"], b"two".to_vec());
    assert_eq!(scratch_files(&disk), 0);
    assert_eq!(s1.phase(), Phase::Ready);
    assert_eq!(s2.phase(), Phase::Ready);
}

#[test]
fn same_key_last_write_wins() {
    let actor = CacheActor::new(Some("/cache".to_string()));
    let mut disk = Disk::default();
    let mut u1 = FakeUnit::new("first", "same");
    let mut u2 = FakeUnit::new("second", "same");
    let (mut s1, mut a1) = actor.begin::<String>();
    let (mut s2, mut a2) = actor.begin::<String>();
    // both reach the persist step before either moves its file
    while !matches!(a1, Action::Persist { .. }) {
        let e = perform(a1, &mut u1, &mut disk);
        let n = s1.step(e);
        s1 = n.0;
        a1 = n.1;
    }
    while !matches!(a2, Action::Persist { .. }) {
        let e = perform(a2, &mut u2, &mut disk);
        let n = s2.step(e);
        s2 = n.0;
        a2 = n.1;
    }
    match (&a1, &a2) {
        (Action::Persist { target: t1, .. }, Action::Persist { target: t2, .. }) => {
            assert_eq!(t1, "/cache/cachefile-same");
            assert_eq!(t1, t2);
        }
        _ => unreachable!(),
    }
    for _ in 0..3 {
        if !matches!(a1, Action::Finish) {
            let e = perform(a1, &mut u1, &mut disk);
            let n = s1.step(e);
            s1 = n.0;
            a1 = n.1;
        }
    }
    for _ in 0..3 {
        if !matches!(a2, Action::Finish) {
            let e = perform(a2, &mut u2, &mut disk);
            let n = s2.step(e);
            s2 = n.0;
            a2 = n.1;
        }
    }
    assert!(matches!(a1, Action::Finish));
    assert!(matches!(a2, Action::Finish));
    assert_eq!(disk.files["/cache/cachefile-same"], b"second".to_vec());
    assert_eq!(u1.loaded, Some(b"first".to_vec()));
    assert_eq!(u2.loaded, Some(b"second".to_vec()));
    assert_eq!(scratch_files(&disk), 0);
}

#[test]
fn no_cache_dir_still_computes_and_loads() {
    let actor = CacheActor::new(None);
    let mut disk = Disk::default();
    let mut unit = FakeUnit::new("hello", "abc123");
    let key = compute_memoized(&actor, ComputeMemoized(&mut unit), &mut disk).unwrap();
    assert_eq!(key, "abc123");
    assert_eq!(unit.loaded, Some(b"hello".to_vec()));
    assert_eq!(unit.calls, vec!["compute", "key", "load"]);
    assert!(disk.files.is_empty());
}

#[test]
fn persist_failure_is_fatal_and_cleans_scratch() {
    let actor = CacheActor::new(Some("/cache".to_string()));
    let mut disk = Disk::default();
    disk.fail_persist = true;
    let mut unit = FakeUnit::new("hello", "abc123");
    let err = compute_memoized(&actor, ComputeMemoized(&mut unit), &mut disk).unwrap_err();
    assert_eq!(unit_error(err), "io: cannot persist");
    assert_eq!(unit.calls, vec!["compute", "key", "persist"]);
    assert_eq!(unit.loaded, None);
    assert!(disk.files.is_empty());
}

#[test]
fn load_failure_returns_error() {
    let actor = CacheActor::new(Some("/cache".to_string()));
    let mut disk = Disk::default();
    let mut unit = FakeUnit::new("hello", "abc123");
    unit.fail_load = true;
    let err = compute_memoized(&actor, ComputeMemoized(&mut unit), &mut disk).unwrap_err();
    assert_eq!(unit_error(err), "domain: bad bytes");
    assert_eq!(scratch_files(&disk), 0);
}

#[test]
fn out_of_order_event_aborts_and_releases_scratch() {
    let (s, a) = Orchestration::start::<String>(Some("/c".to_string()));
    assert!(matches!(a, Action::AllocateScratch));
    let (s, a) = s.step(Event::<String>::ScratchAllocated { path: "/tmp/x".to_string() });
    match a {
        Action::SendCompute { path } => assert_eq!(path, "/tmp/x"),
        _ => panic!("expected compute"),
    }
    let (s, a) = s.step(Event::<String>::KeyReceived { key: "k".to_string() });
    match a {
        Action::Abort { discard, error } => {
            assert_eq!(discard, Some("/tmp/x".to_string()));
            assert!(matches!(error, OrchestrationError::OutOfOrder));
        }
        _ => panic!("expected abort"),
    }
    assert_eq!(s.phase(), Phase::Failed);
    let (s, a) = s.step(Event::<String>::Loaded);
    assert!(matches!(a, Action::Halted));
    assert_eq!(s.phase(), Phase::Failed);
}

#[test]
fn allocation_failure_aborts_without_scratch() {
    let (s, _) = Orchestration::start::<String>(None);
    let (s, a) = s.step(Event::StepFailed { error: "io".to_string() });
    match a {
        Action::Abort { discard, error } => {
            assert_eq!(discard, None);
            assert_eq!(unit_error(error), "io");
        }
        _ => panic!("expected abort"),
    }
    assert_eq!(s.phase(), Phase::Failed);
}

#[test]
fn no_cache_dir_discards_scratch_after_key() {
    let (s, _) = Orchestration::start::<String>(None);
    let (s, _) = s.step(Event::<String>::ScratchAllocated { path: "/tmp/y".to_string() });
    let (s, _) = s.step(Event::<String>::ComputeDone);
    let (s, a) = s.step(Event::<String>::ScratchRead { bytes: vec![1, 2, 3] });
    assert!(matches!(a, Action::SendGetCacheKey));
    let (s, a) = s.step(Event::<String>::KeyReceived { key: "k".to_string() });
    match a {
        Action::DiscardScratch { scratch } => assert_eq!(scratch, "/tmp/y"),
        _ => panic!("expected discard"),
    }
    assert_eq!(s.key(), "k");
    let (s, a) = s.step(Event::<String>::Stored);
    match a {
        Action::SendLoadCache { bytes } => assert_eq!(bytes, vec![1, 2, 3]),
        _ => panic!("expected load"),
    }
    let (s, a) = s.step(Event::<String>::Loaded);
    assert!(matches!(a, Action::Finish));
    assert_eq!(s.phase(), Phase::Ready);
}

#[test]
fn cache_path_joins_directory_and_key() {
    assert_eq!(cache_file_path("/cache", "abc123"), "/cache/cachefile-abc123");
    assert_eq!(cache_file_path("/cache/", "abc123"), "/cache/cachefile-abc123");
    assert_eq!(cache_file_path("", "k"), "cachefile-k");
    assert_eq!(cache_file_path("rel/dir", ""), "rel/dir/cachefile-");
}

#[test]
fn actor_reports_configuration() {
    let a = CacheActor::new(Some("/cache".to_string()));
    assert_eq!(a.cache_dir(), Some(&"/cache".to_string()));
    assert_eq!(a.cache_path("k1"), Some("/cache/cachefile-k1".to_string()));
    let b = CacheActor::new(None);
    assert_eq!(b.cache_dir(), None);
    assert_eq!(b.cache_path("k1"), None);
}

#[test]
fn lifecycle_rejects_out_of_order_requests() {
    let mut l = UnitLifecycle::new();
    assert_eq!(l.cache_key(), Err(LifecycleError::NotComputed));
    assert_eq!(l.load(), Err(LifecycleError::NotComputed));
    assert_eq!(l.finish_compute(Some("k".to_string())), Err(LifecycleError::NotComputed));
    assert_eq!(l.begin_compute(), Ok(()));
    assert_eq!(l.begin_compute(), Err(LifecycleError::AlreadyStarted));
    assert_eq!(l.cache_key(), Err(LifecycleError::NotComputed));
    assert_eq!(l.finish_compute(Some("k".to_string())), Ok(()));
    assert_eq!(l.cache_key(), Ok("k".to_string()));
    assert_eq!(l.load(), Ok(()));
    assert_eq!(l.load(), Err(LifecycleError::AlreadyLoaded));
    assert_eq!(l.cache_key(), Ok("k".to_string()));
    assert_eq!(l.phase(), UnitPhase::Ready);
}

#[test]
fn lifecycle_failed_compute_has_no_key() {
    let mut l = UnitLifecycle::new();
    l.begin_compute().unwrap();
    assert_eq!(l.finish_compute(None), Ok(()));
    assert_eq!(l.phase(), UnitPhase::Failed);
    assert_eq!(l.cache_key(), Err(LifecycleError::NotComputed));
    assert_eq!(l.load(), Err(LifecycleError::NotComputed));
}
