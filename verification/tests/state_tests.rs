//! The state layer: commit monotonicity, cached front-ends, keys,
//! lenses and the manager's listener queues.

use gui::state::lens::Lens;
use gui::State;
use gui::{CloneState, Id, Key, ListenerID, StateID, StateInner, StateManager, Then};

#[test]
fn commits_increase_strictly_and_keep_the_last_value() {
    let mut mgr = StateManager::new();
    let id = mgr.new_state_id();
    let mut inner = StateInner::new(id, 0u32);
    let mut seen: Vec<u64> = Vec::new();
    for v in [3u32, 9, 27] {
        let commit = inner.update_value(&mut mgr, v);
        seen.push(commit);
    }
    assert_eq!(seen, vec![1, 2, 3]);
    assert_eq!(inner.commit(), 3);
    assert_eq!(*inner.use_value(), 27);
}

#[test]
fn clone_state_round_trip() {
    // A front-end at 20, one decrement through a key, and a second
    // independent front-end observing 19 after its next fetch.
    let mut mgr = StateManager::new();
    let (mut front, mut inner) = CloneState::new(&mut mgr, 20u32);
    let mut second = front.fork();

    front.with_key(&mut inner, &mut mgr, |mut key: Key<u32>| {
        let v = *key.get();
        key.set(v - 1);
        key
    });

    assert_eq!(inner.commit(), 1);
    assert_eq!(*inner.use_value(), 19);
    // The second front-end still shows its stale cache until it fetches.
    assert_eq!(*second.with_value(), 20);
    assert_eq!(*second.with_fetched_value(&inner), 19);
}

#[test]
fn unchanged_key_commits_nothing() {
    let mut mgr = StateManager::new();
    let (mut front, mut inner) = CloneState::new(&mut mgr, 7u32);
    front.with_key(&mut inner, &mut mgr, |key: Key<u32>| key);
    assert_eq!(inner.commit(), 0);
    assert_eq!(*inner.use_value(), 7);
}

#[test]
fn listeners_receive_updates_in_order() {
    let mut mgr = StateManager::new();
    let a = mgr.register_listener();
    let b = mgr.register_listener();
    let id1 = mgr.new_state_id();
    let id2 = mgr.new_state_id();
    mgr.update(id1);
    mgr.update(id2);
    mgr.update(id1);
    assert_eq!(mgr.drain(a), vec![id1, id2, id1]);
    assert_eq!(mgr.drain(a), Vec::<StateID>::new());
    assert_eq!(mgr.drain(b), vec![id1, id2, id1]);
}

#[test]
fn unregistered_listeners_stop_receiving() {
    let mut mgr = StateManager::new();
    let a = mgr.register_listener();
    let b = mgr.register_listener();
    mgr.unregister_listener(a);
    let id = mgr.new_state_id();
    mgr.update(id);
    assert_eq!(mgr.drain(a), Vec::<StateID>::new());
    assert_eq!(mgr.drain(b), vec![id]);
    mgr.unregister_listener(ListenerID(999));
    assert_eq!(mgr.drain(b), Vec::<StateID>::new());
}

#[test]
fn committing_notifies_every_listener() {
    let mut mgr = StateManager::new();
    let a = mgr.register_listener();
    let (mut front, mut inner) = CloneState::new(&mut mgr, 1u32);
    let id = front.get_id();
    front.with_key(&mut inner, &mut mgr, |mut key: Key<u32>| {
        let v = *key.get();
        key.set(v + 1);
        key
    });
    assert_eq!(mgr.drain(a), vec![id]);
}

#[test]
fn state_ids_are_issued_uniquely() {
    let mut mgr = StateManager::new();
    let a = mgr.new_state_id();
    let b = mgr.new_state_id();
    assert_ne!(a, b);
}

#[test]
fn keys_track_changes() {
    let mut key = Key::new(5u32);
    assert_eq!(*key.get(), 5);
    key.change(|v: &u32| v * 2);
    assert_eq!(*key.get(), 10);
    let (value, changed) = key.into_parts();
    assert_eq!(value, 10);
    assert!(changed);
    let (value, changed) = Key::new(1u8).into_parts();
    assert_eq!(value, 1);
    assert!(!changed);
}

#[test]
fn lenses_project_and_write_back() {
    let id = Id;
    let mut v = 4u32;
    assert_eq!(id.with(&v), 4);
    id.with_mut(&mut v, 9);
    assert_eq!(v, 9);

    let composed = Then(Id, Id);
    let mut w = 3u32;
    assert_eq!(composed.with(&w), 3);
    composed.with_mut(&mut w, 8);
    assert_eq!(w, 8);
}

#[test]
fn key_with_lens_propagates_changes() {
    let mut key = Key::new(6u32);
    key.with_lens(&Id, |mut part: Key<u32>| {
        let v = *part.get();
        part.set(v + 10);
        part
    });
    assert_eq!(*key.get(), 16);
    let (_, changed) = key.into_parts();
    assert!(changed);

    let mut quiet = Key::new(6u32);
    quiet.with_lens(&Id, |part: Key<u32>| part);
    let (value, changed) = quiet.into_parts();
    assert_eq!(value, 6);
    assert!(!changed);
}
