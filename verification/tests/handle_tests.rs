use comp_state::store::{Id, Store};
use comp_state::use_state;
use std::cell::Cell;

#[test]
fn use_state_creates_from_factory() {
    let mut store: Store<i32> = Store::new();
    let h = use_state(&mut store, Id { id: 1 }, || 42);
    assert_eq!(h.get(&mut store, |v| *v), 42);
}

#[test]
fn factory_runs_once_per_identity_and_pass() {
    let mut store: Store<i32> = Store::new();
    let id = Id { id: 1 };
    let calls = Cell::new(0);
    let h1 = use_state(&mut store, id, || {
        calls.set(calls.get() + 1);
        5
    });
    assert_eq!(calls.get(), 1);
    let h2 = use_state(&mut store, id, || {
        calls.set(calls.get() + 1);
        99
    });
    assert_eq!(calls.get(), 1);
    assert_eq!(h1.get(&mut store, |v| *v), 5);
    assert_eq!(h2.get(&mut store, |v| *v), 5);
}

#[test]
fn repeated_creation_leaves_value_unchanged() {
    let mut store: Store<i32> = Store::new();
    let id = Id { id: 3 };
    let h = use_state(&mut store, id, || 0);
    h.set(&mut store, |v| (v + 7, ()));
    for _ in 0..5 {
        use_state(&mut store, id, || 0);
    }
    assert_eq!(h.get(&mut store, |v| *v), 7);
}

#[test]
fn set_passes_extra_result_through() {
    let mut store: Store<i32> = Store::new();
    let h = use_state(&mut store, Id { id: 2 }, || 10);
    let old = h.set(&mut store, |v| (v * 2, v));
    assert_eq!(old, 10);
    assert_eq!(h.get(&mut store, |v| *v), 20);
}

#[test]
fn handle_is_copyable() {
    let mut store: Store<i32> = Store::new();
    let h = use_state(&mut store, Id { id: 4 }, || 1);
    let g = h;
    let f = h.clone();
    h.set(&mut store, |v| (v + 1, ()));
    assert_eq!(g.get(&mut store, |v| *v), 2);
    assert_eq!(f.get(&mut store, |v| *v), 2);
}

#[test]
fn factory_not_consulted_for_value_kept_from_last_pass() {
    let mut store: Store<i32> = Store::new();
    let id = Id { id: 1 };
    let h = use_state(&mut store, id, || 0);
    h.set(&mut store, |v| (v + 1, ()));
    store.sweep();
    let calls = Cell::new(0);
    let h2 = use_state(&mut store, id, || {
        calls.set(calls.get() + 1);
        0
    });
    assert_eq!(calls.get(), 0);
    assert_eq!(h2.get(&mut store, |v| *v), 1);
}

#[test]
fn value_survives_every_pass_it_is_touched_in() {
    let mut store: Store<i32> = Store::new();
    let id = Id { id: 8 };
    let h = use_state(&mut store, id, || 100);
    h.set(&mut store, |v| (v + 1, ()));
    for _ in 0..10 {
        store.sweep();
        let h = use_state(&mut store, id, || 0);
        assert_eq!(h.get(&mut store, |v| *v), 101);
    }
}

#[test]
fn untouched_position_is_reclaimed() {
    // Pass 1 touches position P and sets its value to 1. Pass 2 revisits
    // P: the factory is not invoked and the handle reads 1. Pass 3 does
    // not revisit P; after the sweeps ending passes 2 and 3, no state for
    // P exists any more.
    let mut store: Store<i32> = Store::new();
    let p = Id { id: 1 };
    let h = use_state(&mut store, p, || 0);
    h.set(&mut store, |v| (v + 1, ()));
    assert_eq!(h.get(&mut store, |v| *v), 1);
    store.sweep();

    let calls = Cell::new(0);
    let h = use_state(&mut store, p, || {
        calls.set(calls.get() + 1);
        0
    });
    assert_eq!(calls.get(), 0);
    assert_eq!(h.get(&mut store, |v| *v), 1);
    store.sweep();

    // Pass 3: P is not revisited.
    store.sweep();
    assert!(!store.state_exists_with_id(p));
}
