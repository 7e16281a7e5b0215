use comp_state::create_context;
use comp_state::store::{Id, Store};
use std::cell::RefCell;
use std::rc::Rc;

#[test]
fn context_get_returns_what_was_set() {
    let mut store: Store<Rc<i32>> = Store::new();
    let ctx = create_context::<i32>(Id { id: 0 });
    ctx.set(&mut store, 9);
    assert_eq!(ctx.get(&mut store, |v| **v), 9);
}

#[test]
fn two_gets_observe_the_identical_shared_value() {
    let mut store: Store<Rc<i32>> = Store::new();
    let ctx = create_context::<i32>(Id { id: 0 });
    ctx.set(&mut store, 5);
    let first = ctx.get(&mut store, |v| v.clone());
    let second = ctx.get(&mut store, |v| v.clone());
    assert!(Rc::ptr_eq(&first, &second));
    assert_eq!(*first, 5);
    assert_eq!(*second, 5);
}

#[test]
fn mutation_through_one_observer_is_seen_by_the_other() {
    let mut store: Store<Rc<RefCell<i32>>> = Store::new();
    let ctx = create_context::<RefCell<i32>>(Id { id: 0 });
    ctx.set(&mut store, RefCell::new(1));
    ctx.get(&mut store, |v| {
        *v.borrow_mut() = 8;
    });
    assert_eq!(ctx.get(&mut store, |v| *v.borrow()), 8);
}

#[test]
fn context_value_survives_passes_it_is_read_in() {
    let mut store: Store<Rc<i32>> = Store::new();
    let ctx = create_context::<i32>(Id { id: 0 });
    ctx.set(&mut store, 3);
    for _ in 0..4 {
        store.sweep();
        assert_eq!(ctx.get(&mut store, |v| **v), 3);
    }
}

#[test]
fn unread_context_value_is_reclaimed() {
    let mut store: Store<Rc<i32>> = Store::new();
    let ctx = create_context::<i32>(Id { id: 0 });
    ctx.set(&mut store, 3);
    store.sweep();
    store.sweep();
    assert!(!store.state_exists_with_id(Id { id: 0 }));
}

#[test]
fn never_set_context_is_detectably_unset() {
    // Reading from a context that was never set is a usage-contract
    // violation; the check an unverified caller must make before calling
    // `get` reports it.
    let store: Store<Rc<i32>> = Store::new();
    let _ctx = create_context::<i32>(Id { id: 0 });
    assert!(!store.state_exists_with_id(Id { id: 0 }));
}

#[test]
fn set_after_set_overwrites() {
    let mut store: Store<Rc<i32>> = Store::new();
    let ctx = create_context::<i32>(Id { id: 0 });
    ctx.set(&mut store, 1);
    ctx.set(&mut store, 2);
    assert_eq!(ctx.get(&mut store, |v| **v), 2);
}

#[test]
fn distinct_contexts_have_distinct_entries() {
    let mut store: Store<Rc<i32>> = Store::new();
    let a = create_context::<i32>(Id { id: 0 });
    let b = create_context::<i32>(Id { id: 1 });
    a.set(&mut store, 10);
    b.set(&mut store, 20);
    assert_eq!(a.get(&mut store, |v| **v), 10);
    assert_eq!(b.get(&mut store, |v| **v), 20);
}
