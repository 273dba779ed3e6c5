use qui::lifecycle::{Slot, Teardown};

#[test]
fn create_then_teardown_then_create_again() {
    let mut slot = Slot::new();
    assert!(!slot.is_live());
    slot.create();
    assert!(slot.is_live());
    assert_eq!(slot.refs(), 1);
    assert_eq!(slot.teardown(), Teardown::Release);
    assert!(!slot.is_live());
    assert_eq!(slot.refs(), 0);
    slot.create();
    assert!(slot.is_live());
}

#[test]
fn lookup_goes_none_some_none() {
    let mut slot = Slot::new();
    assert!(!slot.lookup(true));
    assert!(!slot.lookup(false));
    slot.create();
    assert!(slot.lookup(true));
    assert_eq!(slot.refs(), 2);
    slot.release();
    assert_eq!(slot.teardown(), Teardown::Release);
    assert!(!slot.lookup(true));
    assert_eq!(slot.refs(), 0);
}

#[test]
fn lookup_fails_fast_when_lock_is_taken() {
    let mut slot = Slot::new();
    slot.create();
    assert!(!slot.lookup(false));
    assert_eq!(slot.refs(), 1);
}

#[test]
fn clones_dropped_but_one_keep_handle() {
    let mut slot = Slot::new();
    slot.create();
    let n: u64 = 5;
    for _ in 0..n {
        slot.acquire();
    }
    for _ in 0..n - 1 {
        slot.release();
    }
    assert!(slot.is_live());
    assert_eq!(slot.refs(), 2);
}

#[test]
fn teardown_while_referenced_leaks() {
    let mut slot = Slot::new();
    slot.create();
    slot.acquire();
    assert_eq!(slot.teardown(), Teardown::LeakAndAbort);
    assert!(slot.is_live());
    assert_eq!(slot.refs(), 3);
}

#[test]
fn hello_world_lifecycle() {
    let mut slot = Slot::new();
    slot.create();
    let sent = qui::text::text_to_native("Hello world");
    assert_eq!(qui::text::text_from_native(&sent), "Hello world");
    let style = qui::text::text_to_native("Material");
    assert_eq!(style, b"Material".to_vec());
    assert_eq!(slot.teardown(), Teardown::Release);
    assert!(!slot.is_live());
    slot.create();
    assert!(slot.is_live());
    assert_eq!(slot.refs(), 1);
}
