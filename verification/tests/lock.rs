use capture_pipeline::lock::{CaptureLock, LockBusy};

#[test]
fn fresh_lock_is_idle() {
    let lock = CaptureLock::new();
    assert!(!lock.is_held());
}

#[test]
fn second_trigger_is_turned_away() {
    let mut lock = CaptureLock::new();
    assert_eq!(lock.try_begin(), Ok(()));
    assert!(lock.is_held());
    assert_eq!(lock.try_begin(), Err(LockBusy));
    assert!(lock.is_held());
}

#[test]
fn end_frees_the_lock_for_the_next_session() {
    let mut lock = CaptureLock::new();
    assert!(lock.try_begin().is_ok());
    lock.end();
    assert!(!lock.is_held());
    assert!(lock.try_begin().is_ok());
}

#[test]
fn end_on_an_idle_lock_leaves_it_idle() {
    let mut lock = CaptureLock::new();
    lock.end();
    assert!(!lock.is_held());
}
