use spin_gate::gate::Gate;
use spin_gate::gate::disable_raw_atomics;
use spin_gate::gate::enable_raw_atomics;
use spin_gate::gate::raw_atomics_enabled;
use spin_gate::mutex::RawSpinLock;
use spin_gate::mutex::lock_atomic;
use spin_gate::mutex::try_lock_atomic;
use spin_gate::mutex::unlock_atomic;
use spin_gate::rwlock::READER_MASK;
use spin_gate::rwlock::WRITE_FLAG;
use spin_gate::rwlock::rw_read_lock_atomic;
use spin_gate::rwlock::rw_read_unlock_atomic;
use spin_gate::rwlock::rw_try_read_lock_atomic;
use spin_gate::rwlock::rw_try_write_lock_atomic;
use spin_gate::rwlock::rw_write_lock_atomic;
use spin_gate::rwlock::rw_write_unlock_atomic;

#[test]
fn gate_starts_in_bring_up_mode() {
    let gate = Gate::new();
    assert!(!raw_atomics_enabled(&gate));
}

#[test]
fn gate_enable_and_test_only_disable() {
    let mut gate = Gate::new();
    enable_raw_atomics(&mut gate);
    assert!(raw_atomics_enabled(&gate));
    disable_raw_atomics(&mut gate);
    assert!(!raw_atomics_enabled(&gate));
}

#[test]
fn bring_up_lock_cycle_never_touches_lock_state() {
    let gate = Gate::new();
    let mut lock = RawSpinLock::new(41u64);
    assert!(!lock.is_locked());
    let guard = lock.lock(&gate);
    assert!(!lock.is_locked());
    assert!(!guard.releases_atomically());
    assert_eq!(*lock.get(&guard), 41);
    lock.unlock(guard);
    assert!(!lock.is_locked());
}

#[test]
fn raw_atomic_lock_cycle_drives_lock_state() {
    let mut gate = Gate::new();
    enable_raw_atomics(&mut gate);
    let mut lock = RawSpinLock::new(0u64);
    let guard = lock.lock(&gate);
    assert!(lock.is_locked());
    assert!(guard.releases_atomically());
    lock.set(&guard, 5);
    assert_eq!(*lock.get(&guard), 5);
    lock.unlock(guard);
    assert!(!lock.is_locked());
}

#[test]
fn guard_acquired_in_bring_up_releases_as_no_op_after_enable() {
    let mut gate = Gate::new();
    let mut lock = RawSpinLock::new(());
    let guard = lock.lock(&gate);
    enable_raw_atomics(&mut gate);
    assert!(!guard.releases_atomically());
    lock.unlock(guard);
    assert!(!lock.is_locked());
}

#[test]
fn guard_acquired_atomically_still_releases_after_disable() {
    let mut gate = Gate::new();
    enable_raw_atomics(&mut gate);
    let mut lock = RawSpinLock::new(());
    let guard = lock.lock(&gate);
    assert!(lock.is_locked());
    disable_raw_atomics(&mut gate);
    lock.unlock(guard);
    assert!(!lock.is_locked());
}

#[test]
fn no_lock_guard_touches_nothing() {
    let mut gate = Gate::new();
    enable_raw_atomics(&mut gate);
    let mut lock = RawSpinLock::new(3u64);
    let guard = lock.no_lock();
    assert!(!lock.is_locked());
    assert_eq!(*lock.get(&guard), 3);
    lock.set(&guard, 4);
    assert_eq!(*lock.get(&guard), 4);
    lock.unlock(guard);
    assert!(!lock.is_locked());
}

#[test]
fn contended_acquisition_attempt_is_refused() {
    let mut locked = false;
    assert!(try_lock_atomic(&mut locked));
    assert!(locked);
    assert!(!try_lock_atomic(&mut locked));
    assert!(locked);
    unlock_atomic(&mut locked);
    assert!(!locked);
    lock_atomic(&mut locked);
    assert!(locked);
}

#[test]
fn readers_are_admitted_and_counted() {
    let mut state: u64 = 0;
    rw_read_lock_atomic(&mut state);
    rw_read_lock_atomic(&mut state);
    assert_eq!(state, 2);
    rw_read_unlock_atomic(&mut state);
    assert_eq!(state, 1);
    rw_read_unlock_atomic(&mut state);
    assert_eq!(state, 0);
}

#[test]
fn write_flag_blocks_new_readers() {
    let mut state: u64 = 0;
    rw_write_lock_atomic(&mut state);
    assert_eq!(state, WRITE_FLAG);
    assert!(!rw_try_read_lock_atomic(&mut state));
    assert_eq!(state, WRITE_FLAG);
    rw_write_unlock_atomic(&mut state);
    assert_eq!(state, 0);
}

#[test]
fn writer_claims_flag_over_admitted_readers_and_waits_for_drain() {
    let mut state: u64 = 0;
    rw_read_lock_atomic(&mut state);
    rw_read_lock_atomic(&mut state);
    assert!(rw_try_write_lock_atomic(&mut state));
    assert_eq!(state, WRITE_FLAG | 2);
    assert!(!rw_try_write_lock_atomic(&mut state));
    assert!(!rw_try_read_lock_atomic(&mut state));
    assert_eq!(state, WRITE_FLAG | 2);
    rw_read_unlock_atomic(&mut state);
    rw_read_unlock_atomic(&mut state);
    assert_eq!(state, WRITE_FLAG);
    rw_write_unlock_atomic(&mut state);
    assert_eq!(state, 0);
}

#[test]
fn reader_count_at_maximum_spins_instead_of_corrupting_flag() {
    let mut state: u64 = READER_MASK;
    assert!(!rw_try_read_lock_atomic(&mut state));
    assert_eq!(state, READER_MASK);
    assert_eq!(state & WRITE_FLAG, 0);
    rw_read_unlock_atomic(&mut state);
    assert_eq!(state, READER_MASK - 1);
    assert!(rw_try_read_lock_atomic(&mut state));
    assert_eq!(state, READER_MASK);
}
