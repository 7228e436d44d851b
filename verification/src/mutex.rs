use vstd::prelude::*;

use crate::gate::Gate;
use crate::gate::raw_atomics_enabled;

verus! {

// --- The atomic building blocks, modelled as sequential state transitions.
// --- In the running system each of these is one operation on a shared
// --- atomic word; here the word is reached through `&mut`, which is the
// --- sequential rendering of "no other context touches it during the step".

/// One compare-and-swap attempt on the binary lock state: takes the lock
/// exactly when it was free. A contended attempt changes nothing — the
/// caller spins and retries.
pub fn try_lock_atomic(locked: &mut bool) -> (ok: bool)
    ensures
        ok == !*old(locked),
        *final(locked),
{
    if *locked {
        false
    } else {
        *locked = true;
        true
    }
}

/// Spins until the compare-and-swap takes the binary lock state (acquire
/// ordering on success in the running system).
///
/// A single execution context is only ever granted a lock that is free:
/// acquiring a lock it already holds is a self-deadlock, a spin that never
/// ends, so that state is excluded here.
pub fn lock_atomic(locked: &mut bool)
    requires
        !*old(locked),
    ensures
        *final(locked),
{
    loop
        invariant_except_break
            !*locked,
        ensures
            *locked,
        decreases 1int,
    {
        if try_lock_atomic(locked) {
            break;
        }
    }
}

/// Clears the binary lock state (a release-ordered store in the running
/// system).
pub fn unlock_atomic(locked: &mut bool)
    ensures
        !*final(locked),
{
    *locked = false;
}

// --- What one acquisition or release does to the lock state, as plain
// --- functions of the state and the mode. The exec operations promise
// --- exactly these transitions, and the laws below are stated over them.

/// The lock state after an acquisition completes, given the mode that was
/// read at acquisition time: raw-atomic acquisition takes the state,
/// bring-up acquisition never consults or mutates it.
pub open spec fn lock_step(locked: bool, gate_enabled: bool) -> bool {
    if gate_enabled {
        true
    } else {
        locked
    }
}

/// The release mode a guard captures: release is atomic exactly when the
/// acquisition was. Captured once, at acquisition time.
pub open spec fn guard_mode(gate_enabled: bool) -> bool {
    gate_enabled
}

/// The lock state after a guard is handed back: only a guard that was
/// acquired atomically clears the state; a bring-up guard releases as a
/// no-op.
pub open spec fn unlock_step(locked: bool, unlock_on_drop: bool) -> bool {
    if unlock_on_drop {
        false
    } else {
        locked
    }
}

/// A spin-based mutual-exclusion primitive that owns the value it protects.
///
/// Whether acquisition really drives the binary lock state depends on the
/// mode flag: in bring-up mode the state is never consulted or mutated and the
/// lock behaves as if access were granted immediately, the caller being the
/// sole execution context; in raw-atomic mode the state is the single
/// source of truth.
pub struct RawSpinLock<T> {
    locked: bool,
    data: T,
}

/// A scoped-acquisition handle for a [`RawSpinLock`]. It records one
/// boolean, fixed at acquisition time: whether handing it back must perform
/// a real atomic unlock. The mode flag is never re-read at release, so a
/// guard acquired in bring-up mode releases as a no-op even if raw atomics
/// have been enabled while the guard was outstanding.
pub struct RawSpinLockGuard {
    unlock_on_drop: bool,
}

impl RawSpinLockGuard {
    /// Whether handing this guard back will clear the lock state.
    pub closed spec fn must_unlock(&self) -> bool {
        self.unlock_on_drop
    }

    /// The release mode this guard captured at acquisition time.
    pub fn releases_atomically(&self) -> (r: bool)
        ensures
            r == self.must_unlock(),
    {
        self.unlock_on_drop
    }
}

impl<T> RawSpinLock<T> {
    /// Whether the binary lock state is currently taken.
    pub closed spec fn locked_state(&self) -> bool {
        self.locked
    }

    /// The protected value.
    pub closed spec fn value(&self) -> T {
        self.data
    }

    /// Constructs an unlocked lock owning `data`.
    pub fn new(data: T) -> (s: Self)
        ensures
            !s.locked_state(),
            s.value() == data,
    {
        RawSpinLock { locked: false, data }
    }

    /// Acquires the lock, reading the mode flag once: raw-atomic mode spins
    /// until the compare-and-swap takes the state, bring-up mode changes
    /// nothing at all. The returned guard records which branch was taken,
    /// for use at release.
    ///
    /// With raw atomics enabled, the caller must not already hold this lock:
    /// re-acquisition by the sole execution context is a self-deadlock (the
    /// spin never ends), so that state is excluded here.
    pub fn lock(&mut self, gate: &Gate) -> (g: RawSpinLockGuard)
        requires
            gate.enabled() ==> !old(self).locked_state(),
        ensures
            g.must_unlock() == guard_mode(gate.enabled()),
            final(self).locked_state() == lock_step(old(self).locked_state(), gate.enabled()),
            final(self).value() == old(self).value(),
    {
        let unlock_on_drop = raw_atomics_enabled(gate);
        if unlock_on_drop {
            lock_atomic(&mut self.locked);
        }
        RawSpinLockGuard { unlock_on_drop }
    }

    /// Returns a guard without acquiring the lock or touching the lock
    /// state; handing it back is a no-op as well.
    ///
    /// This is the escape hatch for callers who can guarantee by external
    /// means — single-context execution, or an outer lock already held —
    /// that exclusive access to the protected value is already theirs.
    /// In the running system that guarantee is the caller's alone; here the
    /// exclusive borrow this handle is used with carries it.
    pub fn no_lock(&self) -> (g: RawSpinLockGuard)
        ensures
            !g.must_unlock(),
    {
        RawSpinLockGuard { unlock_on_drop: false }
    }

    /// Releases the lock at the end of the critical section, consuming the
    /// guard (scope exit of the guard in the running system): a guard that
    /// recorded atomic mode clears the lock state with a release-ordered
    /// store, any other guard does nothing. The mode flag is not consulted.
    pub fn unlock(&mut self, g: RawSpinLockGuard)
        ensures
            final(self).locked_state() == unlock_step(
                old(self).locked_state(),
                g.must_unlock(),
            ),
            final(self).value() == old(self).value(),
    {
        if g.unlock_on_drop {
            unlock_atomic(&mut self.locked);
        }
    }

    /// Read access to the protected value while a guard is held (the
    /// guard's dereference in the running system).
    pub fn get<'a>(&'a self, _guard: &RawSpinLockGuard) -> (r: &'a T)
        ensures
            r == self.value(),
    {
        &self.data
    }

    /// Replaces the protected value while a guard is held (the guard's
    /// mutable dereference in the running system — the only way to mutate
    /// the protected value).
    pub fn set(&mut self, _guard: &RawSpinLockGuard, data: T)
        ensures
            final(self).value() == data,
            final(self).locked_state() == old(self).locked_state(),
    {
        self.data = data;
    }

    /// Whether the binary lock state is currently taken. A test-only
    /// observation; production code must not rely on it.
    pub fn is_locked(&self) -> (r: bool)
        ensures
            r == self.locked_state(),
    {
        self.locked
    }
}

/// Bring-up elision: with the mode flag left in bring-up mode, a whole
/// acquire/release cycle never touches the binary lock state.
pub proof fn lemma_bring_up_elision(locked: bool)
    ensures
        lock_step(locked, false) == locked,
        unlock_step(lock_step(locked, false), guard_mode(false)) == locked,
{
}

/// Guard mode stability: a guard acquired in bring-up mode releases as a
/// no-op whatever mode is current at release time — the release mode is
/// captured at acquisition and the mode flag is never re-read. Had release
/// consulted the mode flag instead, raw atomics enabled while the guard was
/// outstanding would clear a state the acquisition never took: the
/// mismatched pair this design rules out.
pub proof fn lemma_guard_mode_stability(locked: bool, gate_at_release: bool)
    ensures
        unlock_step(lock_step(locked, false), guard_mode(false)) == lock_step(locked, false),
        gate_at_release ==> unlock_step(lock_step(locked, false), gate_at_release) == false,
{
}

} // verus!
