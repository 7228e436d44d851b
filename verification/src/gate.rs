use vstd::prelude::*;

verus! {

/// The process-wide mode flag: `false` is bring-up mode (a single execution
/// context, atomic read-modify-write instructions possibly unsafe), `true`
/// is raw-atomic mode.
///
/// The flag itself is deliberately unsynchronized. It is held as an
/// explicit value and handed by reference to whoever consults it, so the
/// discipline that makes this sound — flip it only while exactly one
/// execution context is running, before any concurrent use — is visible at
/// every call site instead of hiding behind a global.
pub struct Gate {
    raw_atomics: bool,
}

impl Gate {
    /// The mode currently recorded.
    pub closed spec fn enabled(&self) -> bool {
        self.raw_atomics
    }

    /// A fresh mode flag starts in bring-up mode.
    pub fn new() -> (g: Gate)
        ensures
            !g.enabled(),
    {
        Gate { raw_atomics: false }
    }
}

/// Reads the current mode, without any synchronization: a plain flag check,
/// safe once the bring-up sequencing discipline has been respected by the
/// writer of the flag.
pub fn raw_atomics_enabled(gate: &Gate) -> (r: bool)
    ensures
        r == gate.enabled(),
{
    gate.raw_atomics
}

/// Unconditionally switches the mode flag to raw-atomic.
///
/// The caller must guarantee that atomic read-modify-write instructions are
/// safe on the running platform, and that no other execution context is
/// concurrently reading the mode flag or holding any lock built on it — the flip
/// belongs strictly to a single-context phase. The function performs no
/// check and cannot detect misuse; correctness is a caller obligation.
pub fn enable_raw_atomics(gate: &mut Gate)
    ensures
        final(gate).enabled(),
{
    gate.raw_atomics = true;
}

/// Re-initializes the mode flag to bring-up. For test isolation only; not
/// part of the production contract.
pub fn disable_raw_atomics(gate: &mut Gate)
    ensures
        !final(gate).enabled(),
{
    gate.raw_atomics = false;
}

} // verus!
