use vstd::prelude::*;

use crate::rwlock::READER_MASK;
use crate::rwlock::WRITE_FLAG;
use crate::rwlock::reader_count;
use crate::rwlock::write_flag_set;

verus! {

// === An interleaving model of the atomic algorithms ===
//
// The exec functions of this crate are sequential renderings of single
// atomic operations; what concurrency does to a lock is which order those
// operations fire in. This module models a schedule as a sequence of
// successful operations — a spinning attempt changes nothing, so it is not
// a step — and proves the exclusion properties over every admissible
// schedule, whatever the interleaving of contexts.

// --- The binary spin lock ---

/// The shared word of one binary spin lock in raw-atomic mode, together
/// with how many contexts are currently inside a critical section.
pub ghost struct MutexState {
    pub locked: bool,
    pub holders: nat,
}

/// A successful atomic operation on the lock word, fired by some context.
pub ghost enum MutexStep {
    /// The compare-and-swap of an acquisition succeeding.
    Acquire,
    /// The release store of a context leaving its critical section.
    Release,
}

/// The state a lock starts in: free, nobody inside.
pub open spec fn mutex_init() -> MutexState {
    MutexState { locked: false, holders: 0 }
}

/// When a step can fire: the compare-and-swap only succeeds on a free
/// word (on a taken word the attempt fails and the context spins, changing
/// nothing), and only a context that is inside a critical section
/// releases.
pub open spec fn mutex_enabled(s: MutexState, step: MutexStep) -> bool {
    match step {
        MutexStep::Acquire => !s.locked,
        MutexStep::Release => s.holders >= 1,
    }
}

/// What a step does to the state.
pub open spec fn mutex_apply(s: MutexState, step: MutexStep) -> MutexState {
    match step {
        MutexStep::Acquire => MutexState { locked: true, holders: s.holders + 1 },
        MutexStep::Release => MutexState { locked: false, holders: (s.holders - 1) as nat },
    }
}

/// A schedule is admissible when every step is enabled at the moment it
/// fires.
pub open spec fn mutex_admissible(s: MutexState, steps: Seq<MutexStep>) -> bool
    decreases steps.len(),
{
    steps.len() == 0 || (mutex_enabled(s, steps[0]) && mutex_admissible(
        mutex_apply(s, steps[0]),
        steps.drop_first(),
    ))
}

/// The state a schedule ends in.
pub open spec fn mutex_run(s: MutexState, steps: Seq<MutexStep>) -> MutexState
    decreases steps.len(),
{
    if steps.len() == 0 {
        s
    } else {
        mutex_run(mutex_apply(s, steps[0]), steps.drop_first())
    }
}

/// The invariant behind mutual exclusion: at most one context is inside,
/// and the word is taken exactly while one is.
pub open spec fn mutex_inv(s: MutexState) -> bool {
    s.holders <= 1 && (s.locked <==> s.holders == 1)
}

proof fn lemma_mutex_step_preserves_inv(s: MutexState, step: MutexStep)
    requires
        mutex_inv(s),
        mutex_enabled(s, step),
    ensures
        mutex_inv(mutex_apply(s, step)),
{
}

proof fn lemma_mutex_run_inv(s: MutexState, steps: Seq<MutexStep>)
    requires
        mutex_inv(s),
        mutex_admissible(s, steps),
    ensures
        mutex_inv(mutex_run(s, steps)),
    decreases steps.len(),
{
    if steps.len() > 0 {
        lemma_mutex_step_preserves_inv(s, steps[0]);
        lemma_mutex_run_inv(mutex_apply(s, steps[0]), steps.drop_first());
    }
}

proof fn lemma_mutex_admissible_prefix(s: MutexState, steps: Seq<MutexStep>, i: int)
    requires
        mutex_admissible(s, steps),
        0 <= i <= steps.len(),
    ensures
        mutex_admissible(s, steps.take(i)),
    decreases i,
{
    if i > 0 {
        assert(steps.take(i).drop_first() =~= steps.drop_first().take(i - 1));
        lemma_mutex_admissible_prefix(mutex_apply(s, steps[0]), steps.drop_first(), i - 1);
    }
}

/// Mutual exclusion: along any admissible schedule of raw-atomic
/// acquisitions and releases on one lock, started free, there is no moment
/// at which two contexts are inside their critical sections — the sections
/// never overlap.
pub proof fn lemma_mutual_exclusion(steps: Seq<MutexStep>, i: int)
    requires
        mutex_admissible(mutex_init(), steps),
        0 <= i <= steps.len(),
    ensures
        mutex_run(mutex_init(), steps.take(i)).holders <= 1,
{
    lemma_mutex_admissible_prefix(mutex_init(), steps, i);
    lemma_mutex_run_inv(mutex_init(), steps.take(i));
}

// --- The reader/writer word ---

/// The packed reader/writer word, abstractly: the reader count and the
/// write flag are its two bit fields; `writer_held` is not a bit of the
/// word but records whether a writer's acquisition has completed its
/// drain, i.e. whether some context holds exclusive access.
pub ghost struct RwState {
    pub readers: nat,
    pub write_flag: bool,
    pub writer_held: bool,
}

/// A successful atomic operation on the reader/writer word, or a writer's
/// drain completing.
pub ghost enum RwStep {
    /// The compare-and-swap of a read acquisition succeeding.
    ReadAcquire,
    /// The decrement of a read release.
    ReadRelease,
    /// The compare-and-swap of a write acquisition setting the flag,
    /// reader bits left as observed.
    WriteFlag,
    /// The flag-holding writer observing the count at zero: the drain is
    /// over and its acquisition returns.
    WriteComplete,
    /// The write release clearing the flag.
    WriteRelease,
}

/// The maximum reader count the packed word can represent: one less than
/// the write flag's bit position.
pub open spec fn rw_max_readers() -> nat {
    READER_MASK as nat
}

/// The state the word starts in: no readers, no writer.
pub open spec fn rw_init() -> RwState {
    RwState { readers: 0, write_flag: false, writer_held: false }
}

/// When a step can fire. A read acquisition is refused both by a set
/// write flag and by a count whose increment would reach the flag's bit —
/// either way the context spins, changing nothing. A write acquisition's
/// flag-setting step is refused only by the flag itself: admitted readers
/// do not block it. The drain completes only at count zero, and releases
/// are issued by contexts that hold what they release.
pub open spec fn rw_enabled(s: RwState, step: RwStep) -> bool {
    match step {
        RwStep::ReadAcquire => !s.write_flag && s.readers < rw_max_readers(),
        RwStep::ReadRelease => s.readers >= 1,
        RwStep::WriteFlag => !s.write_flag,
        RwStep::WriteComplete => s.write_flag && !s.writer_held && s.readers == 0,
        RwStep::WriteRelease => s.writer_held,
    }
}

/// What a step does to the state.
pub open spec fn rw_apply(s: RwState, step: RwStep) -> RwState {
    match step {
        RwStep::ReadAcquire => RwState { readers: s.readers + 1, ..s },
        RwStep::ReadRelease => RwState { readers: (s.readers - 1) as nat, ..s },
        RwStep::WriteFlag => RwState { write_flag: true, ..s },
        RwStep::WriteComplete => RwState { writer_held: true, ..s },
        RwStep::WriteRelease => RwState { write_flag: false, writer_held: false, ..s },
    }
}

/// A schedule is admissible when every step is enabled at the moment it
/// fires.
pub open spec fn rw_admissible(s: RwState, steps: Seq<RwStep>) -> bool
    decreases steps.len(),
{
    steps.len() == 0 || (rw_enabled(s, steps[0]) && rw_admissible(
        rw_apply(s, steps[0]),
        steps.drop_first(),
    ))
}

/// The state a schedule ends in.
pub open spec fn rw_run(s: RwState, steps: Seq<RwStep>) -> RwState
    decreases steps.len(),
{
    if steps.len() == 0 {
        s
    } else {
        rw_run(rw_apply(s, steps[0]), steps.drop_first())
    }
}

/// The invariant behind reader/writer exclusion: the count never spills
/// into the flag's bit, exclusive access is only held under a set flag,
/// and never while any reader is still counted.
pub open spec fn rw_inv(s: RwState) -> bool {
    s.readers <= rw_max_readers() && (s.writer_held ==> s.write_flag && s.readers == 0)
}

proof fn lemma_rw_step_preserves_inv(s: RwState, step: RwStep)
    requires
        rw_inv(s),
        rw_enabled(s, step),
    ensures
        rw_inv(rw_apply(s, step)),
{
}

proof fn lemma_rw_run_inv(s: RwState, steps: Seq<RwStep>)
    requires
        rw_inv(s),
        rw_admissible(s, steps),
    ensures
        rw_inv(rw_run(s, steps)),
    decreases steps.len(),
{
    if steps.len() > 0 {
        lemma_rw_step_preserves_inv(s, steps[0]);
        lemma_rw_run_inv(rw_apply(s, steps[0]), steps.drop_first());
    }
}

proof fn lemma_rw_admissible_prefix(s: RwState, steps: Seq<RwStep>, i: int)
    requires
        rw_admissible(s, steps),
        0 <= i <= steps.len(),
    ensures
        rw_admissible(s, steps.take(i)),
    decreases i,
{
    if i > 0 {
        assert(steps.take(i).drop_first() =~= steps.drop_first().take(i - 1));
        lemma_rw_admissible_prefix(rw_apply(s, steps[0]), steps.drop_first(), i - 1);
    }
}

/// Reader/writer exclusion: along any admissible schedule from the initial
/// state, there is no moment at which a context holds exclusive write
/// access while the reader count is nonzero. (While a writer is still
/// draining — flag set, acquisition not yet returned — already-admitted
/// readers may remain counted; the design accepts that interval and
/// claims exclusivity only once the count has reached zero. The count can
/// never rise under a set flag.)
pub proof fn lemma_reader_writer_exclusion(steps: Seq<RwStep>, i: int)
    requires
        rw_admissible(rw_init(), steps),
        0 <= i <= steps.len(),
    ensures
        ({
            let s = rw_run(rw_init(), steps.take(i));
            s.writer_held ==> s.write_flag && s.readers == 0
        }),
{
    lemma_rw_admissible_prefix(rw_init(), steps, i);
    lemma_rw_run_inv(rw_init(), steps.take(i));
}

/// The abstract view of a packed reader/writer word: its two bit fields,
/// together with whether some context has completed a write acquisition
/// (program state, not a bit of the word).
pub open spec fn rw_abs(state: u64, writer_held: bool) -> RwState {
    RwState {
        readers: reader_count(state) as nat,
        write_flag: write_flag_set(state),
        writer_held: writer_held,
    }
}

/// A successful read-admission compare-and-swap on the packed word is
/// exactly the model's `ReadAcquire` step: the step is enabled under the
/// conditions on which the attempt succeeds, and incrementing the word is
/// applying it.
pub proof fn lemma_read_admission_refines(state: u64, writer_held: bool)
    requires
        !write_flag_set(state),
        reader_count(state) < READER_MASK,
    ensures
        rw_enabled(rw_abs(state, writer_held), RwStep::ReadAcquire),
        rw_abs((state + 1) as u64, writer_held) == rw_apply(
            rw_abs(state, writer_held),
            RwStep::ReadAcquire,
        ),
{
    assert((state & 0x8000_0000_0000_0000u64 == 0 && state & 0x7fff_ffff_ffff_ffffu64
        < 0x7fff_ffff_ffff_ffffu64) ==> (((state + 1) as u64) & 0x8000_0000_0000_0000u64 == 0 && ((
    state + 1) as u64) & 0x7fff_ffff_ffff_ffffu64 == (state & 0x7fff_ffff_ffff_ffffu64) + 1))
        by (bit_vector);
}

/// A read-release decrement on the packed word is exactly the model's
/// `ReadRelease` step.
pub proof fn lemma_read_release_refines(state: u64, writer_held: bool)
    requires
        reader_count(state) >= 1,
    ensures
        rw_enabled(rw_abs(state, writer_held), RwStep::ReadRelease),
        rw_abs((state - 1) as u64, writer_held) == rw_apply(
            rw_abs(state, writer_held),
            RwStep::ReadRelease,
        ),
{
    assert(state & 0x7fff_ffff_ffff_ffffu64 >= 1 ==> (state >= 1 && ((state - 1) as u64)
        & 0x8000_0000_0000_0000u64 == state & 0x8000_0000_0000_0000u64 && ((state - 1) as u64)
        & 0x7fff_ffff_ffff_ffffu64 == (state & 0x7fff_ffff_ffff_ffffu64) - 1)) by (bit_vector);
}

/// The flag-setting compare-and-swap of a write acquisition is exactly the
/// model's `WriteFlag` step: the flag goes up, the reader bits stay as
/// observed.
pub proof fn lemma_write_claim_refines(state: u64, writer_held: bool)
    requires
        !write_flag_set(state),
    ensures
        rw_enabled(rw_abs(state, writer_held), RwStep::WriteFlag),
        rw_abs(state | WRITE_FLAG, writer_held) == rw_apply(
            rw_abs(state, writer_held),
            RwStep::WriteFlag,
        ),
{
    assert((state | 0x8000_0000_0000_0000u64) & 0x8000_0000_0000_0000u64 != 0 && (state
        | 0x8000_0000_0000_0000u64) & 0x7fff_ffff_ffff_ffffu64 == state
        & 0x7fff_ffff_ffff_ffffu64) by (bit_vector);
}

/// Clearing the flag at write release is exactly the model's
/// `WriteRelease` step: the reader bits are left untouched.
pub proof fn lemma_write_release_refines(state: u64)
    ensures
        rw_enabled(rw_abs(state, true), RwStep::WriteRelease),
        rw_abs(state & READER_MASK, false) == rw_apply(rw_abs(state, true), RwStep::WriteRelease),
{
    assert((state & 0x7fff_ffff_ffff_ffffu64) & 0x8000_0000_0000_0000u64 == 0 && (state
        & 0x7fff_ffff_ffff_ffffu64) & 0x7fff_ffff_ffff_ffffu64 == state
        & 0x7fff_ffff_ffff_ffffu64) by (bit_vector);
}

/// Counter overflow safety: with the reader count at its maximum — just
/// below the write flag's bit — one more read acquisition is not enabled;
/// the attempt spins and the word, write flag included, is untouched.
/// Releasing a single reader enables it again.
pub proof fn lemma_reader_count_overflow_safety(s: RwState)
    requires
        !s.write_flag,
        s.readers == rw_max_readers(),
    ensures
        !rw_enabled(s, RwStep::ReadAcquire),
        rw_enabled(s, RwStep::ReadRelease),
        rw_enabled(rw_apply(s, RwStep::ReadRelease), RwStep::ReadAcquire),
{
    assert(0x7fff_ffff_ffff_ffffu64 >= 1) by (bit_vector);
}

} // verus!
