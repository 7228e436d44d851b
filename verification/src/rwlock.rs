use vstd::prelude::*;

verus! {

/// Most significant bit of the packed reader/writer word: set while a
/// writer has claimed (or is draining toward) exclusive access.
pub const WRITE_FLAG: u64 = 0x8000_0000_0000_0000;

/// The remaining bits of the packed word: the count of concurrently held
/// read acquisitions. `READER_MASK` is also the largest count the word can
/// represent without spilling into the write flag's bit.
pub const READER_MASK: u64 = 0x7fff_ffff_ffff_ffff;

/// Whether the write flag is set in a packed word.
pub open spec fn write_flag_set(state: u64) -> bool {
    state & WRITE_FLAG != 0
}

/// The reader count held in the low bits of a packed word.
pub open spec fn reader_count(state: u64) -> u64 {
    state & READER_MASK
}

/// One attempt of the read-acquisition loop: admits the reader exactly when
/// the write flag is clear and the incremented count stays out of the
/// flag's bit position. A refused attempt leaves the word untouched — the
/// caller spins and retries; in particular a count at `READER_MASK` can
/// never corrupt the write flag.
pub fn rw_try_read_lock_atomic(state: &mut u64) -> (ok: bool)
    ensures
        ok == (!write_flag_set(*old(state)) && reader_count(*old(state)) < READER_MASK),
        ok ==> *final(state) == *old(state) + 1,
        !ok ==> *final(state) == *old(state),
        write_flag_set(*final(state)) == write_flag_set(*old(state)),
        ok ==> reader_count(*final(state)) == reader_count(*old(state)) + 1,
{
    let current_state: u64 = *state;
    if current_state & WRITE_FLAG != 0 {
        return false;
    }
    proof {
        assert(current_state & 0x8000_0000_0000_0000u64 == 0 ==> current_state
            <= 0x7fff_ffff_ffff_ffffu64) by (bit_vector);
    }
    let next_state: u64 = current_state + 1;
    if next_state & WRITE_FLAG != 0 {
        proof {
            assert((current_state & 0x8000_0000_0000_0000u64 == 0 && ((current_state + 1) as u64)
                & 0x8000_0000_0000_0000u64 != 0) ==> current_state & 0x7fff_ffff_ffff_ffffu64
                == 0x7fff_ffff_ffff_ffffu64) by (bit_vector);
        }
        return false;
    }
    *state = next_state;
    proof {
        assert((current_state & 0x8000_0000_0000_0000u64 == 0 && ((current_state + 1) as u64)
            & 0x8000_0000_0000_0000u64 == 0) ==> (current_state & 0x7fff_ffff_ffff_ffffu64
            < 0x7fff_ffff_ffff_ffffu64 && ((current_state + 1) as u64) & 0x7fff_ffff_ffff_ffffu64
            == (current_state & 0x7fff_ffff_ffff_ffffu64) + 1)) by (bit_vector);
    }
    true
}

/// Acquires shared access: spins until an attempt admits the reader
/// (acquire ordering on success in the running system).
///
/// A single execution context is admitted only if the word can take it
/// now — a set write flag, or a count already at its maximum, would spin
/// forever — so those states are excluded here.
pub fn rw_read_lock_atomic(state: &mut u64)
    requires
        !write_flag_set(*old(state)),
        reader_count(*old(state)) < READER_MASK,
    ensures
        *final(state) == *old(state) + 1,
        !write_flag_set(*final(state)),
        reader_count(*final(state)) == reader_count(*old(state)) + 1,
{
    let ghost entry_state: u64 = *state;
    loop
        invariant_except_break
            *state == entry_state,
            !write_flag_set(*state),
            reader_count(*state) < READER_MASK,
        ensures
            *state == entry_state + 1,
            !write_flag_set(*state),
            reader_count(*state) == reader_count(entry_state) + 1,
        decreases 1int,
    {
        if rw_try_read_lock_atomic(state) {
            break;
        }
    }
}

/// Releases one read acquisition: decrements the packed count (a
/// release-ordered fetch-sub in the running system). Only a context that
/// was admitted as a reader releases, so the count is nonzero.
pub fn rw_read_unlock_atomic(state: &mut u64)
    requires
        reader_count(*old(state)) >= 1,
    ensures
        *final(state) == *old(state) - 1,
        write_flag_set(*final(state)) == write_flag_set(*old(state)),
        reader_count(*final(state)) == reader_count(*old(state)) - 1,
{
    let current_state: u64 = *state;
    proof {
        assert(current_state & 0x7fff_ffff_ffff_ffffu64 >= 1 ==> (current_state >= 1 && ((
        current_state - 1) as u64) & 0x8000_0000_0000_0000u64 == current_state
            & 0x8000_0000_0000_0000u64 && ((current_state - 1) as u64) & 0x7fff_ffff_ffff_ffffu64
            == (current_state & 0x7fff_ffff_ffff_ffffu64) - 1)) by (bit_vector);
    }
    *state = current_state - 1;
}

/// One attempt of the write-acquisition loop: the compare-and-swap that
/// sets the write flag while leaving the reader bits exactly as observed.
/// Succeeds exactly when the flag was clear; already-admitted readers do
/// not block the claim — the writer drains them afterwards.
pub fn rw_try_write_lock_atomic(state: &mut u64) -> (ok: bool)
    ensures
        ok == !write_flag_set(*old(state)),
        ok ==> *final(state) == *old(state) | WRITE_FLAG,
        !ok ==> *final(state) == *old(state),
        write_flag_set(*final(state)),
        reader_count(*final(state)) == reader_count(*old(state)),
{
    let current_state: u64 = *state;
    if current_state & WRITE_FLAG != 0 {
        return false;
    }
    let next_state: u64 = current_state | WRITE_FLAG;
    *state = next_state;
    proof {
        assert((current_state | 0x8000_0000_0000_0000u64) & 0x8000_0000_0000_0000u64 != 0 && (
        current_state | 0x8000_0000_0000_0000u64) & 0x7fff_ffff_ffff_ffffu64 == current_state
            & 0x7fff_ffff_ffff_ffffu64) by (bit_vector);
    }
    true
}

/// Acquires exclusive access: sets the write flag, then spins until the
/// already-admitted readers have drained to zero. New readers are refused
/// from the moment the flag is set, so the count only falls during the
/// drain, and exclusivity is claimed only once it reaches zero.
///
/// A single execution context must hold nothing on this word when it
/// writes-acquires: a set flag or an undrained reader it holds itself
/// would spin forever, so those states are excluded here.
pub fn rw_write_lock_atomic(state: &mut u64)
    requires
        !write_flag_set(*old(state)),
        reader_count(*old(state)) == 0,
    ensures
        write_flag_set(*final(state)),
        reader_count(*final(state)) == 0,
{
    let ghost entry_state: u64 = *state;
    loop
        invariant_except_break
            *state == entry_state,
            !write_flag_set(*state),
        ensures
            write_flag_set(*state),
            reader_count(*state) == reader_count(entry_state),
        decreases 1int,
    {
        if rw_try_write_lock_atomic(state) {
            break;
        }
    }
    while *state & READER_MASK != 0
        invariant
            write_flag_set(*state),
            reader_count(*state) == 0,
        decreases 0int,
    {
    }
}

/// Releases exclusive access: clears the write flag, leaving the reader
/// bits untouched (a release-ordered fetch-and with the flag's complement
/// in the running system).
pub fn rw_write_unlock_atomic(state: &mut u64)
    ensures
        *final(state) == *old(state) & READER_MASK,
        !write_flag_set(*final(state)),
        reader_count(*final(state)) == reader_count(*old(state)),
{
    let current_state: u64 = *state;
    *state = current_state & READER_MASK;
    proof {
        assert((current_state & 0x7fff_ffff_ffff_ffffu64) & 0x8000_0000_0000_0000u64 == 0 && (
        current_state & 0x7fff_ffff_ffff_ffffu64) & 0x7fff_ffff_ffff_ffffu64 == current_state
            & 0x7fff_ffff_ffff_ffffu64) by (bit_vector);
    }
}

} // verus!
