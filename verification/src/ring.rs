use vstd::prelude::*;

verus! {

/// Number of frames that may be in flight at once. The frame resource ring
/// holds one slot of {command pool, command buffer, fence, semaphore} per
/// frame in flight.
pub const FRAMES_IN_FLIGHT: usize = 3;

/// The ring slot a frame uses: its counter modulo the ring size.
pub open spec fn spec_slot_at(frame: int) -> int {
    frame % (FRAMES_IN_FLIGHT as int)
}

/// Ring slot for a concrete counter value.
pub fn slot_of(frame_counter: u64) -> (s: usize)
    ensures
        s == spec_slot_at(frame_counter as int),
        s < FRAMES_IN_FLIGHT,
{
    (frame_counter % (FRAMES_IN_FLIGHT as u64)) as usize
}

/// The slot of frame `base + i`, written without the modulo: the slot of
/// `base`, advanced by `i` around the ring.
proof fn lemma_slot_shift(base: int, i: int)
    requires
        base >= 0,
        0 <= i < FRAMES_IN_FLIGHT,
    ensures
        spec_slot_at(base + i) == if spec_slot_at(base) + i < FRAMES_IN_FLIGHT as int {
            spec_slot_at(base) + i
        } else {
            spec_slot_at(base) + i - FRAMES_IN_FLIGHT as int
        },
{
    let m = FRAMES_IN_FLIGHT as int;
    let r = base % m;
    vstd::arithmetic::div_mod::lemma_mod_pos_bound(base, m);
    vstd::arithmetic::div_mod::lemma_add_mod_noop(base, i, m);
    vstd::arithmetic::div_mod::lemma_small_mod(i as nat, m as nat);
    if r + i < m {
        vstd::arithmetic::div_mod::lemma_small_mod((r + i) as nat, m as nat);
    } else {
        vstd::arithmetic::div_mod::lemma_mod_sub_multiples_vanish(r + i, m);
        vstd::arithmetic::div_mod::lemma_small_mod((r + i - m) as nat, m as nat);
    }
}

/// Within any window of `FRAMES_IN_FLIGHT` consecutive frames, two distinct
/// frames never use the same ring slot: a slot is not reused until its
/// previous frame's synchronization has run its course.
pub proof fn lemma_window_slots_distinct(base: int, i: int, j: int)
    requires
        base >= 0,
        0 <= i < FRAMES_IN_FLIGHT,
        0 <= j < FRAMES_IN_FLIGHT,
        i != j,
    ensures
        spec_slot_at(base + i) != spec_slot_at(base + j),
{
    lemma_slot_shift(base, i);
    lemma_slot_shift(base, j);
}

/// Within any window of `FRAMES_IN_FLIGHT` consecutive frames, every ring
/// slot is used by some frame; together with the distinctness of slots in a
/// window, each slot is used exactly once per window.
pub proof fn lemma_window_covers_slots(base: int, s: int)
    requires
        base >= 0,
        0 <= s < FRAMES_IN_FLIGHT,
    ensures
        exists|i: int| 0 <= i < FRAMES_IN_FLIGHT && #[trigger] spec_slot_at(base + i) == s,
{
    let m = FRAMES_IN_FLIGHT as int;
    let r = spec_slot_at(base);
    vstd::arithmetic::div_mod::lemma_mod_pos_bound(base, m);
    let i = if s - r >= 0 {
        s - r
    } else {
        s - r + m
    };
    lemma_slot_shift(base, i);
    assert(0 <= i < FRAMES_IN_FLIGHT && spec_slot_at(base + i) == s);
}

} // verus!
