//! Index arithmetic for the cursor into the candidate list.

use vstd::prelude::*;
use vstd::arithmetic::div_mod::{lemma_mod_add_multiples_vanish, lemma_mod_self_0, lemma_small_mod};

verus! {

/// The position after `cursor` in a list of `len` entries; after the last
/// entry comes the first.
pub open spec fn next_position(cursor: int, len: int) -> int {
    (cursor + 1) % len
}

/// The position before `cursor` in a list of `len` entries; before the first
/// entry comes the last.
pub open spec fn previous_position(cursor: int, len: int) -> int {
    (cursor - 1 + len) % len
}

/// Where the cursor stands once the list has shrunk to `len` entries: where
/// it stood if that is still inside the list, else on the last entry. With
/// no entry left it rests at 0.
pub open spec fn clamped_position(cursor: int, len: int) -> int {
    if len <= 0 {
        0
    } else if cursor <= len - 1 {
        cursor
    } else {
        len - 1
    }
}

/// Inside a list, the next position is the following index, or 0 after the
/// last entry; the previous position is the preceding index, or the last
/// index before the first entry. Neither leaves the list.
pub proof fn lemma_positions_wrap(cursor: int, len: int)
    requires
        0 <= cursor < len,
    ensures
        next_position(cursor, len) == if cursor == len - 1 {
            0
        } else {
            cursor + 1
        },
        previous_position(cursor, len) == if cursor == 0 {
            len - 1
        } else {
            cursor - 1
        },
        0 <= next_position(cursor, len) < len,
        0 <= previous_position(cursor, len) < len,
{
    if cursor == len - 1 {
        lemma_mod_self_0(len);
    } else {
        lemma_small_mod((cursor + 1) as nat, len as nat);
    }
    if cursor == 0 {
        lemma_small_mod((len - 1) as nat, len as nat);
    } else {
        lemma_mod_add_multiples_vanish(cursor - 1, len);
        lemma_small_mod((cursor - 1) as nat, len as nat);
    }
}

/// Inside a list, going forward and then back, or back and then forward,
/// ends where it began.
pub proof fn lemma_next_previous_cancel(cursor: int, len: int)
    requires
        0 <= cursor < len,
    ensures
        previous_position(next_position(cursor, len), len) == cursor,
        next_position(previous_position(cursor, len), len) == cursor,
{
    lemma_positions_wrap(cursor, len);
    lemma_positions_wrap(next_position(cursor, len), len);
    lemma_positions_wrap(previous_position(cursor, len), len);
}

/// Moves the cursor one entry forward, wrapping to the first entry.
pub fn next_index(cursor: usize, len: usize) -> (next: usize)
    requires
        cursor < len,
    ensures
        next == next_position(cursor as int, len as int),
        next < len,
{
    proof {
        lemma_positions_wrap(cursor as int, len as int);
    }
    if cursor != len - 1 {
        cursor + 1
    } else {
        0
    }
}

/// Moves the cursor one entry back, wrapping to the last entry.
pub fn previous_index(cursor: usize, len: usize) -> (previous: usize)
    requires
        cursor < len,
    ensures
        previous == previous_position(cursor as int, len as int),
        previous < len,
{
    proof {
        lemma_positions_wrap(cursor as int, len as int);
    }
    if cursor != 0 {
        cursor - 1
    } else {
        len - 1
    }
}

/// Puts the cursor back inside a list that has shrunk to `len` entries.
pub fn clamp_index(cursor: usize, len: usize) -> (clamped: usize)
    ensures
        clamped == clamped_position(cursor as int, len as int),
        len > 0 ==> clamped < len,
{
    if len == 0 {
        0
    } else if cursor >= len {
        len - 1
    } else {
        cursor
    }
}

} // verus!
