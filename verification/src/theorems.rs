//! What holds of every session, proved from the transition function.

use vstd::prelude::*;
use crate::cursor::{
    lemma_next_previous_cancel, lemma_positions_wrap, next_position, previous_position,
};
use crate::event::{ActionView, Event, ExitReason, Phase};
use crate::mode::{resolved_mode, Modifiers, TransferMode};
use crate::rotation::{lemma_four_turns_are_none, lemma_turns_cancel};
use crate::slot::Slot;
use crate::session::{action_for, next_state, SessionView};

verus! {

/// Every step keeps the invariant: afterwards the cursor is inside the list
/// if the list has an entry, and the session has ended as "all processed" if
/// it has none.
pub proof fn lemma_step_keeps_valid(s: SessionView, event: Event, held: Modifiers)
    requires
        s.valid(),
    ensures
        next_state(s, event, held).valid(),
{
    if s.paths.len() > 0 {
        lemma_positions_wrap(s.cursor, s.paths.len() as int);
    }
}

/// Taking the current entry out of a non-empty list leaves the cursor inside
/// what remains; when nothing remains the session has ended as "all
/// processed".
pub proof fn lemma_removal_keeps_cursor_inside(s: SessionView)
    requires
        s.valid(),
        s.paths.len() > 0,
    ensures
        s.without_current().valid(),
        s.without_current().paths == s.paths.remove(s.cursor),
        s.without_current().paths.len() == s.paths.len() - 1,
        s.without_current().paths.len() > 0 ==> 0 <= s.without_current().cursor
            < s.without_current().paths.len(),
        s.without_current().paths.len() > 0 ==> s.without_current().cursor == if s.cursor
            == s.paths.len() - 1 {
            s.cursor - 1
        } else {
            s.cursor
        },
        s.without_current().paths.len() == 0 ==> s.without_current().phase == Phase::Finished(
            ExitReason::AllProcessed,
        ),
{
}

/// A session whose list is empty is over: it has ended as "all processed",
/// and whatever event arrives, its state stays as it is and the caller is
/// asked to do nothing, so no entry is ever read again.
pub proof fn lemma_empty_list_is_final(s: SessionView, event: Event, held: Modifiers)
    requires
        s.valid(),
        s.paths.len() == 0,
    ensures
        s.phase == Phase::Finished(ExitReason::AllProcessed),
        next_state(s, event, held) == s,
        action_for(s, event, held) == ActionView::Idle,
{
}

/// A finished session ignores every event.
pub proof fn lemma_finished_is_final(s: SessionView, event: Event, held: Modifiers)
    requires
        s.phase is Finished,
    ensures
        next_state(s, event, held) == s,
        action_for(s, event, held) == ActionView::Idle,
{
}

/// While browsing, next followed by previous, and previous followed by
/// next, bring the session back to the entry it was on. A single one of
/// them never leaves the list: at the last entry next wraps to the first,
/// and at the first entry previous wraps to the last. Neither touches the
/// list.
pub proof fn lemma_next_previous_inverse(s: SessionView, first: Modifiers, second: Modifiers)
    requires
        s.valid(),
        s.phase == Phase::Browsing,
    ensures
        next_state(next_state(s, Event::Next, first), Event::Previous, second).cursor == s.cursor,
        next_state(next_state(s, Event::Previous, first), Event::Next, second).cursor == s.cursor,
        next_state(s, Event::Next, first).cursor == if s.cursor == s.paths.len() - 1 {
            0
        } else {
            s.cursor + 1
        },
        next_state(s, Event::Previous, first).cursor == if s.cursor == 0 {
            s.paths.len() - 1
        } else {
            s.cursor - 1
        },
        next_state(s, Event::Next, first).paths == s.paths,
        next_state(s, Event::Previous, first).paths == s.paths,
        next_state(s, Event::Next, first).phase == Phase::Browsing,
        next_state(s, Event::Previous, first).phase == Phase::Browsing,
{
    let len = s.paths.len() as int;
    lemma_positions_wrap(s.cursor, len);
    lemma_next_previous_cancel(s.cursor, len);
}

/// While browsing, four clockwise rotations in a row bring the session back
/// to the state it was in, and so do four counter-clockwise ones.
pub proof fn lemma_four_rotations_restore(s: SessionView, held: Modifiers)
    requires
        s.phase == Phase::Browsing,
    ensures
        next_state(
            next_state(
                next_state(next_state(s, Event::RotateCw, held), Event::RotateCw, held),
                Event::RotateCw,
                held,
            ),
            Event::RotateCw,
            held,
        ) == s,
        next_state(
            next_state(
                next_state(next_state(s, Event::RotateCcw, held), Event::RotateCcw, held),
                Event::RotateCcw,
                held,
            ),
            Event::RotateCcw,
            held,
        ) == s,
{
    lemma_four_turns_are_none(s.rotation);
}

/// While browsing, a counter-clockwise rotation undoes a clockwise one and
/// the other way round: the session is back in the state it was in.
pub proof fn lemma_rotations_are_inverse(s: SessionView, first: Modifiers, second: Modifiers)
    requires
        s.phase == Phase::Browsing,
    ensures
        next_state(next_state(s, Event::RotateCw, first), Event::RotateCcw, second) == s,
        next_state(next_state(s, Event::RotateCcw, first), Event::RotateCw, second) == s,
{
    lemma_turns_cancel(s.rotation);
}

/// Asking for a transfer changes nothing by itself, and neither does the
/// report of a copy, whether it succeeded or not, nor that of a move that
/// failed: the list, its length and the cursor stay as they are.
pub proof fn lemma_copy_and_failure_keep_state(
    s: SessionView,
    event: Event,
    held: Modifiers,
)
    requires
        event is AssignToSlot || (event matches Event::TransferDone { mode, succeeded } && (mode
            == TransferMode::Copy || !succeeded)),
    ensures
        next_state(s, event, held) == s,
{
}

/// While browsing, the report of a move that succeeded shortens the list by
/// exactly one entry: the one that was current leaves, and the others keep
/// their order.
pub proof fn lemma_move_removes_current(s: SessionView, held: Modifiers)
    requires
        s.valid(),
        s.phase == Phase::Browsing,
    ensures
        ({
            let after = next_state(
                s,
                Event::TransferDone { mode: TransferMode::Move, succeeded: true },
                held,
            );
            &&& after.paths.len() == s.paths.len() - 1
            &&& after.paths == s.paths.remove(s.cursor)
            &&& after.paths == s.paths.subrange(0, s.cursor) + s.paths.subrange(
                s.cursor + 1,
                s.paths.len() as int,
            )
        }),
{
}

/// An assignment to a slot, from the key press to the report of its outcome.
/// The key press asks for a transfer of the current entry into the slot's
/// folder, in the mode that the default and the held override keys give, and
/// changes nothing. When the outcome is reported, a move that succeeded
/// shortens the list by exactly the entry that was current; a copy, and a
/// transfer that failed, leave the list and the cursor as they were.
pub proof fn lemma_assignment_round(
    s: SessionView,
    slot: Slot,
    held: Modifiers,
    succeeded: bool,
    held_after: Modifiers,
)
    requires
        s.valid(),
        s.phase == Phase::Browsing,
    ensures
        ({
            let mode = resolved_mode(s.default_mode, held);
            let asked = next_state(s, Event::AssignToSlot(slot), held);
            let done = next_state(asked, Event::TransferDone { mode, succeeded }, held_after);
            &&& action_for(s, Event::AssignToSlot(slot), held) == (ActionView::Transfer {
                slot,
                mode,
            })
            &&& asked == s
            &&& mode == TransferMode::Move && succeeded ==> {
                &&& done.paths.len() == s.paths.len() - 1
                &&& done.paths == s.paths.remove(s.cursor)
                &&& done.valid()
            }
            &&& mode == TransferMode::Copy || !succeeded ==> done == s
        }),
{
}

/// Quit ends a running session at once, also in the middle of a
/// confirmation, and leaves the list as it is.
pub proof fn lemma_quit_ends_session(s: SessionView, held: Modifiers)
    requires
        s.phase == Phase::Browsing || s.phase == Phase::ConfirmingDelete,
    ensures
        next_state(s, Event::Quit, held) == s.in_phase(Phase::Finished(ExitReason::UserQuit)),
        action_for(s, Event::Quit, held) == ActionView::Exit(ExitReason::UserQuit),
{
}

/// A confirmed deletion shortens the list by exactly one entry, the one
/// that was current, and names that entry's path as the file to delete. The
/// entry leaves the list at the confirmation itself, so what becomes of the
/// file afterwards has no part in it.
pub proof fn lemma_confirm_removes_current(s: SessionView, held: Modifiers)
    requires
        s.valid(),
        s.phase == Phase::ConfirmingDelete,
    ensures
        next_state(s, Event::Confirm, held).paths.len() == s.paths.len() - 1,
        next_state(s, Event::Confirm, held).paths == s.paths.remove(s.cursor),
        action_for(s, Event::Confirm, held) == (ActionView::Delete {
            path: s.current(),
            last: s.paths.len() == 1,
        }),
{
}

/// Denying a deletion returns to browsing and changes nothing else.
pub proof fn lemma_deny_restores(s: SessionView, first: Modifiers, second: Modifiers)
    requires
        s.phase == Phase::Browsing,
    ensures
        next_state(next_state(s, Event::RequestDelete, first), Event::Deny, second) == s,
{
}

/// The list only ever shrinks, by at most one entry a step, and the default
/// transfer mode never changes.
pub proof fn lemma_list_only_shrinks(s: SessionView, event: Event, held: Modifiers)
    requires
        s.valid(),
    ensures
        s.paths.len() - 1 <= next_state(s, event, held).paths.len() <= s.paths.len(),
        next_state(s, event, held).default_mode == s.default_mode,
{
}

} // verus!
