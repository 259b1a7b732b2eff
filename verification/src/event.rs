//! What goes into the session (events) and what comes out of it (actions).

use vstd::prelude::*;
use crate::mode::TransferMode;
use crate::slot::Slot;

verus! {

/// Why a session is over.
#[derive(Clone, Copy, Debug, PartialEq, Eq, Structural)]
pub enum ExitReason {
    /// The user asked to quit.
    UserQuit,
    /// The last entry left the list: every image has been dealt with.
    AllProcessed,
}

/// The state of the session's state machine.
#[derive(Clone, Copy, Debug, PartialEq, Eq, Structural)]
pub enum Phase {
    /// Normal operation: every event is accepted.
    Browsing,
    /// A deletion was requested and waits for yes, no or quit.
    ConfirmingDelete,
    /// The session is over and accepts nothing more.
    Finished(ExitReason),
}

/// One discrete input to the session: an edge-triggered key press, or the
/// outcome of a transfer that the session asked for.
#[derive(Clone, Copy, Debug, PartialEq, Eq, Structural)]
pub enum Event {
    /// Go to the next entry.
    Next,
    /// Go to the previous entry.
    Previous,
    /// Turn the preview a quarter turn clockwise.
    RotateCw,
    /// Turn the preview a quarter turn counter-clockwise.
    RotateCcw,
    /// Copy or move the current entry into the folder of a slot.
    AssignToSlot(Slot),
    /// Ask to delete the current entry.
    RequestDelete,
    /// Answer yes to the pending deletion.
    Confirm,
    /// Answer no to the pending deletion.
    Deny,
    /// End the session.
    Quit,
    /// The transfer of the current entry, in the given mode, has run.
    TransferDone {
        /// The mode in which the transfer ran.
        mode: TransferMode,
        /// Whether the folder could be made and the file copied or moved.
        succeeded: bool,
    },
}

/// What the caller has to do after a step of the session.
#[derive(Debug, PartialEq, Eq)]
pub enum Action {
    /// Nothing.
    Idle,
    /// Display the current entry, fitted to the window, turned by the
    /// session's rotation.
    Show,
    /// Copy or move the current entry into the slot's folder, creating the
    /// folder if it is absent, and hand the outcome back as
    /// `Event::TransferDone` with this mode.
    Transfer {
        /// The slot whose folder receives the file.
        slot: Slot,
        /// Whether to copy or to move.
        mode: TransferMode,
    },
    /// Ask the user to confirm the deletion of the current entry.
    AskConfirm,
    /// Delete the file at `path`, which has left the list; a failure is
    /// reported and otherwise ignored. Afterwards end the session as "all
    /// processed" if `last` is set, else display the current entry.
    Delete {
        /// The path of the file to delete.
        path: String,
        /// Whether the list is empty now.
        last: bool,
    },
    /// End the session for the given reason.
    Exit(ExitReason),
}

/// The mathematical model of an action: the same variants, with the path
/// as a sequence of characters.
pub enum ActionView {
    /// Models `Action::Idle`.
    Idle,
    /// Models `Action::Show`.
    Show,
    /// Models `Action::Transfer`.
    Transfer { slot: Slot, mode: TransferMode },
    /// Models `Action::AskConfirm`.
    AskConfirm,
    /// Models `Action::Delete`.
    Delete { path: Seq<char>, last: bool },
    /// Models `Action::Exit`.
    Exit(ExitReason),
}

impl View for Action {
    type V = ActionView;

    open spec fn view(&self) -> ActionView {
        match *self {
            Action::Idle => ActionView::Idle,
            Action::Show => ActionView::Show,
            Action::Transfer { slot, mode } => ActionView::Transfer { slot, mode },
            Action::AskConfirm => ActionView::AskConfirm,
            Action::Delete { path, last } => ActionView::Delete { path: path@, last },
            Action::Exit(reason) => ActionView::Exit(reason),
        }
    }
}

} // verus!
