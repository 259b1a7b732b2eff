//! Whether an assignment to a slot copies or moves the file.

use vstd::prelude::*;

verus! {

/// What an assignment to a slot does with the source file.
#[derive(Clone, Copy, Debug, PartialEq, Eq, Structural)]
pub enum TransferMode {
    /// The file stays where it is and a copy is put into the folder.
    Copy,
    /// The file is renamed into the folder.
    Move,
}

impl TransferMode {
    /// The default mode that a start-up flag selects: move if the flag is
    /// set, copy if it is not.
    pub fn from_flag(move_by_default: bool) -> (mode: TransferMode)
        ensures
            mode == if move_by_default {
                TransferMode::Move
            } else {
                TransferMode::Copy
            },
    {
        if move_by_default {
            TransferMode::Move
        } else {
            TransferMode::Copy
        }
    }

    /// Whether this mode takes the source file away.
    pub fn is_move(self) -> (moves: bool)
        ensures
            moves == (self == TransferMode::Move),
    {
        match self {
            TransferMode::Move => true,
            TransferMode::Copy => false,
        }
    }
}

/// The two momentary override keys, as they are held during one input tick.
#[derive(Clone, Copy, Debug, PartialEq, Eq, Structural)]
pub struct Modifiers {
    /// The key that forces a move is held.
    pub force_move: bool,
    /// The key that forces a copy is held.
    pub force_copy: bool,
}

/// The mode that applies during a tick: the override that is held beats the
/// default. When both overrides are held at once, copy wins over move.
pub open spec fn resolved_mode(default_mode: TransferMode, held: Modifiers) -> TransferMode {
    if held.force_copy {
        TransferMode::Copy
    } else if held.force_move {
        TransferMode::Move
    } else {
        default_mode
    }
}

/// Computes the transfer mode for one tick from the session default and the
/// override keys that are held.
pub fn resolve_mode(default_mode: TransferMode, held: Modifiers) -> (mode: TransferMode)
    ensures
        mode == resolved_mode(default_mode, held),
{
    if held.force_copy {
        TransferMode::Copy
    } else if held.force_move {
        TransferMode::Move
    } else {
        default_mode
    }
}

} // verus!
