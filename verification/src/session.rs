//! The triage session: the candidate list, the cursor into it, the preview
//! rotation and the state machine that events drive.

use vstd::prelude::*;
use crate::cursor::{
    clamp_index, clamped_position, next_index, next_position, previous_index, previous_position,
};
use crate::event::{Action, ActionView, Event, ExitReason, Phase};
use crate::mode::{resolve_mode, resolved_mode, Modifiers, TransferMode};
use crate::rotation::Rotation;

verus! {

/// Why a session could not be started.
#[derive(Clone, Copy, Debug, PartialEq, Eq, Structural)]
pub enum SessionError {
    /// No path was supplied.
    NoImages,
}

/// The paths of a list, each as a sequence of characters.
pub open spec fn path_views(paths: Seq<String>) -> Seq<Seq<char>> {
    paths.map_values(|p: String| p@)
}

/// The mathematical model of a session.
pub struct SessionView {
    /// The candidate paths, in the order in which they were supplied.
    pub paths: Seq<Seq<char>>,
    /// The index of the current entry; 0 when the list is empty.
    pub cursor: int,
    /// The rotation of the preview.
    pub rotation: Rotation,
    /// The transfer mode that applies when no override key is held.
    pub default_mode: TransferMode,
    /// The state of the state machine.
    pub phase: Phase,
}

impl SessionView {
    /// The session as it starts: the cursor on the first entry, the preview
    /// upright, browsing.
    pub open spec fn initial(paths: Seq<Seq<char>>, default_mode: TransferMode) -> SessionView {
        SessionView {
            paths,
            cursor: 0,
            rotation: Rotation::Deg0,
            default_mode,
            phase: Phase::Browsing,
        }
    }

    /// The invariant of a session: the cursor is inside a non-empty list, and
    /// the list is empty exactly when the session has ended as "all
    /// processed".
    pub open spec fn valid(self) -> bool {
        &&& self.paths.len() == 0 <==> self.phase == Phase::Finished(ExitReason::AllProcessed)
        &&& self.paths.len() == 0 ==> self.cursor == 0
        &&& self.paths.len() > 0 ==> 0 <= self.cursor < self.paths.len()
    }

    /// The path under the cursor.
    pub open spec fn current(self) -> Seq<char>
        recommends
            0 <= self.cursor < self.paths.len(),
    {
        self.paths[self.cursor]
    }

    /// The session with the cursor on another entry, which is displayed
    /// afresh: upright.
    pub open spec fn moved_to(self, cursor: int) -> SessionView {
        SessionView {
            paths: self.paths,
            cursor,
            rotation: Rotation::Deg0,
            default_mode: self.default_mode,
            phase: self.phase,
        }
    }

    /// The session with the preview turned to `rotation`.
    pub open spec fn turned_to(self, rotation: Rotation) -> SessionView {
        SessionView {
            paths: self.paths,
            cursor: self.cursor,
            rotation,
            default_mode: self.default_mode,
            phase: self.phase,
        }
    }

    /// The session in another phase.
    pub open spec fn in_phase(self, phase: Phase) -> SessionView {
        SessionView {
            paths: self.paths,
            cursor: self.cursor,
            rotation: self.rotation,
            default_mode: self.default_mode,
            phase,
        }
    }

    /// The session after the current entry has left the list: the entries
    /// behind it move up, the cursor stays where it was unless that is now
    /// past the end, in which case it goes to the last entry, and the entry
    /// that is now current is displayed afresh. With nothing left the
    /// session ends as "all processed"; otherwise it browses.
    pub open spec fn without_current(self) -> SessionView {
        let rest = self.paths.remove(self.cursor);
        SessionView {
            paths: rest,
            cursor: clamped_position(self.cursor, rest.len() as int),
            rotation: Rotation::Deg0,
            default_mode: self.default_mode,
            phase: if rest.len() == 0 {
                Phase::Finished(ExitReason::AllProcessed)
            } else {
                Phase::Browsing
            },
        }
    }
}

/// The state that follows `s` on `event`, with the override keys `held`.
///
/// While browsing: next and previous move the cursor cyclically; the two
/// rotations turn the preview; a request to delete opens the confirmation;
/// quit ends the session; the report of a move that succeeded takes the
/// current entry out of the list. An assignment to a slot changes nothing by
/// itself, and neither does the report of a copy or of a failed transfer.
/// While a deletion waits for confirmation, yes takes the current entry out
/// of the list, no returns to browsing, quit ends the session, and every
/// other event is ignored. A finished session ignores every event.
pub open spec fn next_state(s: SessionView, event: Event, held: Modifiers) -> SessionView {
    match s.phase {
        Phase::Browsing => match event {
            Event::Next => s.moved_to(next_position(s.cursor, s.paths.len() as int)),
            Event::Previous => s.moved_to(previous_position(s.cursor, s.paths.len() as int)),
            Event::RotateCw => s.turned_to(s.rotation.clockwise()),
            Event::RotateCcw => s.turned_to(s.rotation.counter_clockwise()),
            Event::RequestDelete => s.in_phase(Phase::ConfirmingDelete),
            Event::Quit => s.in_phase(Phase::Finished(ExitReason::UserQuit)),
            Event::TransferDone { mode: TransferMode::Move, succeeded: true } => s.without_current(),
            _ => s,
        },
        Phase::ConfirmingDelete => match event {
            Event::Confirm => s.without_current(),
            Event::Deny => s.in_phase(Phase::Browsing),
            Event::Quit => s.in_phase(Phase::Finished(ExitReason::UserQuit)),
            _ => s,
        },
        Phase::Finished(_) => s,
    }
}

/// What the caller has to do when `event` arrives in state `s` with the
/// override keys `held`.
pub open spec fn action_for(s: SessionView, event: Event, held: Modifiers) -> ActionView {
    match s.phase {
        Phase::Browsing => match event {
            Event::Next | Event::Previous | Event::RotateCw | Event::RotateCcw => ActionView::Show,
            Event::AssignToSlot(slot) => ActionView::Transfer {
                slot,
                mode: resolved_mode(s.default_mode, held),
            },
            Event::RequestDelete => ActionView::AskConfirm,
            Event::Quit => ActionView::Exit(ExitReason::UserQuit),
            Event::TransferDone { mode: TransferMode::Move, succeeded: true } => if s.paths.len()
                == 1 {
                ActionView::Exit(ExitReason::AllProcessed)
            } else {
                ActionView::Show
            },
            _ => ActionView::Idle,
        },
        Phase::ConfirmingDelete => match event {
            Event::Confirm => ActionView::Delete { path: s.current(), last: s.paths.len() == 1 },
            Event::Quit => ActionView::Exit(ExitReason::UserQuit),
            _ => ActionView::Idle,
        },
        Phase::Finished(_) => ActionView::Idle,
    }
}

/// A triage session over a list of image paths.
#[derive(Debug)]
pub struct Session {
    paths: Vec<String>,
    cursor: usize,
    rotation: Rotation,
    default_mode: TransferMode,
    phase: Phase,
}

impl View for Session {
    type V = SessionView;

    closed spec fn view(&self) -> SessionView {
        SessionView {
            paths: path_views(self.paths@),
            cursor: self.cursor as int,
            rotation: self.rotation,
            default_mode: self.default_mode,
            phase: self.phase,
        }
    }
}

impl Session {
    /// Whether the session satisfies its invariant.
    pub open spec fn wf(&self) -> bool {
        self@.valid()
    }

    /// Starts a session on `paths`, in the order given, with the cursor on
    /// the first of them. Fails if there is none.
    pub fn new(paths: Vec<String>, default_mode: TransferMode) -> (session: Result<
        Session,
        SessionError,
    >)
        ensures
            session is Err <==> paths@.len() == 0,
            session matches Err(e) ==> e == SessionError::NoImages,
            session matches Ok(s) ==> s.wf() && s@ == SessionView::initial(
                path_views(paths@),
                default_mode,
            ),
    {
        if paths.len() == 0 {
            Err(SessionError::NoImages)
        } else {
            Ok(
                Session {
                    paths,
                    cursor: 0,
                    rotation: Rotation::Deg0,
                    default_mode,
                    phase: Phase::Browsing,
                },
            )
        }
    }

    /// The number of entries in the list.
    pub fn len(&self) -> (len: usize)
        ensures
            len == self@.paths.len(),
    {
        self.paths.len()
    }

    /// The entries of the list, in order.
    pub fn paths(&self) -> (paths: &Vec<String>)
        ensures
            path_views(paths@) == self@.paths,
    {
        &self.paths
    }

    /// The index of the current entry; none when the list is empty.
    pub fn cursor(&self) -> (cursor: Option<usize>)
        ensures
            cursor is Some <==> self@.paths.len() > 0,
            cursor matches Some(c) ==> c == self@.cursor,
    {
        if self.paths.len() > 0 {
            Some(self.cursor)
        } else {
            None
        }
    }

    /// The path of the current entry; none when the list is empty.
    pub fn current_path(&self) -> (path: Option<&str>)
        requires
            self.wf(),
        ensures
            path is Some <==> self@.paths.len() > 0,
            path matches Some(p) ==> p@ == self@.current(),
    {
        if self.paths.len() > 0 {
            Some(self.paths[self.cursor].as_str())
        } else {
            None
        }
    }

    /// The place of the current entry for a progress line: its number,
    /// counted from 1, and the number of entries. None when the list is
    /// empty.
    pub fn position(&self) -> (position: Option<(usize, usize)>)
        requires
            self.wf(),
        ensures
            position is Some <==> self@.paths.len() > 0,
            position matches Some(p) ==> p.0 == self@.cursor + 1 && p.1 == self@.paths.len(),
    {
        if self.paths.len() > 0 {
            Some((self.cursor + 1, self.paths.len()))
        } else {
            None
        }
    }

    /// The rotation of the preview.
    pub fn rotation(&self) -> (rotation: Rotation)
        ensures
            rotation == self@.rotation,
    {
        self.rotation
    }

    /// The transfer mode that applies when no override key is held.
    pub fn default_mode(&self) -> (mode: TransferMode)
        ensures
            mode == self@.default_mode,
    {
        self.default_mode
    }

    /// The state of the state machine.
    pub fn phase(&self) -> (phase: Phase)
        ensures
            phase == self@.phase,
    {
        self.phase
    }

    /// Why the session is over; none while it is still running.
    pub fn exit_reason(&self) -> (reason: Option<ExitReason>)
        ensures
            reason == match self@.phase {
                Phase::Finished(r) => Some(r),
                _ => None::<ExitReason>,
            },
    {
        match self.phase {
            Phase::Finished(r) => Some(r),
            _ => None,
        }
    }

    /// Takes the current entry out of the list and hands its path out.
    fn remove_current(&mut self) -> (path: String)
        requires
            old(self).wf(),
            old(self)@.paths.len() > 0,
        ensures
            final(self).wf(),
            final(self)@ == old(self)@.without_current(),
            path@ == old(self)@.current(),
    {
        let path = self.paths.remove(self.cursor);
        self.cursor = clamp_index(self.cursor, self.paths.len());
        self.rotation = Rotation::Deg0;
        self.phase = if self.paths.len() == 0 {
            Phase::Finished(ExitReason::AllProcessed)
        } else {
            Phase::Browsing
        };
        proof {
            assert(path_views(self.paths@) =~= old(self)@.paths.remove(old(self)@.cursor));
        }
        path
    }

    /// Feeds one event into the session, with the override keys as they are
    /// held at that moment, and says what the caller has to do.
    pub fn step(&mut self, event: Event, held: Modifiers) -> (action: Action)
        requires
            old(self).wf(),
        ensures
            final(self).wf(),
            final(self)@ == next_state(old(self)@, event, held),
            action@ == action_for(old(self)@, event, held),
    {
        match self.phase {
            Phase::Browsing => match event {
                Event::Next => {
                    self.cursor = next_index(self.cursor, self.paths.len());
                    self.rotation = Rotation::Deg0;
                    Action::Show
                },
                Event::Previous => {
                    self.cursor = previous_index(self.cursor, self.paths.len());
                    self.rotation = Rotation::Deg0;
                    Action::Show
                },
                Event::RotateCw => {
                    self.rotation = self.rotation.rotate_cw();
                    Action::Show
                },
                Event::RotateCcw => {
                    self.rotation = self.rotation.rotate_ccw();
                    Action::Show
                },
                Event::AssignToSlot(slot) => Action::Transfer {
                    slot,
                    mode: resolve_mode(self.default_mode, held),
                },
                Event::RequestDelete => {
                    self.phase = Phase::ConfirmingDelete;
                    Action::AskConfirm
                },
                Event::Quit => {
                    self.phase = Phase::Finished(ExitReason::UserQuit);
                    Action::Exit(ExitReason::UserQuit)
                },
                Event::TransferDone { mode: TransferMode::Move, succeeded: true } => {
                    let _ = self.remove_current();
                    if self.paths.len() == 0 {
                        Action::Exit(ExitReason::AllProcessed)
                    } else {
                        Action::Show
                    }
                },
                Event::TransferDone { .. } | Event::Confirm | Event::Deny => Action::Idle,
            },
            Phase::ConfirmingDelete => match event {
                Event::Confirm => {
                    let path = self.remove_current();
                    Action::Delete { path, last: self.paths.len() == 0 }
                },
                Event::Deny => {
                    self.phase = Phase::Browsing;
                    Action::Idle
                },
                Event::Quit => {
                    self.phase = Phase::Finished(ExitReason::UserQuit);
                    Action::Exit(ExitReason::UserQuit)
                },
                _ => Action::Idle,
            },
            Phase::Finished(_) => Action::Idle,
        }
    }
}

} // verus!
