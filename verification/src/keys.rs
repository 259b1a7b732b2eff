//! From the keyboard, as the window reports it once a tick, to the events
//! that the session takes.

use vstd::prelude::*;
use crate::event::{Event, Phase};
use crate::mode::Modifiers;
use crate::slot::Slot;

verus! {

/// The keyboard during one tick. A key is "pressed" in the one tick in which
/// it goes down, and "held" in every tick in which it is down.
#[derive(Clone, Copy, Debug, PartialEq, Eq, Structural)]
pub struct Keys {
    /// The key of slot 1 was pressed.
    pub slot1: bool,
    /// The key of slot 2 was pressed.
    pub slot2: bool,
    /// The key of slot 3 was pressed.
    pub slot3: bool,
    /// The key of slot 4 was pressed.
    pub slot4: bool,
    /// The key of slot 5 was pressed.
    pub slot5: bool,
    /// The rotation key was pressed.
    pub rotate: bool,
    /// The key that reverses the rotation is held.
    pub reverse: bool,
    /// The delete key was pressed.
    pub delete: bool,
    /// The key that answers yes was pressed.
    pub yes: bool,
    /// The key that answers no was pressed.
    pub no: bool,
    /// The key for the previous entry was pressed.
    pub left: bool,
    /// The key for the next entry was pressed.
    pub right: bool,
    /// The quit key is held, or the window has been closed.
    pub quit: bool,
    /// The key that forces a move is held.
    pub force_move: bool,
    /// The key that forces a copy is held.
    pub force_copy: bool,
}

impl Keys {
    /// The slot whose key was pressed; the lowest one if several were.
    pub open spec fn pressed_slot(self) -> Option<Slot> {
        if self.slot1 {
            Some(Slot::One)
        } else if self.slot2 {
            Some(Slot::Two)
        } else if self.slot3 {
            Some(Slot::Three)
        } else if self.slot4 {
            Some(Slot::Four)
        } else if self.slot5 {
            Some(Slot::Five)
        } else {
            None
        }
    }

    /// The override keys that are held.
    pub open spec fn modifiers(self) -> Modifiers {
        Modifiers { force_move: self.force_move, force_copy: self.force_copy }
    }

    /// The events of a tick while browsing, in the order in which they are
    /// handled: the assignment to a slot, then the rotation, which is
    /// counter-clockwise while the reversing key is held, then the request
    /// to delete, then the change of entry, where previous wins over next.
    pub open spec fn browsing_events(self) -> Seq<Event> {
        let assign = match self.pressed_slot() {
            Some(slot) => seq![Event::AssignToSlot(slot)],
            None => seq![],
        };
        let rotate = if !self.rotate {
            seq![]
        } else if self.reverse {
            seq![Event::RotateCcw]
        } else {
            seq![Event::RotateCw]
        };
        let delete = if self.delete {
            seq![Event::RequestDelete]
        } else {
            seq![]
        };
        let walk = if self.left {
            seq![Event::Previous]
        } else if self.right {
            seq![Event::Next]
        } else {
            seq![]
        };
        assign + rotate + delete + walk
    }

    /// The events of a tick that begins in `phase`. Quit comes alone,
    /// whatever else is pressed. While a deletion waits for its answer only
    /// yes and no count, and yes wins over no. A finished session gets no
    /// event.
    pub open spec fn events_in(self, phase: Phase) -> Seq<Event> {
        match phase {
            Phase::Finished(_) => seq![],
            _ if self.quit => seq![Event::Quit],
            Phase::ConfirmingDelete => if self.yes {
                seq![Event::Confirm]
            } else if self.no {
                seq![Event::Deny]
            } else {
                seq![]
            },
            Phase::Browsing => self.browsing_events(),
        }
    }

    /// The override keys that are held during this tick.
    pub fn held(&self) -> (held: Modifiers)
        ensures
            held == self.modifiers(),
    {
        Modifiers { force_move: self.force_move, force_copy: self.force_copy }
    }

    /// The events of this tick for a session that is in `phase`, in the
    /// order in which the session is to take them.
    pub fn events(&self, phase: Phase) -> (events: Vec<Event>)
        ensures
            events@ == self.events_in(phase),
    {
        let mut events: Vec<Event> = Vec::new();
        match phase {
            Phase::Finished(_) => {},
            Phase::ConfirmingDelete => {
                if self.quit {
                    events.push(Event::Quit);
                } else if self.yes {
                    events.push(Event::Confirm);
                } else if self.no {
                    events.push(Event::Deny);
                }
            },
            Phase::Browsing => {
                if self.quit {
                    events.push(Event::Quit);
                } else {
                    if self.slot1 {
                        events.push(Event::AssignToSlot(Slot::One));
                    } else if self.slot2 {
                        events.push(Event::AssignToSlot(Slot::Two));
                    } else if self.slot3 {
                        events.push(Event::AssignToSlot(Slot::Three));
                    } else if self.slot4 {
                        events.push(Event::AssignToSlot(Slot::Four));
                    } else if self.slot5 {
                        events.push(Event::AssignToSlot(Slot::Five));
                    }
                    if self.rotate {
                        if self.reverse {
                            events.push(Event::RotateCcw);
                        } else {
                            events.push(Event::RotateCw);
                        }
                    }
                    if self.delete {
                        events.push(Event::RequestDelete);
                    }
                    if self.left {
                        events.push(Event::Previous);
                    } else if self.right {
                        events.push(Event::Next);
                    }
                }
            },
        }
        assert(events@ =~= self.events_in(phase));
        events
    }
}

} // verus!
