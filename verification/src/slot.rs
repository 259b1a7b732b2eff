//! The five destination slots and the folders they stand for.

use vstd::prelude::*;
use vstd::string::*;

verus! {

/// One of the five destinations that an image can be assigned to.
#[derive(Clone, Copy, Debug, PartialEq, Eq, Structural)]
pub enum Slot {
    /// Slot 1.
    One,
    /// Slot 2.
    Two,
    /// Slot 3.
    Three,
    /// Slot 4.
    Four,
    /// Slot 5.
    Five,
}

/// The name of the folder behind a slot: `fs` and the slot's number.
pub open spec fn folder_name(slot: Slot) -> Seq<char> {
    seq!['f', 's', slot.digit()]
}

/// The path of a file named `file_name` inside `folder`.
pub open spec fn joined_path(folder: Seq<char>, file_name: Seq<char>) -> Seq<char> {
    folder + seq!['/'] + file_name
}

impl Slot {
    /// The slot's number, from 1 to 5.
    pub open spec fn spec_number(self) -> int {
        match self {
            Slot::One => 1,
            Slot::Two => 2,
            Slot::Three => 3,
            Slot::Four => 4,
            Slot::Five => 5,
        }
    }

    /// The slot's number as a decimal digit.
    pub open spec fn digit(self) -> char {
        match self {
            Slot::One => '1',
            Slot::Two => '2',
            Slot::Three => '3',
            Slot::Four => '4',
            Slot::Five => '5',
        }
    }

    /// The slot with the given number, if the number is one of 1 to 5.
    pub fn from_number(number: u8) -> (slot: Option<Slot>)
        ensures
            slot is Some <==> 1 <= number <= 5,
            slot matches Some(s) ==> s.spec_number() == number,
    {
        if number == 1 {
            Some(Slot::One)
        } else if number == 2 {
            Some(Slot::Two)
        } else if number == 3 {
            Some(Slot::Three)
        } else if number == 4 {
            Some(Slot::Four)
        } else if number == 5 {
            Some(Slot::Five)
        } else {
            None
        }
    }

    /// The slot's number, from 1 to 5.
    pub fn number(self) -> (number: u8)
        ensures
            number == self.spec_number(),
            1 <= number <= 5,
    {
        match self {
            Slot::One => 1,
            Slot::Two => 2,
            Slot::Three => 3,
            Slot::Four => 4,
            Slot::Five => 5,
        }
    }

    /// The name of the folder that files assigned to this slot go to.
    pub fn folder(self) -> (name: String)
        ensures
            name@ == folder_name(self),
    {
        proof {
            reveal_strlit("fs1");
            reveal_strlit("fs2");
            reveal_strlit("fs3");
            reveal_strlit("fs4");
            reveal_strlit("fs5");
        }
        let name = match self {
            Slot::One => "fs1".to_owned(),
            Slot::Two => "fs2".to_owned(),
            Slot::Three => "fs3".to_owned(),
            Slot::Four => "fs4".to_owned(),
            Slot::Five => "fs5".to_owned(),
        };
        assert(name@ =~= folder_name(self));
        name
    }
}

/// The path under which a file named `file_name` is stored in `folder`.
pub fn destination_path(folder: &str, file_name: &str) -> (path: String)
    ensures
        path@ == joined_path(folder@, file_name@),
{
    proof {
        reveal_strlit("/");
    }
    let mut path = folder.to_owned();
    path.append("/");
    path.append(file_name);
    assert(path@ =~= joined_path(folder@, file_name@));
    path
}

} // verus!
