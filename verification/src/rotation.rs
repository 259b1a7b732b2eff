//! The rotation of the preview: a display transform in quarter turns that is
//! never applied to the stored file.

use vstd::prelude::*;

verus! {

/// How far the preview is turned clockwise.
#[derive(Clone, Copy, Debug, PartialEq, Eq, Structural)]
pub enum Rotation {
    /// Upright.
    Deg0,
    /// A quarter turn clockwise.
    Deg90,
    /// Upside down.
    Deg180,
    /// A quarter turn counter-clockwise.
    Deg270,
}

impl Rotation {
    /// The rotation in degrees: one of 0, 90, 180 and 270.
    pub open spec fn spec_degrees(self) -> int {
        match self {
            Rotation::Deg0 => 0,
            Rotation::Deg90 => 90,
            Rotation::Deg180 => 180,
            Rotation::Deg270 => 270,
        }
    }

    /// The rotation that has the given number of degrees; upright for a
    /// number that is none of 0, 90, 180 and 270.
    pub open spec fn of_degrees(degrees: int) -> Rotation {
        if degrees == 90 {
            Rotation::Deg90
        } else if degrees == 180 {
            Rotation::Deg180
        } else if degrees == 270 {
            Rotation::Deg270
        } else {
            Rotation::Deg0
        }
    }

    /// This rotation after one more quarter turn clockwise.
    pub open spec fn clockwise(self) -> Rotation {
        Rotation::of_degrees((self.spec_degrees() + 90) % 360)
    }

    /// This rotation after one quarter turn counter-clockwise.
    pub open spec fn counter_clockwise(self) -> Rotation {
        Rotation::of_degrees((self.spec_degrees() - 90 + 360) % 360)
    }

    /// The rotation in degrees.
    pub fn degrees(self) -> (degrees: u16)
        ensures
            degrees == self.spec_degrees(),
    {
        match self {
            Rotation::Deg0 => 0,
            Rotation::Deg90 => 90,
            Rotation::Deg180 => 180,
            Rotation::Deg270 => 270,
        }
    }

    /// The rotation with the given number of degrees, if it is a whole
    /// number of quarter turns below a full turn.
    pub fn from_degrees(degrees: u16) -> (rotation: Option<Rotation>)
        ensures
            rotation is Some <==> (degrees == 0 || degrees == 90 || degrees == 180 || degrees
                == 270),
            rotation matches Some(r) ==> r.spec_degrees() == degrees,
    {
        if degrees == 0 {
            Some(Rotation::Deg0)
        } else if degrees == 90 {
            Some(Rotation::Deg90)
        } else if degrees == 180 {
            Some(Rotation::Deg180)
        } else if degrees == 270 {
            Some(Rotation::Deg270)
        } else {
            None
        }
    }

    /// Turns the preview a quarter turn clockwise.
    pub fn rotate_cw(self) -> (turned: Rotation)
        ensures
            turned == self.clockwise(),
            turned.spec_degrees() == (self.spec_degrees() + 90) % 360,
    {
        match self {
            Rotation::Deg0 => Rotation::Deg90,
            Rotation::Deg90 => Rotation::Deg180,
            Rotation::Deg180 => Rotation::Deg270,
            Rotation::Deg270 => Rotation::Deg0,
        }
    }

    /// Turns the preview a quarter turn counter-clockwise.
    pub fn rotate_ccw(self) -> (turned: Rotation)
        ensures
            turned == self.counter_clockwise(),
            turned.spec_degrees() == (self.spec_degrees() - 90 + 360) % 360,
    {
        match self {
            Rotation::Deg0 => Rotation::Deg270,
            Rotation::Deg90 => Rotation::Deg0,
            Rotation::Deg180 => Rotation::Deg90,
            Rotation::Deg270 => Rotation::Deg180,
        }
    }
}

/// Four quarter turns clockwise, and four counter-clockwise, bring the
/// preview back to where it was.
pub proof fn lemma_four_turns_are_none(r: Rotation)
    ensures
        r.clockwise().clockwise().clockwise().clockwise() == r,
        r.counter_clockwise().counter_clockwise().counter_clockwise().counter_clockwise() == r,
{
}

/// A quarter turn counter-clockwise undoes a quarter turn clockwise, and
/// the other way round.
pub proof fn lemma_turns_cancel(r: Rotation)
    ensures
        r.clockwise().counter_clockwise() == r,
        r.counter_clockwise().clockwise() == r,
{
}

/// Turning keeps the rotation a whole number of quarter turns below a full
/// turn, and changes it by 90 degrees modulo 360.
pub proof fn lemma_turn_degrees(r: Rotation)
    ensures
        r.spec_degrees() == 0 || r.spec_degrees() == 90 || r.spec_degrees() == 180
            || r.spec_degrees() == 270,
        r.clockwise().spec_degrees() == (r.spec_degrees() + 90) % 360,
        r.counter_clockwise().spec_degrees() == (r.spec_degrees() - 90 + 360) % 360,
{
}

} // verus!
