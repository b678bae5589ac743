//! The state that all guests share.

use vstd::prelude::*;

verus! {

/// What stands at the end of the labyrinth, and what has been announced.
///
/// Nothing here says who may write: the Minotaur lets in one guest at a time,
/// and that alone keeps two guests from touching the plate at once.
#[derive(Clone, Copy, Debug, PartialEq, Eq, Structural)]
pub struct Labyrinth {
    /// Whether the plate holds a cupcake.
    pub cupcake_on_plate: bool,
    /// Whether the counter has announced that the party is over.
    pub all_guests_have_entered: bool,
}

impl Labyrinth {
    /// The labyrinth before the first visit: a cupcake on the plate, nothing
    /// announced.
    pub open spec fn opening() -> Labyrinth {
        Labyrinth { cupcake_on_plate: true, all_guests_have_entered: false }
    }

    /// Sets the table for a new party.
    pub fn new() -> (labyrinth: Labyrinth)
        ensures
            labyrinth == Labyrinth::opening(),
    {
        Labyrinth { cupcake_on_plate: true, all_guests_have_entered: false }
    }
}

} // verus!
