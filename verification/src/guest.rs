//! One guest, and what it does when the Minotaur calls.
//!
//! The Minotaur sends a guest one of two signals: to go inside, or to go
//! home. The guest acts, and answers by returning. A guest who has gone home
//! answers no more.

use vstd::prelude::*;
use crate::error::PartyError;
use crate::labyrinth::Labyrinth;

verus! {

/// The part a guest plays.
#[derive(Clone, Copy, Debug, PartialEq, Eq, Structural)]
pub enum Role {
    /// The one guest who tallies empty plates and has them refilled.
    Counter,
    /// Any other guest: eats one cupcake, once.
    Ordinary,
}

/// What a guest did on one visit.
#[derive(Clone, Copy, Debug, PartialEq, Eq, Structural)]
pub enum Visit {
    /// Found a cupcake, had not eaten one before, and ate it.
    Ate,
    /// Found a cupcake, but had eaten one before: left it.
    LeftCupcake,
    /// An ordinary guest found the plate empty and left it so.
    FoundEmptyPlate,
    /// The counter found the plate empty, had it refilled, and now has this
    /// tally.
    Counted(usize),
    /// The party had been declared over: the guest answers and goes home.
    PartyOver,
}

/// A guest as the contracts see it.
pub struct GuestView {
    /// The guest's seat, counted from zero.
    pub seat: nat,
    /// The part the guest plays.
    pub role: Role,
    /// How many guests are at the party.
    pub guests: nat,
    /// Whether the guest has eaten its one cupcake.
    pub eaten_cupcake: bool,
    /// How many empty plates the guest has tallied.
    pub tally: nat,
    /// Whether the guest has gone home, and answers no more.
    pub gone_home: bool,
}

impl GuestView {
    /// The guest belongs to a party of at least two, the counter sits at seat
    /// zero and nowhere else, and only the counter keeps a tally.
    pub open spec fn wf(self) -> bool {
        &&& self.guests >= 2
        &&& self.seat < self.guests
        &&& (self.role == Role::Counter <==> self.seat == 0)
        &&& (self.role == Role::Ordinary ==> self.tally == 0)
    }

    /// The guest at `seat` before its first visit.
    pub open spec fn arriving(seat: nat, guests: nat) -> GuestView {
        GuestView {
            seat,
            role: if seat == 0 { Role::Counter } else { Role::Ordinary },
            guests,
            eaten_cupcake: false,
            tally: 0,
            gone_home: false,
        }
    }

    /// Whether this visit has the guest eat the cupcake.
    pub open spec fn eats(self, labyrinth: Labyrinth) -> bool {
        &&& !self.gone_home
        &&& !labyrinth.all_guests_have_entered
        &&& labyrinth.cupcake_on_plate
        &&& !self.eaten_cupcake
    }

    /// Whether this visit has the guest tally an empty plate and refill it.
    pub open spec fn counts(self, labyrinth: Labyrinth) -> bool {
        &&& !self.gone_home
        &&& !labyrinth.all_guests_have_entered
        &&& !labyrinth.cupcake_on_plate
        &&& self.role == Role::Counter
    }

    /// What the guest reports of a visit to `labyrinth`. A guest who
    /// has gone home reports nothing: the signal goes unanswered.
    pub open spec fn visit(self, labyrinth: Labyrinth) -> Result<Visit, PartyError> {
        if self.gone_home {
            Err(PartyError::ProtocolViolation)
        } else if labyrinth.all_guests_have_entered {
            Ok(Visit::PartyOver)
        } else if self.counts(labyrinth) {
            Ok(Visit::Counted((self.tally + 1) as usize))
        } else if !labyrinth.cupcake_on_plate {
            Ok(Visit::FoundEmptyPlate)
        } else if self.eats(labyrinth) {
            Ok(Visit::Ate)
        } else {
            Ok(Visit::LeftCupcake)
        }
    }

    /// The guest after a visit to `labyrinth`. Whoever finds the party
    /// declared over goes home.
    pub open spec fn after_visit(self, labyrinth: Labyrinth) -> GuestView {
        if self.gone_home {
            self
        } else if labyrinth.all_guests_have_entered {
            GuestView { gone_home: true, ..self }
        } else if self.counts(labyrinth) {
            GuestView { tally: self.tally + 1, ..self }
        } else if self.eats(labyrinth) {
            GuestView { eaten_cupcake: true, ..self }
        } else {
            self
        }
    }

    /// The labyrinth as the guest leaves it after a visit.
    pub open spec fn leaves(self, labyrinth: Labyrinth) -> Labyrinth {
        if self.counts(labyrinth) {
            Labyrinth {
                cupcake_on_plate: true,
                all_guests_have_entered: self.tally + 1 == self.guests - 1,
            }
        } else if self.eats(labyrinth) {
            Labyrinth { cupcake_on_plate: false, ..labyrinth }
        } else {
            labyrinth
        }
    }

    /// The guest after it has been told to go home.
    pub open spec fn after_dismissal(self) -> GuestView {
        GuestView { gone_home: true, ..self }
    }
}

/// A guest of the party: where it sits, what it has eaten, what it has
/// counted, and whether it is still there.
#[derive(Clone, Copy, Debug)]
pub struct Guest {
    seat: usize,
    role: Role,
    guests: usize,
    eaten_cupcake: bool,
    tally: usize,
    gone_home: bool,
}

impl View for Guest {
    type V = GuestView;

    closed spec fn view(&self) -> GuestView {
        GuestView {
            seat: self.seat as nat,
            role: self.role,
            guests: self.guests as nat,
            eaten_cupcake: self.eaten_cupcake,
            tally: self.tally as nat,
            gone_home: self.gone_home,
        }
    }
}

impl Guest {
    /// Seats a guest at a party of `guests`. Seat zero is the counter's.
    ///
    /// Fails when the party has fewer than two guests or the seat is not at
    /// the table.
    pub fn new(seat: usize, guests: usize) -> (guest: Result<Guest, PartyError>)
        ensures
            match guest {
                Ok(g) => guests >= 2 && seat < guests && g@.wf() && g@ == GuestView::arriving(
                    seat as nat,
                    guests as nat,
                ),
                Err(e) => !(guests >= 2 && seat < guests) && e == PartyError::InvalidConfiguration,
            },
    {
        if guests < 2 || seat >= guests {
            return Err(PartyError::InvalidConfiguration);
        }
        let role = if seat == 0 {
            Role::Counter
        } else {
            Role::Ordinary
        };
        Ok(Guest { seat, role, guests, eaten_cupcake: false, tally: 0, gone_home: false })
    }

    /// Sends the guest into the labyrinth for one visit, and returns what it
    /// reports when it comes out.
    ///
    /// If the party has been declared over the guest touches nothing, says
    /// so, and goes home. If not, the counter tallies and refills an empty
    /// plate, and declares the party over when its tally reaches the number
    /// of the other guests; any guest who finds a cupcake and has not eaten
    /// one eats it; in every other case nothing changes.
    ///
    /// Fails, and changes nothing, when the guest has gone home.
    pub fn send_inside(&mut self, labyrinth: &mut Labyrinth) -> (visit: Result<Visit, PartyError>)
        requires
            old(self)@.wf(),
            old(self)@.tally < usize::MAX,
        ensures
            visit == old(self)@.visit(*old(labyrinth)),
            final(self)@ == old(self)@.after_visit(*old(labyrinth)),
            *final(labyrinth) == old(self)@.leaves(*old(labyrinth)),
            final(self)@.wf(),
    {
        if self.gone_home {
            return Err(PartyError::ProtocolViolation);
        }
        if labyrinth.all_guests_have_entered {
            self.gone_home = true;
            return Ok(Visit::PartyOver);
        }
        if !labyrinth.cupcake_on_plate {
            match self.role {
                Role::Counter => {
                    self.tally = self.tally + 1;
                    labyrinth.cupcake_on_plate = true;
                    if self.tally == self.guests - 1 {
                        labyrinth.all_guests_have_entered = true;
                    }
                    Ok(Visit::Counted(self.tally))
                },
                Role::Ordinary => Ok(Visit::FoundEmptyPlate),
            }
        } else if !self.eaten_cupcake {
            labyrinth.cupcake_on_plate = false;
            self.eaten_cupcake = true;
            Ok(Visit::Ate)
        } else {
            Ok(Visit::LeftCupcake)
        }
    }

    /// Tells the guest to go home. The guest answers and goes.
    ///
    /// Fails, and changes nothing, when the guest has gone home already.
    pub fn send_home(&mut self) -> (answer: Result<(), PartyError>)
        ensures
            answer is Ok <==> !old(self)@.gone_home,
            answer matches Err(e) ==> e == PartyError::ProtocolViolation,
            final(self)@ == old(self)@.after_dismissal(),
    {
        if self.gone_home {
            return Err(PartyError::ProtocolViolation);
        }
        self.gone_home = true;
        Ok(())
    }

    /// The guest's seat.
    pub fn seat(&self) -> (seat: usize)
        ensures
            seat == self@.seat,
    {
        self.seat
    }

    /// The part the guest plays.
    pub fn role(&self) -> (role: Role)
        ensures
            role == self@.role,
    {
        self.role
    }

    /// How many guests are at the party.
    pub fn guests(&self) -> (guests: usize)
        ensures
            guests == self@.guests,
    {
        self.guests
    }

    /// Whether the guest has eaten its cupcake.
    pub fn has_eaten_cupcake(&self) -> (eaten: bool)
        ensures
            eaten == self@.eaten_cupcake,
    {
        self.eaten_cupcake
    }

    /// How many empty plates the guest has tallied.
    pub fn tally(&self) -> (tally: usize)
        ensures
            tally == self@.tally,
    {
        self.tally
    }

    /// Whether the guest has gone home.
    pub fn has_gone_home(&self) -> (gone: bool)
        ensures
            gone == self@.gone_home,
    {
        self.gone_home
    }
}

} // verus!
