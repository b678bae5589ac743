//! The Minotaur: who is sent in next, and how everyone is sent home.
//!
//! The Minotaur never has two signals under way. It gives a command, waits
//! for the answer, and only then looks at the announcement again. While
//! nothing is announced it admits a guest picked at random. Once it sees the
//! announcement it stops admitting and dismisses every guest, seat by seat,
//! waiting for each answer before it turns to the next seat.

use rand::Rng;
use vstd::prelude::*;
use crate::error::PartyError;

verus! {

/// What the Minotaur does next.
#[derive(Clone, Copy, Debug, PartialEq, Eq, Structural)]
pub enum Command {
    /// Send the guest at this seat into the labyrinth and wait for its answer.
    Admit(usize),
    /// Tell the guest at this seat to go home and wait for its answer.
    Dismiss(usize),
    /// Every guest has answered its dismissal: the party is over.
    Finished,
}

/// The Minotaur as the contracts see it.
pub struct MinotaurView {
    /// How many guests are at the party.
    pub guests: nat,
    /// Whether the Minotaur has seen the announcement and stopped admitting.
    pub draining: bool,
    /// How many dismissals have been answered.
    pub dismissed: nat,
    /// The seat whose answer the Minotaur is waiting for, if any.
    pub awaiting: Option<nat>,
}

impl MinotaurView {
    /// The party has at least two guests, dismissals start only after the
    /// announcement was seen and never pass the last seat, and an answer is
    /// awaited only from a seat at the table: while dismissing, from the
    /// next seat in line.
    pub open spec fn wf(self) -> bool {
        &&& 2 <= self.guests <= usize::MAX
        &&& self.dismissed <= self.guests
        &&& (!self.draining ==> self.dismissed == 0)
        &&& (self.awaiting matches Some(seat) ==> {
            &&& seat < self.guests
            &&& (self.draining ==> seat == self.dismissed)
        })
    }

    /// The Minotaur before the first command.
    pub open spec fn opening(guests: nat) -> MinotaurView {
        MinotaurView { guests, draining: false, dismissed: 0, awaiting: None }
    }

    /// Every guest has answered its dismissal.
    pub open spec fn finished(self) -> bool {
        self.draining && self.dismissed == self.guests && self.awaiting is None
    }

    /// The next command will admit a guest, so a pick is needed.
    pub open spec fn admitting(self, all_guests_have_entered: bool) -> bool {
        self.awaiting is None && !self.draining && !all_guests_have_entered
    }

    /// The command given when the announcement reads `all_guests_have_entered`
    /// and the dice show `pick`.
    ///
    /// No command can be given while an answer is outstanding, and nobody
    /// can be admitted who is not at the table.
    pub open spec fn command(self, all_guests_have_entered: bool, pick: usize) -> Result<
        Command,
        PartyError,
    > {
        if self.awaiting is Some {
            Err(PartyError::ProtocolViolation)
        } else if self.draining || all_guests_have_entered {
            if self.dismissed < self.guests {
                Ok(Command::Dismiss(self.dismissed as usize))
            } else {
                Ok(Command::Finished)
            }
        } else if pick < self.guests {
            Ok(Command::Admit(pick))
        } else {
            Err(PartyError::ProtocolViolation)
        }
    }

    /// The Minotaur after giving that command.
    pub open spec fn after_command(self, all_guests_have_entered: bool, pick: usize) -> MinotaurView {
        match self.command(all_guests_have_entered, pick) {
            Ok(Command::Admit(seat)) => MinotaurView { awaiting: Some(seat as nat), ..self },
            Ok(Command::Dismiss(seat)) => MinotaurView {
                draining: true,
                awaiting: Some(seat as nat),
                ..self
            },
            Ok(Command::Finished) => self,
            Err(_) => self,
        }
    }

    /// Whether an answer from `seat` is the one the Minotaur is waiting for.
    pub open spec fn expects(self, seat: usize) -> bool {
        self.awaiting == Some(seat as nat)
    }

    /// The Minotaur after the guest at `seat` has answered.
    pub open spec fn after_answer(self, seat: usize) -> MinotaurView {
        if self.expects(seat) {
            MinotaurView {
                awaiting: None,
                dismissed: if self.draining {
                    self.dismissed + 1
                } else {
                    self.dismissed
                },
                ..self
            }
        } else {
            self
        }
    }
}

/// Picks a seat at random.
///
/// Calls `rand::thread_rng()` and on it `Rng::gen_range` with the range
/// `0..guests`. The contract claims of it only what holds of every draw:
/// the seat is at the table. `gen_range` panics on an empty range, so the
/// table may not be empty. If the system cannot seed the generator, rand
/// aborts the thread; nothing here recovers from that.
#[verifier::external_body]
fn roll(guests: usize) -> (pick: usize)
    requires
        guests > 0,
    ensures
        pick < guests,
{
    rand::thread_rng().gen_range(0..guests)
}

/// The Minotaur: how many guests there are, how far the dismissals have come,
/// and whose answer is outstanding.
#[derive(Clone, Copy, Debug)]
pub struct Minotaur {
    guests: usize,
    draining: bool,
    dismissed: usize,
    awaiting: Option<usize>,
}

impl View for Minotaur {
    type V = MinotaurView;

    closed spec fn view(&self) -> MinotaurView {
        MinotaurView {
            guests: self.guests as nat,
            draining: self.draining,
            dismissed: self.dismissed as nat,
            awaiting: match self.awaiting {
                Some(seat) => Some(seat as nat),
                None => None,
            },
        }
    }
}

impl Minotaur {
    /// A Minotaur for a party of `guests`.
    ///
    /// Fails when the party has fewer than two guests.
    pub fn new(guests: usize) -> (minotaur: Result<Minotaur, PartyError>)
        ensures
            match minotaur {
                Ok(m) => guests >= 2 && m@.wf() && m@ == MinotaurView::opening(guests as nat),
                Err(e) => guests < 2 && e == PartyError::InvalidConfiguration,
            },
    {
        if guests < 2 {
            return Err(PartyError::InvalidConfiguration);
        }
        Ok(Minotaur { guests, draining: false, dismissed: 0, awaiting: None })
    }

    /// Gives the next command, with `pick` as the seat to admit should the
    /// command be an admission.
    ///
    /// `all_guests_have_entered` is the announcement as the Minotaur reads it
    /// now. Fails, and changes nothing, while an answer is outstanding or
    /// when the pick is needed and is not a seat at the table.
    pub fn command_for(&mut self, all_guests_have_entered: bool, pick: usize) -> (command: Result<
        Command,
        PartyError,
    >)
        requires
            old(self)@.wf(),
        ensures
            command == old(self)@.command(all_guests_have_entered, pick),
            final(self)@ == old(self)@.after_command(all_guests_have_entered, pick),
            final(self)@.wf(),
    {
        if self.awaiting.is_some() {
            return Err(PartyError::ProtocolViolation);
        }
        if self.draining || all_guests_have_entered {
            if self.dismissed < self.guests {
                self.draining = true;
                self.awaiting = Some(self.dismissed);
                Ok(Command::Dismiss(self.dismissed))
            } else {
                Ok(Command::Finished)
            }
        } else if pick < self.guests {
            self.awaiting = Some(pick);
            Ok(Command::Admit(pick))
        } else {
            Err(PartyError::ProtocolViolation)
        }
    }

    /// Gives the next command, rolling the dice when a guest is to be
    /// admitted.
    ///
    /// Whatever the dice show, the command is the one that [`command_for`]
    /// gives for some seat at the table. It fails only while an answer is
    /// outstanding.
    ///
    /// [`command_for`]: Minotaur::command_for
    pub fn next_command(&mut self, all_guests_have_entered: bool) -> (command: Result<
        Command,
        PartyError,
    >)
        requires
            old(self)@.wf(),
        ensures
            exists|pick: usize|
                {
                    &&& pick < old(self)@.guests
                    &&& command == #[trigger] old(self)@.command(all_guests_have_entered, pick)
                    &&& final(self)@ == old(self)@.after_command(all_guests_have_entered, pick)
                },
            command is Err <==> old(self)@.awaiting is Some,
            final(self)@.wf(),
    {
        let pick = if self.awaiting.is_none() && !self.draining && !all_guests_have_entered {
            roll(self.guests)
        } else {
            0
        };
        self.command_for(all_guests_have_entered, pick)
    }

    /// Takes the answer of the guest at `seat`.
    ///
    /// Fails, and changes nothing, unless that is the guest whose answer is
    /// outstanding. An answered dismissal moves the Minotaur on to the next
    /// seat.
    pub fn acknowledge(&mut self, seat: usize) -> (answer: Result<(), PartyError>)
        requires
            old(self)@.wf(),
        ensures
            answer is Ok <==> old(self)@.expects(seat),
            answer matches Err(e) ==> e == PartyError::ProtocolViolation,
            final(self)@ == old(self)@.after_answer(seat),
            final(self)@.wf(),
    {
        match self.awaiting {
            Some(expected) => {
                if expected == seat {
                    self.awaiting = None;
                    if self.draining {
                        self.dismissed = self.dismissed + 1;
                    }
                    Ok(())
                } else {
                    Err(PartyError::ProtocolViolation)
                }
            },
            None => Err(PartyError::ProtocolViolation),
        }
    }

    /// How many guests are at the party.
    pub fn guests(&self) -> (guests: usize)
        ensures
            guests == self@.guests,
    {
        self.guests
    }

    /// Whether every guest has answered its dismissal.
    pub fn is_finished(&self) -> (finished: bool)
        ensures
            finished == self@.finished(),
    {
        self.draining && self.dismissed == self.guests && self.awaiting.is_none()
    }

    /// Whether the Minotaur has seen the announcement and stopped admitting.
    pub fn is_draining(&self) -> (draining: bool)
        ensures
            draining == self@.draining,
    {
        self.draining
    }

    /// How many dismissals have been answered.
    pub fn dismissed(&self) -> (dismissed: usize)
        ensures
            dismissed == self@.dismissed,
    {
        self.dismissed
    }

    /// The seat whose answer is outstanding, if any.
    pub fn awaiting(&self) -> (seat: Option<usize>)
        ensures
            match seat {
                Some(s) => self@.awaiting == Some(s as nat),
                None => self@.awaiting is None,
            },
    {
        self.awaiting
    }
}

} // verus!
