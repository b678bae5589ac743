//! The whole party, played turn by turn.
//!
//! A turn is one command of the Minotaur, carried out and answered: a guest
//! visits the labyrinth, or a guest is sent home. Because a turn ends before
//! the next begins, the plate is never touched by two guests at once.

use vstd::prelude::*;
use crate::error::PartyError;
use crate::guest::{Guest, GuestView, Visit};
use crate::labyrinth::Labyrinth;
use crate::minotaur::{Command, Minotaur, MinotaurView};

verus! {

/// What happened in one turn.
#[derive(Clone, Copy, Debug, PartialEq, Eq, Structural)]
pub enum Event {
    /// The guest at `seat` was admitted, and reported `visit`.
    Visited { seat: usize, visit: Visit },
    /// The guest at `seat` was sent home, and answered.
    Dismissed { seat: usize },
}

/// A party as the contracts see it.
pub struct PartyView {
    /// The plate and the announcement.
    pub labyrinth: Labyrinth,
    /// The guests, by seat.
    pub guests: Seq<GuestView>,
    /// The Minotaur.
    pub minotaur: MinotaurView,
}

impl PartyView {
    /// The party before the first turn.
    pub open spec fn opening(guests: nat) -> PartyView {
        PartyView {
            labyrinth: Labyrinth::opening(),
            guests: Seq::new(guests, |seat: int| GuestView::arriving(seat as nat, guests)),
            minotaur: MinotaurView::opening(guests),
        }
    }

    /// The counter's tally.
    pub open spec fn tally(self) -> nat {
        self.guests[0].tally
    }

    /// Every guest sits at its own seat of this table; no answer is
    /// outstanding; the announcement is made exactly when the tally is the
    /// number of guests but one, and is never passed; the Minotaur
    /// dismisses only after the announcement; and the guests who have gone
    /// home are those it has dismissed.
    pub open spec fn wf(self) -> bool {
        &&& self.minotaur.wf()
        &&& self.minotaur.awaiting is None
        &&& self.guests.len() == self.minotaur.guests
        &&& forall|seat: int|
            0 <= seat < self.guests.len() ==> {
                &&& (#[trigger] self.guests[seat]).wf()
                &&& self.guests[seat].seat == seat
                &&& self.guests[seat].guests == self.minotaur.guests
                &&& (self.guests[seat].gone_home <==> seat < self.minotaur.dismissed)
            }
        &&& self.tally() <= self.minotaur.guests - 1
        &&& (self.labyrinth.all_guests_have_entered <==> self.tally() == self.minotaur.guests - 1)
        &&& (self.minotaur.draining ==> self.labyrinth.all_guests_have_entered)
    }

    /// The party is over: every guest has answered its dismissal.
    pub open spec fn finished(self) -> bool {
        self.minotaur.finished()
    }

    /// The command that opens the next turn when the dice show `pick`.
    pub open spec fn command(self, pick: usize) -> Result<Command, PartyError> {
        self.minotaur.command(self.labyrinth.all_guests_have_entered, pick)
    }

    /// What the next turn brings when the dice show `pick`: an event, nothing
    /// because the party is over, or a refusal.
    pub open spec fn outcome(self, pick: usize) -> Result<Option<Event>, PartyError> {
        match self.command(pick) {
            Ok(Command::Admit(seat)) => match self.guests[seat as int].visit(self.labyrinth) {
                Ok(visit) => Ok(Some(Event::Visited { seat, visit })),
                Err(e) => Err(e),
            },
            Ok(Command::Dismiss(seat)) => if self.guests[seat as int].gone_home {
                Err(PartyError::ProtocolViolation)
            } else {
                Ok(Some(Event::Dismissed { seat }))
            },
            Ok(Command::Finished) => Ok(None),
            Err(e) => Err(e),
        }
    }

    /// The event of the next turn, if it has one.
    pub open spec fn event(self, pick: usize) -> Option<Event> {
        match self.outcome(pick) {
            Ok(event) => event,
            Err(_) => None,
        }
    }

    /// The party after the next turn when the dice show `pick`. A refused
    /// turn and a turn after the end change nothing.
    pub open spec fn turn(self, pick: usize) -> PartyView {
        let announced = self.labyrinth.all_guests_have_entered;
        match self.command(pick) {
            _ if self.outcome(pick) is Err => self,
            Ok(Command::Admit(seat)) => PartyView {
                labyrinth: self.guests[seat as int].leaves(self.labyrinth),
                guests: self.guests.update(
                    seat as int,
                    self.guests[seat as int].after_visit(self.labyrinth),
                ),
                minotaur: self.minotaur.after_command(announced, pick).after_answer(seat),
            },
            Ok(Command::Dismiss(seat)) => PartyView {
                guests: self.guests.update(seat as int, self.guests[seat as int].after_dismissal()),
                minotaur: self.minotaur.after_command(announced, pick).after_answer(seat),
                ..self
            },
            Ok(Command::Finished) => self,
            Err(_) => self,
        }
    }

    /// The party after one turn for each pick, in order.
    pub open spec fn play(self, picks: Seq<usize>) -> PartyView
        decreases picks.len(),
    {
        if picks.len() == 0 {
            self
        } else {
            self.play(picks.drop_last()).turn(picks.last())
        }
    }

    /// The events of those turns, in order.
    pub open spec fn log(self, picks: Seq<usize>) -> Seq<Event>
        decreases picks.len(),
    {
        if picks.len() == 0 {
            Seq::empty()
        } else {
            let earlier = self.log(picks.drop_last());
            match self.play(picks.drop_last()).event(picks.last()) {
                Some(event) => earlier.push(event),
                None => earlier,
            }
        }
    }

    /// Every pick is a seat at the table.
    pub open spec fn seats(self, picks: Seq<usize>) -> bool {
        forall|k: int| 0 <= k < picks.len() ==> picks[k] < self.minotaur.guests
    }

    /// A turn keeps a party well-formed.
    pub proof fn lemma_turn_wf(self, pick: usize)
        requires
            self.wf(),
        ensures
            self.turn(pick).wf(),
            self.turn(pick).minotaur.guests == self.minotaur.guests,
            self.outcome(pick) is Err <==> self.minotaur.admitting(
                self.labyrinth.all_guests_have_entered,
            ) && pick >= self.minotaur.guests,
    {
    }

    /// Any number of turns keeps a party well-formed.
    pub proof fn lemma_play_wf(self, picks: Seq<usize>)
        requires
            self.wf(),
        ensures
            self.play(picks).wf(),
            self.play(picks).minotaur.guests == self.minotaur.guests,
        decreases picks.len(),
    {
        if picks.len() > 0 {
            self.lemma_play_wf(picks.drop_last());
            self.play(picks.drop_last()).lemma_turn_wf(picks.last());
        }
    }

    /// The opening of a party of at least two is well-formed.
    pub proof fn lemma_opening_wf(guests: nat)
        requires
            2 <= guests <= usize::MAX,
        ensures
            PartyView::opening(guests).wf(),
    {
    }
}

/// A party: the labyrinth, the guests by seat, and the Minotaur.
pub struct Party {
    labyrinth: Labyrinth,
    guests: Vec<Guest>,
    minotaur: Minotaur,
}

impl View for Party {
    type V = PartyView;

    closed spec fn view(&self) -> PartyView {
        PartyView {
            labyrinth: self.labyrinth,
            guests: self.guests@.map_values(|guest: Guest| guest@),
            minotaur: self.minotaur@,
        }
    }
}

impl Party {
    /// Invites `guests` guests: the counter at seat zero, ordinary guests at
    /// every other seat, a cupcake on the plate.
    ///
    /// Fails when fewer than two are invited.
    pub fn new(guests: usize) -> (party: Result<Party, PartyError>)
        ensures
            match party {
                Ok(p) => guests >= 2 && p@.wf() && p@ == PartyView::opening(guests as nat),
                Err(e) => guests < 2 && e == PartyError::InvalidConfiguration,
            },
    {
        let minotaur = match Minotaur::new(guests) {
            Ok(minotaur) => minotaur,
            Err(e) => {
                return Err(e);
            },
        };
        let mut seated: Vec<Guest> = Vec::new();
        let mut seat: usize = 0;
        while seat < guests
            invariant
                guests >= 2,
                seat <= guests,
                seated@.len() == seat,
                forall|s: int|
                    0 <= s < seat ==> (#[trigger] seated@[s])@ == GuestView::arriving(
                        s as nat,
                        guests as nat,
                    ),
            decreases guests - seat,
        {
            match Guest::new(seat, guests) {
                Ok(guest) => {
                    seated.push(guest);
                },
                Err(e) => {
                    return Err(e);
                },
            }
            seat = seat + 1;
        }
        let party = Party { labyrinth: Labyrinth::new(), guests: seated, minotaur };
        proof {
            assert(party@.guests =~= PartyView::opening(guests as nat).guests);
        }
        Ok(party)
    }

    /// Plays one turn, with `pick` as the seat to admit should the Minotaur
    /// admit a guest.
    ///
    /// Returns the event of the turn, or nothing when the party is over.
    /// Fails, and changes nothing, when the pick is needed and is not a seat
    /// at the table.
    pub fn turn_with(&mut self, pick: usize) -> (outcome: Result<Option<Event>, PartyError>)
        requires
            old(self)@.wf(),
        ensures
            outcome == old(self)@.outcome(pick),
            outcome is Err <==> old(self)@.minotaur.admitting(
                old(self)@.labyrinth.all_guests_have_entered,
            ) && pick >= old(self)@.minotaur.guests,
            final(self)@ == old(self)@.turn(pick),
            final(self)@.wf(),
    {
        let ghost before = self@;
        proof {
            before.lemma_turn_wf(pick);
        }
        let announced = self.labyrinth.all_guests_have_entered;
        match self.minotaur.command_for(announced, pick) {
            Ok(command) => Ok(self.carry_out(command, Ghost(before), Ghost(pick))),
            Err(e) => Err(e),
        }
    }

    /// Carries out a command that the Minotaur has just given, and hands the
    /// Minotaur the answer.
    fn carry_out(
        &mut self,
        command: Command,
        Ghost(before): Ghost<PartyView>,
        Ghost(pick): Ghost<usize>,
    ) -> (event: Option<Event>)
        requires
            before.wf(),
            before.command(pick) == Ok::<Command, PartyError>(command),
            old(self)@ == (PartyView {
                minotaur: before.minotaur.after_command(
                    before.labyrinth.all_guests_have_entered,
                    pick,
                ),
                ..before
            }),
        ensures
            Ok::<Option<Event>, PartyError>(event) == before.outcome(pick),
            final(self)@ == before.turn(pick),
            final(self)@.wf(),
    {
        match command {
            Command::Admit(seat) => {
                let mut guest = self.guests[seat];
                let visit = guest.send_inside(&mut self.labyrinth);
                self.guests.set(seat, guest);
                let answer = self.minotaur.acknowledge(seat);
                assert(answer is Ok);
                assert(self@.guests =~= before.turn(pick).guests);
                match visit {
                    Ok(visit) => Some(Event::Visited { seat, visit }),
                    Err(_) => None,
                }
            },
            Command::Dismiss(seat) => {
                let mut guest = self.guests[seat];
                let gone = guest.send_home();
                self.guests.set(seat, guest);
                let answer = self.minotaur.acknowledge(seat);
                assert(gone is Ok && answer is Ok);
                assert(self@.guests =~= before.turn(pick).guests);
                Some(Event::Dismissed { seat })
            },
            Command::Finished => None,
        }
    }

    /// Plays one turn, with the Minotaur rolling the dice when it admits a
    /// guest.
    ///
    /// Returns the event of the turn, or nothing when the party is over.
    /// Whatever the dice show, the turn is the one that [`turn_with`] plays
    /// for some seat at the table.
    ///
    /// [`turn_with`]: Party::turn_with
    pub fn turn(&mut self) -> (event: Option<Event>)
        requires
            old(self)@.wf(),
        ensures
            exists|pick: usize|
                {
                    &&& pick < old(self)@.minotaur.guests
                    &&& Ok::<Option<Event>, PartyError>(event) == #[trigger] old(self)@.outcome(
                        pick,
                    )
                    &&& final(self)@ == old(self)@.turn(pick)
                },
            final(self)@.wf(),
    {
        let ghost before = self@;
        let announced = self.labyrinth.all_guests_have_entered;
        match self.minotaur.next_command(announced) {
            Ok(command) => {
                let ghost pick = choose|pick: usize|
                    {
                        &&& pick < before.minotaur.guests
                        &&& Ok::<Command, PartyError>(command) == #[trigger] before.minotaur.command(
                            announced,
                            pick,
                        )
                        &&& self.minotaur@ == before.minotaur.after_command(announced, pick)
                    };
                let event = self.carry_out(command, Ghost(before), Ghost(pick));
                event
            },
            Err(_) => None,
        }
    }

    /// Plays one turn for each pick of `script`, in order, and returns the
    /// events of those turns.
    ///
    /// Fails, and plays nothing, when the script names a seat that is not at
    /// the table. Turns after the end of the party change nothing and add no
    /// event.
    pub fn play(&mut self, script: &Vec<usize>) -> (events: Result<Vec<Event>, PartyError>)
        requires
            old(self)@.wf(),
        ensures
            match events {
                Ok(log) => {
                    &&& old(self)@.seats(script@)
                    &&& final(self)@ == old(self)@.play(script@)
                    &&& log@ == old(self)@.log(script@)
                },
                Err(e) => {
                    &&& !old(self)@.seats(script@)
                    &&& e == PartyError::ProtocolViolation
                    &&& final(self)@ == old(self)@
                },
            },
            final(self)@.wf(),
    {
        let ghost before = self@;
        let guests = self.minotaur.guests();
        let mut checked: usize = 0;
        while checked < script.len()
            invariant
                checked <= script@.len(),
                before.wf(),
                self@ == before,
                guests == before.minotaur.guests,
                forall|k: int| 0 <= k < checked ==> script@[k] < guests,
            decreases script@.len() - checked,
        {
            if script[checked] >= guests {
                return Err(PartyError::ProtocolViolation);
            }
            checked = checked + 1;
        }
        let mut log: Vec<Event> = Vec::new();
        let mut played: usize = 0;
        while played < script.len()
            invariant
                before.wf(),
                before.seats(script@),
                played <= script@.len(),
                self@.wf(),
                self@ == before.play(script@.take(played as int)),
                log@ == before.log(script@.take(played as int)),
            decreases script@.len() - played,
        {
            proof {
                before.lemma_play_wf(script@.take(played as int));
                assert(script@.take(played + 1).drop_last() =~= script@.take(played as int));
            }
            match self.turn_with(script[played]) {
                Ok(Some(event)) => {
                    log.push(event);
                },
                Ok(None) => {},
                Err(e) => {
                    return Err(e);
                },
            }
            played = played + 1;
        }
        proof {
            assert(script@.take(played as int) =~= script@);
        }
        Ok(log)
    }

    /// Plays turns with the Minotaur rolling the dice, until the party is
    /// over or `max_turns` turns have been played, and returns their events.
    ///
    /// Whatever the dice show, the turns are those that [`play`] plays for
    /// some script of seats at the table.
    ///
    /// [`play`]: Party::play
    pub fn run(&mut self, max_turns: usize) -> (log: Vec<Event>)
        requires
            old(self)@.wf(),
        ensures
            exists|picks: Seq<usize>|
                {
                    &&& picks.len() <= max_turns
                    &&& old(self)@.seats(picks)
                    &&& final(self)@ == #[trigger] old(self)@.play(picks)
                    &&& log@ == old(self)@.log(picks)
                    &&& (final(self)@.finished() || picks.len() == max_turns)
                },
            final(self)@.wf(),
    {
        let ghost before = self@;
        let ghost mut picks: Seq<usize> = Seq::empty();
        let mut log: Vec<Event> = Vec::new();
        let mut turns: usize = 0;
        while turns < max_turns && !self.minotaur.is_finished()
            invariant
                before.wf(),
                turns <= max_turns,
                picks.len() == turns,
                before.seats(picks),
                self@.wf(),
                self@ == before.play(picks),
                log@ == before.log(picks),
            decreases max_turns - turns,
        {
            let ghost earlier = self@;
            let event = self.turn();
            proof {
                before.lemma_play_wf(picks);
                let pick = choose|pick: usize|
                    {
                        &&& pick < earlier.minotaur.guests
                        &&& Ok::<Option<Event>, PartyError>(event) == #[trigger] earlier.outcome(
                            pick,
                        )
                        &&& self@ == earlier.turn(pick)
                    };
                assert(picks.push(pick).drop_last() =~= picks);
                picks = picks.push(pick);
            }
            match event {
                Some(event) => {
                    log.push(event);
                },
                None => {},
            }
            turns = turns + 1;
        }
        log
    }

    /// The plate and the announcement as they stand.
    pub fn labyrinth(&self) -> (labyrinth: Labyrinth)
        ensures
            labyrinth == self@.labyrinth,
    {
        self.labyrinth
    }

    /// How many guests were invited.
    pub fn guests(&self) -> (guests: usize)
        ensures
            guests == self@.minotaur.guests,
    {
        self.minotaur.guests()
    }

    /// The guest at `seat`, if the seat is at the table.
    pub fn guest(&self, seat: usize) -> (guest: Option<Guest>)
        ensures
            match guest {
                Some(g) => seat < self@.guests.len() && g@ == self@.guests[seat as int],
                None => seat >= self@.guests.len(),
            },
    {
        if seat < self.guests.len() {
            Some(self.guests[seat])
        } else {
            None
        }
    }

    /// Whether every guest has answered its dismissal.
    pub fn is_finished(&self) -> (finished: bool)
        ensures
            finished == self@.finished(),
    {
        self.minotaur.is_finished()
    }
}

} // verus!
