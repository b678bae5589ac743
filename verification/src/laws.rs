//! What holds of every party, whoever is sent in.
//!
//! Each law speaks of a party of `guests` guests after any sequence of
//! turns, the turns given by the seats `picks` that the dice showed. The
//! functions of [`crate::party`] return exactly these states and logs, so
//! the laws hold of whatever they return.

use vstd::prelude::*;
use crate::guest::{GuestView, Visit};
use crate::error::PartyError;
use crate::minotaur::{Command, MinotaurView};
use crate::party::{Event, PartyView};

verus! {

/// A table that a party can be held at: at least two guests, and no more
/// than can be numbered.
pub open spec fn table(guests: nat) -> bool {
    2 <= guests <= usize::MAX
}

/// The party of `guests` guests after the turns `picks`.
pub open spec fn party_after(guests: nat, picks: Seq<usize>) -> PartyView {
    PartyView::opening(guests).play(picks)
}

/// The log of the party of `guests` guests over the turns `picks`.
pub open spec fn log_of(guests: nat, picks: Seq<usize>) -> Seq<Event> {
    PartyView::opening(guests).log(picks)
}

/// Every party that can be reached is well-formed.
pub proof fn lemma_party_wf(guests: nat, picks: Seq<usize>)
    requires
        table(guests),
    ensures
        party_after(guests, picks).wf(),
        party_after(guests, picks).minotaur.guests == guests,
{
    PartyView::lemma_opening_wf(guests);
    PartyView::opening(guests).lemma_play_wf(picks);
}

/// Playing one sequence of turns and then another is playing the two in a
/// row, and the logs follow one another.
pub proof fn lemma_play_in_a_row(party: PartyView, first: Seq<usize>, second: Seq<usize>)
    ensures
        party.play(first + second) == party.play(first).play(second),
        party.log(first + second) == party.log(first) + party.play(first).log(second),
    decreases second.len(),
{
    if second.len() > 0 {
        lemma_play_in_a_row(party, first, second.drop_last());
        assert((first + second).drop_last() =~= first + second.drop_last());
    }
}

/// The party is declared over exactly when the counter's tally is the number
/// of guests but one, and the tally never passes that number. So at no turn
/// before the tally gets there is the party declared over.
pub proof fn law_announcement_follows_tally(guests: nat, picks: Seq<usize>)
    requires
        table(guests),
    ensures
        party_after(guests, picks).tally() <= guests - 1,
        party_after(guests, picks).labyrinth.all_guests_have_entered <==> party_after(
            guests,
            picks,
        ).tally() == guests - 1,
{
    lemma_party_wf(guests, picks);
}

/// Once declared over, a party stays so; and the counter's tally never
/// falls.
pub proof fn law_announcement_stands(guests: nat, picks: Seq<usize>, more: Seq<usize>)
    requires
        table(guests),
    ensures
        party_after(guests, picks).tally() <= party_after(guests, picks + more).tally(),
        party_after(guests, picks).labyrinth.all_guests_have_entered ==> party_after(
            guests,
            picks + more,
        ).labyrinth.all_guests_have_entered,
    decreases more.len(),
{
    if more.len() > 0 {
        law_announcement_stands(guests, picks, more.drop_last());
        assert((picks + more).drop_last() =~= picks + more.drop_last());
        lemma_party_wf(guests, picks + more.drop_last());
    }
}

/// A turn is one guest's: it changes nobody but the guest admitted or
/// dismissed, a dismissal changes nothing of that guest but that it goes
/// home, and only a visit can change the labyrinth. So between two looks of
/// the Minotaur at the announcement at most one guest has read and written
/// the plate.
pub proof fn law_a_turn_is_one_guests(party: PartyView, pick: usize, seat: int)
    requires
        party.wf(),
        0 <= seat < party.guests.len(),
    ensures
        party.turn(pick).guests.len() == party.guests.len(),
        party.turn(pick).guests[seat] == (match party.event(pick) {
            Some(Event::Visited { seat: admitted, .. }) if admitted == seat => party.guests[seat].after_visit(
                party.labyrinth,
            ),
            Some(Event::Dismissed { seat: dismissed }) if dismissed == seat => party.guests[seat].after_dismissal(),
            _ => party.guests[seat],
        }),
        !(party.event(pick) matches Some(Event::Visited { .. })) ==> party.turn(pick).labyrinth
            == party.labyrinth,
        party.turn(pick).minotaur.awaiting is None,
{
}

/// Only the counter refills the plate, adds to the tally, or declares the
/// party over: a turn that does any of these is a visit of the guest at seat
/// zero, who reports the new tally. The visit of an ordinary guest leaves
/// the tally and the announcement as they were and never puts a cupcake on
/// an empty plate.
pub proof fn law_only_the_counter_counts(party: PartyView, pick: usize)
    requires
        party.wf(),
    ensures
        ({
            let after = party.turn(pick);
            ||| after.tally() != party.tally()
            ||| after.labyrinth.all_guests_have_entered != party.labyrinth.all_guests_have_entered
            ||| (after.labyrinth.cupcake_on_plate && !party.labyrinth.cupcake_on_plate)
        }) ==> party.event(pick) == Some(
            Event::Visited { seat: 0, visit: Visit::Counted(party.turn(pick).tally() as usize) },
        ),
        party.event(pick) matches Some(Event::Visited { seat, visit: Visit::Counted(_) })
            ==> seat == 0,
{
}

/// Whoever the log shows eating has eaten, and sits at the table.
proof fn lemma_eaters_have_eaten(guests: nat, picks: Seq<usize>, i: int)
    requires
        table(guests),
        0 <= i < log_of(guests, picks).len(),
        log_of(guests, picks)[i] matches Event::Visited { visit: Visit::Ate, .. },
    ensures
        log_of(guests, picks)[i] matches Event::Visited { seat, .. } && seat < guests
            && party_after(guests, picks).guests[seat as int].eaten_cupcake,
    decreases picks.len(),
{
    if picks.len() > 0 {
        lemma_party_wf(guests, picks.drop_last());
        if i < log_of(guests, picks.drop_last()).len() {
            lemma_eaters_have_eaten(guests, picks.drop_last(), i);
        }
    }
}

/// No guest eats more than one cupcake: of two entries of a log that show a
/// guest eating, the second is of another guest.
pub proof fn law_each_guest_eats_at_most_once(guests: nat, picks: Seq<usize>, i: int, j: int)
    requires
        table(guests),
        0 <= i < j < log_of(guests, picks).len(),
        log_of(guests, picks)[i] matches Event::Visited { visit: Visit::Ate, .. },
    ensures
        log_of(guests, picks)[j] != log_of(guests, picks)[i],
    decreases picks.len(),
{
    if picks.len() > 0 {
        if j < log_of(guests, picks.drop_last()).len() {
            law_each_guest_eats_at_most_once(guests, picks.drop_last(), i, j);
        } else {
            lemma_eaters_have_eaten(guests, picks.drop_last(), i);
        }
    }
}

/// After the announcement nobody is admitted: a turn of a party declared
/// over sends home the next guest in line, or does nothing because all have
/// gone. It leaves the plate and the announcement as they were, and of the
/// guests it changes only that one more has gone home.
pub proof fn law_no_admission_after_announcement(party: PartyView, pick: usize)
    requires
        party.wf(),
        party.labyrinth.all_guests_have_entered,
    ensures
        party.event(pick) matches Some(event) ==> event == (Event::Dismissed {
            seat: party.minotaur.dismissed as usize,
        }),
        party.event(pick) is None <==> party.finished(),
        party.turn(pick).labyrinth == party.labyrinth,
        party.turn(pick).guests == (if party.finished() {
            party.guests
        } else {
            party.guests.update(
                party.minotaur.dismissed as int,
                party.guests[party.minotaur.dismissed as int].after_dismissal(),
            )
        }),
{
}

/// Every guest is sent home once, in the order of the seats, after the last
/// visit: a log is a run of visits followed by one dismissal each for the
/// seats from zero up to the number of dismissals answered so far. Those
/// are the guests who have gone home, and when the party is over they are
/// all the guests.
pub proof fn law_everyone_is_sent_home_once(guests: nat, picks: Seq<usize>)
    requires
        table(guests),
    ensures
        ({
            let party = party_after(guests, picks);
            let log = log_of(guests, picks);
            let sent = party.minotaur.dismissed;
            &&& sent <= log.len()
            &&& sent <= guests
            &&& forall|i: int| 0 <= i < log.len() - sent ==> (#[trigger] log[i]) is Visited
            &&& forall|seat: int|
                0 <= seat < sent ==> #[trigger] log[log.len() - sent + seat] == (Event::Dismissed {
                    seat: seat as usize,
                })
            &&& forall|seat: int|
                0 <= seat < guests ==> ((#[trigger] party.guests[seat]).gone_home <==> seat < sent)
            &&& (party.finished() ==> sent == guests)
        }),
    decreases picks.len(),
{
    if picks.len() > 0 {
        lemma_party_wf(guests, picks.drop_last());
        law_everyone_is_sent_home_once(guests, picks.drop_last());
    }
}

/// How many of these guests have eaten.
pub open spec fn eaten(guests: Seq<GuestView>) -> nat
    decreases guests.len(),
{
    if guests.len() == 0 {
        0
    } else {
        eaten(guests.drop_last()) + if guests.last().eaten_cupcake {
            1nat
        } else {
            0nat
        }
    }
}

/// Where nobody has eaten, the count is zero.
proof fn lemma_nobody_has_eaten(guests: Seq<GuestView>)
    requires
        forall|seat: int| 0 <= seat < guests.len() ==> !(#[trigger] guests[seat]).eaten_cupcake,
    ensures
        eaten(guests) == 0,
    decreases guests.len(),
{
    if guests.len() > 0 {
        lemma_nobody_has_eaten(guests.drop_last());
    }
}

/// Changing one guest changes the count by what that guest has eaten.
proof fn lemma_eaten_after_update(guests: Seq<GuestView>, seat: int, guest: GuestView)
    requires
        0 <= seat < guests.len(),
    ensures
        eaten(guests.update(seat, guest)) + (if guests[seat].eaten_cupcake {
            1nat
        } else {
            0nat
        }) == eaten(guests) + (if guest.eaten_cupcake {
            1nat
        } else {
            0nat
        }),
    decreases guests.len(),
{
    if seat == guests.len() - 1 {
        assert(guests.update(seat, guest).drop_last() =~= guests.drop_last());
    } else {
        assert(guests.update(seat, guest).drop_last() =~= guests.drop_last().update(seat, guest));
        lemma_eaten_after_update(guests.drop_last(), seat, guest);
    }
}

/// Where fewer have eaten than there are guests, someone has not.
proof fn lemma_someone_is_hungry(guests: Seq<GuestView>) -> (seat: int)
    requires
        eaten(guests) < guests.len(),
    ensures
        0 <= seat < guests.len(),
        !guests[seat].eaten_cupcake,
    decreases guests.len(),
{
    if !guests.last().eaten_cupcake {
        guests.len() - 1
    } else {
        lemma_someone_is_hungry(guests.drop_last())
    }
}

/// Every cupcake eaten is either tallied or has left the plate empty.
pub open spec fn plates_add_up(party: PartyView) -> bool {
    eaten(party.guests) == party.tally() + if party.labyrinth.cupcake_on_plate {
        0nat
    } else {
        1nat
    }
}

/// A turn keeps the plates adding up.
proof fn lemma_turn_adds_up(party: PartyView, pick: usize)
    requires
        party.wf(),
        plates_add_up(party),
    ensures
        plates_add_up(party.turn(pick)),
{
    match party.event(pick) {
        Some(Event::Visited { seat, .. }) => {
            lemma_eaten_after_update(
                party.guests,
                seat as int,
                party.guests[seat as int].after_visit(party.labyrinth),
            );
        },
        Some(Event::Dismissed { seat }) => {
            lemma_eaten_after_update(
                party.guests,
                seat as int,
                party.guests[seat as int].after_dismissal(),
            );
        },
        None => {},
    }
}

/// In every party that can be reached, every cupcake eaten is either
/// tallied or has left the plate empty.
pub proof fn lemma_plates_add_up(guests: nat, picks: Seq<usize>)
    requires
        table(guests),
    ensures
        plates_add_up(party_after(guests, picks)),
    decreases picks.len(),
{
    if picks.len() == 0 {
        lemma_nobody_has_eaten(PartyView::opening(guests).guests);
    } else {
        lemma_plates_add_up(guests, picks.drop_last());
        lemma_party_wf(guests, picks.drop_last());
        lemma_turn_adds_up(party_after(guests, picks.drop_last()), picks.last());
    }
}

/// An upper bound on the turns that a party still needs, if the dice fall
/// well: a meal and a count for each cupcake not yet tallied, and a
/// dismissal for each guest not yet sent home.
pub open spec fn turns_needed(party: PartyView) -> nat {
    if party.finished() {
        0
    } else if party.labyrinth.all_guests_have_entered {
        (party.minotaur.guests - party.minotaur.dismissed) as nat
    } else {
        (party.minotaur.guests + 2 * (party.minotaur.guests - 1 - party.tally())
            - if party.labyrinth.cupcake_on_plate {
            0int
        } else {
            1int
        }) as nat
    }
}

/// From a party where the plates add up, some picks end the party.
proof fn lemma_way_out(party: PartyView) -> (more: Seq<usize>)
    requires
        party.wf(),
        plates_add_up(party),
    ensures
        party.seats(more),
        more.len() <= turns_needed(party),
        party.play(more).finished(),
    decreases turns_needed(party),
{
    if party.finished() {
        Seq::empty()
    } else {
        let pick: usize = if party.labyrinth.all_guests_have_entered
            || !party.labyrinth.cupcake_on_plate {
            0
        } else {
            lemma_someone_is_hungry(party.guests) as usize
        };
        lemma_turn_adds_up(party, pick);
        let next = party.turn(pick);
        let rest = lemma_way_out(next);
        let first = seq![pick];
        assert(party.play(first.drop_last()) == party);
        lemma_play_in_a_row(party, first, rest);
        first + rest
    }
}

/// The party can always end: after any turns there are further picks, no
/// more than three for each guest, with which every guest is sent home. A
/// party ends only so: when it is over, the announcement has been made, and
/// the tally is the number of guests but one.
///
/// Dice that show every seat again and again will sooner or later show such
/// picks; that they do is a matter of chance and is not stated here.
pub proof fn law_party_can_always_end(guests: nat, picks: Seq<usize>) -> (more: Seq<usize>)
    requires
        table(guests),
    ensures
        forall|k: int| 0 <= k < more.len() ==> more[k] < guests,
        more.len() <= 3 * guests,
        party_after(guests, picks + more).finished(),
        party_after(guests, picks + more).labyrinth.all_guests_have_entered,
        party_after(guests, picks + more).tally() == guests - 1,
{
    lemma_party_wf(guests, picks);
    lemma_plates_add_up(guests, picks);
    let party = party_after(guests, picks);
    let more = lemma_way_out(party);
    lemma_play_in_a_row(PartyView::opening(guests), picks, more);
    lemma_party_wf(guests, picks + more);
    more
}

/// The Minotaur has one turn under way at a time: after a command that
/// admits or dismisses a guest it gives no other, whatever it is asked,
/// until that guest has answered; the answer of any other guest changes
/// nothing.
pub proof fn law_one_turn_at_a_time(
    minotaur: MinotaurView,
    announced: bool,
    pick: usize,
    asked: bool,
    other: usize,
)
    requires
        minotaur.wf(),
        minotaur.command(announced, pick) matches Ok(command) && command != Command::Finished,
    ensures
        ({
            let waiting = minotaur.after_command(announced, pick);
            let seat = match minotaur.command(announced, pick) {
                Ok(Command::Admit(seat)) => seat,
                Ok(Command::Dismiss(seat)) => seat,
                _ => 0,
            };
            &&& waiting.awaiting == Some(seat as nat)
            &&& waiting.command(asked, other) == Err::<Command, PartyError>(
                PartyError::ProtocolViolation,
            )
            &&& waiting.after_command(asked, other) == waiting
            &&& (other != seat ==> waiting.after_answer(other) == waiting)
            &&& waiting.after_answer(seat).awaiting is None
        }),
{
}

/// Once the Minotaur has seen the announcement it admits nobody: it
/// dismisses the guest at the seat after the last one dismissed, and that
/// guest's answer moves it on by one seat; when the last seat has answered
/// it is finished, and stays so.
pub proof fn law_dismissals_go_seat_by_seat(minotaur: MinotaurView, announced: bool, pick: usize)
    requires
        minotaur.wf(),
        minotaur.awaiting is None,
        minotaur.draining || announced,
    ensures
        minotaur.command(announced, pick) == (if minotaur.dismissed < minotaur.guests {
            Ok::<Command, PartyError>(Command::Dismiss(minotaur.dismissed as usize))
        } else {
            Ok::<Command, PartyError>(Command::Finished)
        }),
        minotaur.command(announced, pick) == Ok::<Command, PartyError>(Command::Finished)
            <==> minotaur.finished(),
        minotaur.after_command(announced, pick).draining || minotaur.finished(),
        minotaur.dismissed < minotaur.guests ==> minotaur.after_command(
            announced,
            pick,
        ).after_answer(minotaur.dismissed as usize) == (MinotaurView {
            draining: true,
            dismissed: minotaur.dismissed + 1,
            ..minotaur
        }),
{
}

} // verus!
