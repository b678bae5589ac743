use minotaur_party::error::PartyError;
use minotaur_party::guest::{Guest, Role, Visit};
use minotaur_party::labyrinth::Labyrinth;

#[test]
fn labyrinth_opens_with_a_cupcake_and_no_announcement() {
    let labyrinth = Labyrinth::new();
    assert!(labyrinth.cupcake_on_plate);
    assert!(!labyrinth.all_guests_have_entered);
}

#[test]
fn seat_zero_is_the_counter() {
    let counter = Guest::new(0, 10).unwrap();
    assert_eq!(counter.role(), Role::Counter);
    assert_eq!(counter.seat(), 0);
    assert_eq!(counter.guests(), 10);
    assert_eq!(counter.tally(), 0);
    assert!(!counter.has_eaten_cupcake());
}

#[test]
fn every_other_seat_is_ordinary() {
    for seat in 1..10 {
        let guest = Guest::new(seat, 10).unwrap();
        assert_eq!(guest.role(), Role::Ordinary);
        assert_eq!(guest.seat(), seat);
        assert_eq!(guest.tally(), 0);
        assert!(!guest.has_eaten_cupcake());
    }
}

#[test]
fn a_party_of_none_or_one_is_refused() {
    assert_eq!(Guest::new(0, 0).err(), Some(PartyError::InvalidConfiguration));
    assert_eq!(Guest::new(0, 1).err(), Some(PartyError::InvalidConfiguration));
    assert!(Guest::new(0, 2).is_ok());
    assert!(Guest::new(1, 2).is_ok());
}

#[test]
fn a_seat_past_the_table_is_refused() {
    assert_eq!(Guest::new(3, 3).err(), Some(PartyError::InvalidConfiguration));
    assert_eq!(Guest::new(usize::MAX, 3).err(), Some(PartyError::InvalidConfiguration));
    assert!(Guest::new(2, 3).is_ok());
}

#[test]
fn an_ordinary_guest_eats_the_first_cupcake_it_finds() {
    let mut guest = Guest::new(4, 10).unwrap();
    let mut labyrinth = Labyrinth::new();
    assert_eq!(guest.send_inside(&mut labyrinth), Ok(Visit::Ate));
    assert!(guest.has_eaten_cupcake());
    assert!(!labyrinth.cupcake_on_plate);
    assert!(!labyrinth.all_guests_have_entered);
    assert_eq!(guest.tally(), 0);
}

#[test]
fn an_ordinary_guest_leaves_an_empty_plate_empty() {
    let mut guest = Guest::new(4, 10).unwrap();
    let mut labyrinth = Labyrinth { cupcake_on_plate: false, all_guests_have_entered: false };
    assert_eq!(guest.send_inside(&mut labyrinth), Ok(Visit::FoundEmptyPlate));
    assert!(!guest.has_eaten_cupcake());
    assert_eq!(
        labyrinth,
        Labyrinth { cupcake_on_plate: false, all_guests_have_entered: false }
    );
    assert_eq!(guest.tally(), 0);
}

#[test]
fn a_guest_eats_only_once() {
    let mut guest = Guest::new(1, 3).unwrap();
    let mut labyrinth = Labyrinth::new();
    assert_eq!(guest.send_inside(&mut labyrinth), Ok(Visit::Ate));
    labyrinth.cupcake_on_plate = true;
    for _ in 0..5 {
        assert_eq!(guest.send_inside(&mut labyrinth), Ok(Visit::LeftCupcake));
        assert!(labyrinth.cupcake_on_plate);
        assert!(guest.has_eaten_cupcake());
    }
}

#[test]
fn the_counter_eats_once_too() {
    let mut counter = Guest::new(0, 3).unwrap();
    let mut labyrinth = Labyrinth::new();
    assert_eq!(counter.send_inside(&mut labyrinth), Ok(Visit::Ate));
    assert!(!labyrinth.cupcake_on_plate);
    assert_eq!(counter.tally(), 0);
    labyrinth.cupcake_on_plate = true;
    assert_eq!(counter.send_inside(&mut labyrinth), Ok(Visit::LeftCupcake));
    assert!(labyrinth.cupcake_on_plate);
    assert_eq!(counter.tally(), 0);
}

#[test]
fn the_counter_tallies_and_refills_an_empty_plate() {
    let mut counter = Guest::new(0, 10).unwrap();
    let mut labyrinth = Labyrinth { cupcake_on_plate: false, all_guests_have_entered: false };
    assert_eq!(counter.send_inside(&mut labyrinth), Ok(Visit::Counted(1)));
    assert_eq!(counter.tally(), 1);
    assert!(labyrinth.cupcake_on_plate);
    assert!(!labyrinth.all_guests_have_entered);
    assert!(!counter.has_eaten_cupcake());
}

#[test]
fn the_counter_announces_at_the_number_of_guests_but_one() {
    let guests = 5;
    let mut counter = Guest::new(0, guests).unwrap();
    let mut labyrinth = Labyrinth::new();
    for tally in 1..guests {
        labyrinth.cupcake_on_plate = false;
        assert!(!labyrinth.all_guests_have_entered);
        assert_eq!(counter.send_inside(&mut labyrinth), Ok(Visit::Counted(tally)));
        assert!(labyrinth.cupcake_on_plate);
        assert_eq!(labyrinth.all_guests_have_entered, tally == guests - 1);
    }
    assert_eq!(counter.tally(), 4);
    assert!(labyrinth.all_guests_have_entered);
}

#[test]
fn after_the_announcement_a_guest_touches_nothing_and_goes_home() {
    for seat in 0..3 {
        for cupcake_on_plate in [false, true] {
            let mut guest = Guest::new(seat, 3).unwrap();
            let mut labyrinth = Labyrinth { cupcake_on_plate, all_guests_have_entered: true };
            assert_eq!(guest.send_inside(&mut labyrinth), Ok(Visit::PartyOver));
            assert_eq!(labyrinth, Labyrinth { cupcake_on_plate, all_guests_have_entered: true });
            assert!(!guest.has_eaten_cupcake());
            assert_eq!(guest.tally(), 0);
            assert!(guest.has_gone_home());
        }
    }
}

#[test]
fn a_guest_stays_while_the_party_goes_on() {
    let mut counter = Guest::new(0, 10).unwrap();
    let mut guest = Guest::new(1, 10).unwrap();
    let mut labyrinth = Labyrinth::new();
    assert!(!guest.has_gone_home());
    for _ in 0..4 {
        assert!(guest.send_inside(&mut labyrinth).is_ok());
        assert!(counter.send_inside(&mut labyrinth).is_ok());
        assert!(!labyrinth.all_guests_have_entered);
        assert!(!guest.has_gone_home());
        assert!(!counter.has_gone_home());
    }
    assert_eq!(counter.tally(), 2);
}

#[test]
fn a_guest_told_to_go_home_goes_once() {
    let mut guest = Guest::new(2, 3).unwrap();
    assert_eq!(guest.send_home(), Ok(()));
    assert!(guest.has_gone_home());
    assert_eq!(guest.send_home(), Err(PartyError::ProtocolViolation));
    assert!(guest.has_gone_home());
}

#[test]
fn a_guest_who_has_gone_home_answers_no_more() {
    for announced in [false, true] {
        for cupcake_on_plate in [false, true] {
            for seat in 0..2 {
                let mut guest = Guest::new(seat, 2).unwrap();
                assert_eq!(guest.send_home(), Ok(()));
                let mut labyrinth =
                    Labyrinth { cupcake_on_plate, all_guests_have_entered: announced };
                assert_eq!(guest.send_inside(&mut labyrinth), Err(PartyError::ProtocolViolation));
                assert_eq!(
                    labyrinth,
                    Labyrinth { cupcake_on_plate, all_guests_have_entered: announced }
                );
                assert!(!guest.has_eaten_cupcake());
                assert_eq!(guest.tally(), 0);
            }
        }
    }
}

#[test]
fn a_guest_who_found_the_party_over_answers_no_more() {
    let mut guest = Guest::new(1, 2).unwrap();
    let mut labyrinth = Labyrinth { cupcake_on_plate: true, all_guests_have_entered: true };
    assert_eq!(guest.send_inside(&mut labyrinth), Ok(Visit::PartyOver));
    assert_eq!(guest.send_inside(&mut labyrinth), Err(PartyError::ProtocolViolation));
    assert_eq!(guest.send_home(), Err(PartyError::ProtocolViolation));
}

#[test]
fn scripted_party_of_three_guest_by_guest() {
    let mut counter = Guest::new(0, 3).unwrap();
    let mut a = Guest::new(1, 3).unwrap();
    let mut b = Guest::new(2, 3).unwrap();
    let mut labyrinth = Labyrinth::new();
    assert!(labyrinth.cupcake_on_plate);

    assert_eq!(counter.send_inside(&mut labyrinth), Ok(Visit::Ate));
    assert_eq!(labyrinth, Labyrinth { cupcake_on_plate: false, all_guests_have_entered: false });

    assert_eq!(a.send_inside(&mut labyrinth), Ok(Visit::FoundEmptyPlate));
    assert_eq!(labyrinth, Labyrinth { cupcake_on_plate: false, all_guests_have_entered: false });
    assert!(!a.has_eaten_cupcake());

    assert_eq!(counter.send_inside(&mut labyrinth), Ok(Visit::Counted(1)));
    assert_eq!(counter.tally(), 1);
    assert_eq!(labyrinth, Labyrinth { cupcake_on_plate: true, all_guests_have_entered: false });

    assert_eq!(b.send_inside(&mut labyrinth), Ok(Visit::Ate));
    assert_eq!(labyrinth, Labyrinth { cupcake_on_plate: false, all_guests_have_entered: false });
    assert!(b.has_eaten_cupcake());

    assert_eq!(counter.send_inside(&mut labyrinth), Ok(Visit::Counted(2)));
    assert_eq!(counter.tally(), 2);
    assert_eq!(labyrinth, Labyrinth { cupcake_on_plate: true, all_guests_have_entered: true });
}
