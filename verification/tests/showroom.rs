use minotaur_party::showroom::WaitingLine;

#[test]
fn the_line_forms_in_the_order_of_the_guests() {
    let mut line = WaitingLine::new(10);
    assert_eq!(line.len(), 10);
    for guest in 0..10 {
        assert_eq!(line.call_next(), Some(guest));
        assert_eq!(line.len(), 9 - guest);
    }
    assert_eq!(line.call_next(), None);
    assert_eq!(line.len(), 0);
}

#[test]
fn an_empty_line_calls_nobody() {
    let mut line = WaitingLine::new(0);
    assert_eq!(line.len(), 0);
    assert_eq!(line.call_next(), None);
    assert_eq!(line.leave_showroom(4, false), None);
    assert_eq!(line.len(), 0);
}

#[test]
fn a_guest_who_queues_again_goes_to_the_end() {
    let mut line = WaitingLine::new(3);
    assert_eq!(line.call_next(), Some(0));
    assert_eq!(line.leave_showroom(0, true), Some(1));
    assert_eq!(line.len(), 2);
    assert_eq!(line.leave_showroom(1, false), Some(2));
    assert_eq!(line.leave_showroom(2, false), Some(0));
    assert_eq!(line.len(), 0);
    assert_eq!(line.leave_showroom(0, false), None);
}

#[test]
fn a_guest_alone_in_line_calls_itself_back_in() {
    let mut line = WaitingLine::new(1);
    assert_eq!(line.call_next(), Some(0));
    assert_eq!(line.leave_showroom(0, true), Some(0));
    assert_eq!(line.len(), 0);
    assert_eq!(line.leave_showroom(0, true), Some(0));
    assert_eq!(line.leave_showroom(0, false), None);
}

#[test]
fn a_guest_may_stand_in_line_more_than_once() {
    let mut line = WaitingLine::new(2);
    assert_eq!(line.leave_showroom(7, true), Some(0));
    assert_eq!(line.leave_showroom(7, true), Some(1));
    assert_eq!(line.leave_showroom(0, false), Some(7));
    assert_eq!(line.leave_showroom(0, false), Some(7));
    assert_eq!(line.leave_showroom(0, false), None);
}
