//! The waiting line in front of the crystal vase.
//!
//! The vase stands in a showroom that holds one guest at a time. The guests
//! queue for it. Whoever leaves the showroom may get back in line, and then
//! calls in whoever stands first.

use vstd::prelude::*;

verus! {

/// The guests waiting to see the vase, first in line first.
pub struct WaitingLine {
    line: Vec<usize>,
}

impl View for WaitingLine {
    type V = Seq<usize>;

    closed spec fn view(&self) -> Seq<usize> {
        self.line@
    }
}

/// The line after `guest` has left the showroom and, if `back_in_line`, has
/// gone to its end.
pub open spec fn rejoined(line: Seq<usize>, guest: usize, back_in_line: bool) -> Seq<usize> {
    if back_in_line {
        line.push(guest)
    } else {
        line
    }
}

impl WaitingLine {
    /// Lines up `guests` guests in the order of their numbers.
    pub fn new(guests: usize) -> (line: WaitingLine)
        ensures
            line@ == Seq::new(guests as nat, |place: int| place as usize),
    {
        let mut line: Vec<usize> = Vec::new();
        let mut guest: usize = 0;
        while guest < guests
            invariant
                guest <= guests,
                line@ == Seq::new(guest as nat, |place: int| place as usize),
            decreases guests - guest,
        {
            line.push(guest);
            guest = guest + 1;
        }
        WaitingLine { line }
    }

    /// How many guests are waiting.
    pub fn len(&self) -> (len: usize)
        ensures
            len == self@.len(),
    {
        self.line.len()
    }

    /// Takes the first guest out of the line, if anyone is waiting.
    pub fn call_next(&mut self) -> (next: Option<usize>)
        ensures
            match next {
                Some(guest) => old(self)@.len() > 0 && guest == old(self)@[0] && final(self)@ == old(
                    self,
                )@.drop_first(),
                None => old(self)@.len() == 0 && final(self)@ == old(self)@,
            },
    {
        if self.line.len() > 0 {
            let guest = self.line.remove(0);
            Some(guest)
        } else {
            None
        }
    }

    /// Has `guest` leave the showroom: if `back_in_line` it goes to the end
    /// of the line, and then the first in line, who may be that same guest,
    /// is called in.
    ///
    /// Returns whom to call in, or nothing when nobody is waiting.
    pub fn leave_showroom(&mut self, guest: usize, back_in_line: bool) -> (next: Option<usize>)
        ensures
            match next {
                Some(called) => {
                    &&& rejoined(old(self)@, guest, back_in_line).len() > 0
                    &&& called == rejoined(old(self)@, guest, back_in_line)[0]
                    &&& final(self)@ == rejoined(old(self)@, guest, back_in_line).drop_first()
                },
                None => !back_in_line && old(self)@.len() == 0 && final(self)@ == old(self)@,
            },
    {
        if back_in_line {
            self.line.push(guest);
        }
        self.call_next()
    }
}

} // verus!
