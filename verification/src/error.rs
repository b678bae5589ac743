//! The ways in which a party can fail.

use vstd::prelude::*;

verus! {

/// Why the library refused to go on.
#[derive(Clone, Copy, Debug, PartialEq, Eq, Structural)]
pub enum PartyError {
    /// The party has fewer than two guests, or a seat that is not at the
    /// table: with nobody but the counter there is nothing to count.
    InvalidConfiguration,
    /// A signal was sent that nobody can answer, or an answer came that
    /// nobody was waiting for. The rendezvous has no retry: this is fatal.
    ProtocolViolation,
}

} // verus!
