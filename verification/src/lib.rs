//! A simulation engine for the Minotaur's birthday party.
//!
//! A fixed number of guests are let into a labyrinth one at a time. At its
//! end stands a plate that either holds a cupcake or is empty. The guests may
//! not talk to each other: the plate is all they share. One of them, the
//! counter, tallies the empty plates it finds and has each one refilled; when
//! its tally reaches the number of the other guests it announces that the
//! party is over, and the Minotaur sends everyone home.
//!
//! The crate holds the rules of that protocol as verified code:
//!
//! - [`labyrinth`]: the shared state, a plate and an announcement;
//! - [`guest`]: what one guest does on one visit;
//! - [`minotaur`]: whom the Minotaur sends in next, and how it sends
//!   everyone home;
//! - [`party`]: the whole party, played turn by turn;
//! - [`laws`]: what holds of every party, whoever is sent in;
//! - [`showroom`]: the waiting line of the evening's other game, the
//!   crystal vase.
//!
//! Threads and channels are left to the caller. Each function here is one
//! decision of one actor; whoever calls them one at a time, in the order the
//! Minotaur gives, gets the guarantees proved in [`laws`].

pub mod error;
pub mod labyrinth;
pub mod guest;
pub mod minotaur;
pub mod party;
pub mod laws;
pub mod showroom;
