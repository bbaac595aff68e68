//! A single-item, time-bounded auction kept as a state machine over one record.
//!
//! An auction is opened with a minimum bid and a duration in minutes, takes
//! strictly increasing bids while it is open, and once the duration has passed
//! is closed: the final bid is then owed by the winner to the creator.

pub mod identity;
pub mod auction;
pub mod laws;
