//! Settlement engine of a binary prediction market: epochs, deposit admission,
//! oracle consensus, pari-mutuel payouts, win streaks and sybil gating.
pub mod epoch;
pub mod error;
pub mod events;
pub mod heat;
pub mod laws;
pub mod market;
pub mod math;
pub mod payout;
pub mod state;
pub mod streak;
pub mod sybil;
