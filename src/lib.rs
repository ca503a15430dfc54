//! A slot-limited Dutch auction: configuration records, rounds whose price
//! decays linearly to zero, bids that consume one slot each and re-base the
//! decay curve, and closing of a round by its owner.
pub mod identity;
pub mod pricing;
pub mod error;
pub mod state;
pub mod instructions;
pub mod auction;
pub mod laws;
