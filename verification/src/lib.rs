//! A deterministic raffle-round engine: rounds are opened by admins,
//! joined by staking participants, and finalized by drawing weighted
//! winners from a reproducible pseudo-random stream and paying them
//! proportional shares of the custodied deposit.
//!
//! All state lives in an explicit [`contract::RaffleStore`] passed into
//! every operation; persistence, transport and settlement are the
//! caller's business.

pub mod contract;
pub mod entropy;
pub mod errors;
pub mod msg;
pub mod payout;
pub mod selector;
pub mod state;
