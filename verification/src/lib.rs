//! A two-party, escrow-backed wager ("challenge").
//!
//! Two participants each deposit an equal stake into a challenge record's
//! custody; a progress metric is recorded for each side, and the whole pot is
//! released to the participant with the larger metric. The record is stored
//! at an address derived deterministically from the creator's key and the
//! challenge id, and the payout is authorized by re-deriving that same seed
//! sequence, so no private key ever holds the escrowed funds.

pub mod address;
pub mod challenge;
pub mod errors;
pub mod escrow;
pub mod identity;
pub mod ledger;
