//! Typed failures of the escrow operations.
//!
//! Every precondition violation aborts the whole operation with no partial
//! state mutation and no fund movement; the failure is reported synchronously
//! as the operation's result.

use vstd::prelude::*;

verus! {

/// The closed set of failures an escrow operation can report.
#[derive(Clone, Copy, Debug, PartialEq, Eq, Structural)]
pub enum CustomError {
    /// `join_challenge` or `resolve_challenge` was called while the record is
    /// not in the state that operation requires (also reported when no record
    /// exists for the given creator and challenge id).
    ChallengeNotPending,
    /// Reserved for a second join attempt. The join operation currently
    /// collapses that situation into `ChallengeNotPending`; the variant is
    /// kept as a semantically distinct failure class.
    AlreadyJoined,
    /// `resolve_challenge` was called while both reported distances are equal.
    TieNotAllowed,
    /// An amount computation or a balance credit would exceed the 64-bit range.
    NumericalOverflow,
    /// A deposit or payout exceeds the available balance.
    InsufficientFunds,
    /// `create_challenge` was called for a `(creator, challenge_id)` pair
    /// whose derived address is already occupied by a record.
    RecordAlreadyExists,
    /// No escrow address can be derived for the given seeds.
    InvalidEscrowAddress,
    /// The caller-supplied winner account does not equal the computed winner.
    WinnerMismatch,
}

impl CustomError {
    /// A human-readable description of the failure.
    pub fn message(&self) -> (r: &'static str)
        ensures
            *self == CustomError::ChallengeNotPending ==> r@ == "Challenge is not pending"@,
            *self == CustomError::AlreadyJoined ==> r@ == "Challenge already has a joiner"@,
            *self == CustomError::TieNotAllowed ==> r@ == "Tie not allowed"@,
            *self == CustomError::NumericalOverflow ==> r@ == "Numerical overflow"@,
            *self == CustomError::InsufficientFunds ==> r@ == "Insufficient funds"@,
            *self == CustomError::RecordAlreadyExists ==> r@ == "Record already exists"@,
            *self == CustomError::InvalidEscrowAddress ==> r@ == "Invalid escrow address"@,
            *self == CustomError::WinnerMismatch ==> r@ == "Winner account mismatch"@,
    {
        match self {
            CustomError::ChallengeNotPending => "Challenge is not pending",
            CustomError::AlreadyJoined => "Challenge already has a joiner",
            CustomError::TieNotAllowed => "Tie not allowed",
            CustomError::NumericalOverflow => "Numerical overflow",
            CustomError::InsufficientFunds => "Insufficient funds",
            CustomError::RecordAlreadyExists => "Record already exists",
            CustomError::InvalidEscrowAddress => "Invalid escrow address",
            CustomError::WinnerMismatch => "Winner account mismatch",
        }
    }
}

} // verus!
