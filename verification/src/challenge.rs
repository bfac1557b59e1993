//! The challenge record and its lifecycle state machine.
//!
//! One record exists per challenge. Its `status` only moves forward
//! (`Pending` to `Joined` to `Resolved`), its `amount` is fixed at creation,
//! and its `winner` stays empty until the record is resolved. Every failed
//! transition leaves the record exactly as it was.

use vstd::prelude::*;

use crate::errors::CustomError;
use crate::identity::Identity;

verus! {

/// The lifecycle state of a challenge record.
#[derive(Clone, Copy, Debug, PartialEq, Eq, Structural)]
pub enum ChallengeStatus {
    /// Created and funded by the creator; waiting for a second participant.
    Pending,
    /// Both participants have deposited their stake.
    Joined,
    /// The pot has been paid out; the record remains as an audit trail.
    Resolved,
}

/// How far along the lifecycle a status is; transitions never decrease it.
pub open spec fn status_rank(s: ChallengeStatus) -> int {
    match s {
        ChallengeStatus::Pending => 0,
        ChallengeStatus::Joined => 1,
        ChallengeStatus::Resolved => 2,
    }
}

/// One persistent challenge record.
pub struct Challenge {
    /// Display label; no semantic effect. At most 100 characters.
    pub challenge_name: String,
    /// Caller-chosen identifier; part of the record's address derivation.
    pub challenge_id: u64,
    /// First participant; deposits the initial stake.
    pub creator: Identity,
    /// Second participant; empty until the challenge is joined.
    pub joiner: Identity,
    /// Latest reported progress metric of the creator.
    pub creator_distance: u64,
    /// Latest reported progress metric of the joiner.
    pub joiner_distance: u64,
    /// Reserved for token-denominated stakes; unused by any transition.
    pub token_mint: Identity,
    /// Stake each side must deposit; fixed at creation.
    pub amount: u64,
    /// Set exactly once, when the record is resolved.
    pub winner: Identity,
    /// Lifecycle state; only moves forward.
    pub status: ChallengeStatus,
}

/// `post` is `pre` with the joiner bound and the status moved to `Joined`.
pub open spec fn joined_from(pre: Challenge, post: Challenge, joiner: Identity) -> bool {
    &&& post.challenge_name == pre.challenge_name
    &&& post.challenge_id == pre.challenge_id
    &&& post.creator == pre.creator
    &&& post.joiner == joiner
    &&& post.creator_distance == pre.creator_distance
    &&& post.joiner_distance == pre.joiner_distance
    &&& post.token_mint == pre.token_mint
    &&& post.amount == pre.amount
    &&& post.winner == pre.winner
    &&& post.status == ChallengeStatus::Joined
}

/// `post` is `pre` with both progress metrics overwritten.
pub open spec fn progressed_from(
    pre: Challenge,
    post: Challenge,
    creator_distance: u64,
    joiner_distance: u64,
) -> bool {
    &&& post.challenge_name == pre.challenge_name
    &&& post.challenge_id == pre.challenge_id
    &&& post.creator == pre.creator
    &&& post.joiner == pre.joiner
    &&& post.creator_distance == creator_distance
    &&& post.joiner_distance == joiner_distance
    &&& post.token_mint == pre.token_mint
    &&& post.amount == pre.amount
    &&& post.winner == pre.winner
    &&& post.status == pre.status
}

/// `post` is `pre` with the winner recorded and the status moved to `Resolved`.
pub open spec fn resolved_from(pre: Challenge, post: Challenge, winner: Identity) -> bool {
    &&& post.challenge_name == pre.challenge_name
    &&& post.challenge_id == pre.challenge_id
    &&& post.creator == pre.creator
    &&& post.joiner == pre.joiner
    &&& post.creator_distance == pre.creator_distance
    &&& post.joiner_distance == pre.joiner_distance
    &&& post.token_mint == pre.token_mint
    &&& post.amount == pre.amount
    &&& post.winner == winner
    &&& post.status == ChallengeStatus::Resolved
}

impl Challenge {
    /// Field invariants a stored record always satisfies: the name stays in
    /// bounds, participants are bound no earlier than their transition, and
    /// the winner, once set, is one of the two participants.
    pub open spec fn wf(self) -> bool {
        &&& self.challenge_name@.len() <= 100
        &&& (self.status == ChallengeStatus::Pending ==> self.joiner == Identity::empty_spec()
            && self.winner == Identity::empty_spec())
        &&& (self.status == ChallengeStatus::Joined ==> self.winner == Identity::empty_spec())
        &&& (self.status == ChallengeStatus::Resolved ==> self.winner == self.creator
            || self.winner == self.joiner)
    }

    /// A fresh `Pending` record: all fields populated from the inputs, both
    /// metrics zero, and the joiner, winner and token mint left empty.
    pub fn new(challenge_id: u64, creator: Identity, amount: u64, challenge_name: String) -> (r:
        Challenge)
        requires
            challenge_name@.len() <= 100,
        ensures
            r.challenge_name == challenge_name,
            r.challenge_id == challenge_id,
            r.creator == creator,
            r.joiner == Identity::empty_spec(),
            r.creator_distance == 0,
            r.joiner_distance == 0,
            r.token_mint == Identity::empty_spec(),
            r.amount == amount,
            r.winner == Identity::empty_spec(),
            r.status == ChallengeStatus::Pending,
            r.wf(),
    {
        Challenge {
            challenge_name,
            challenge_id,
            creator,
            joiner: Identity::empty(),
            creator_distance: 0,
            joiner_distance: 0,
            token_mint: Identity::empty(),
            amount,
            winner: Identity::empty(),
            status: ChallengeStatus::Pending,
        }
    }

    /// The resolution decision for this record, with `custody` funds held:
    /// which participant wins and how much is paid out, or why the record
    /// cannot be resolved. Decides only; mutates nothing.
    ///
    /// In order: the record must be `Joined`; equal metrics are a tie; the
    /// payout `2 * amount` must not overflow; custody must cover the payout.
    pub fn decide_resolution(&self, custody: u64) -> (r: Result<(Identity, u64), CustomError>)
        ensures
            self.status != ChallengeStatus::Joined ==> r == Err::<(Identity, u64), CustomError>(
                CustomError::ChallengeNotPending,
            ),
            self.status == ChallengeStatus::Joined && self.creator_distance
                == self.joiner_distance ==> r == Err::<(Identity, u64), CustomError>(
                CustomError::TieNotAllowed,
            ),
            self.status == ChallengeStatus::Joined && self.creator_distance
                != self.joiner_distance && 2 * self.amount > u64::MAX ==> r == Err::<
                (Identity, u64),
                CustomError,
            >(CustomError::NumericalOverflow),
            self.status == ChallengeStatus::Joined && self.creator_distance
                != self.joiner_distance && 2 * self.amount <= u64::MAX && custody < 2 * self.amount
                ==> r == Err::<(Identity, u64), CustomError>(CustomError::InsufficientFunds),
            self.status == ChallengeStatus::Joined && self.creator_distance
                != self.joiner_distance && 2 * self.amount <= u64::MAX && custody >= 2 * self.amount
                ==> r == Ok::<(Identity, u64), CustomError>(
                (
                    if self.creator_distance > self.joiner_distance {
                        self.creator
                    } else {
                        self.joiner
                    },
                    (2 * self.amount) as u64,
                ),
            ),
    {
        if self.status != ChallengeStatus::Joined {
            return Err(CustomError::ChallengeNotPending);
        }
        let winner = if self.creator_distance > self.joiner_distance {
            self.creator
        } else if self.joiner_distance > self.creator_distance {
            self.joiner
        } else {
            return Err(CustomError::TieNotAllowed);
        };
        let payout = match self.amount.checked_mul(2) {
            Some(p) => p,
            None => {
                return Err(CustomError::NumericalOverflow);
            },
        };
        if custody < payout {
            return Err(CustomError::InsufficientFunds);
        }
        Ok((winner, payout))
    }

    /// Binds the second participant and moves the record to `Joined`.
    ///
    /// Succeeds exactly when the record is `Pending`; any other state fails
    /// with `ChallengeNotPending` and leaves the record untouched.
    pub fn join(&mut self, joiner: Identity) -> (r: Result<(), CustomError>)
        ensures
            r is Ok <==> old(self).status == ChallengeStatus::Pending,
            r is Ok ==> joined_from(*old(self), *final(self), joiner),
            r is Err ==> *final(self) == *old(self) && r == Err::<(), CustomError>(
                CustomError::ChallengeNotPending,
            ),
            status_rank(old(self).status) <= status_rank(final(self).status),
    {
        if self.status != ChallengeStatus::Pending {
            return Err(CustomError::ChallengeNotPending);
        }
        self.joiner = joiner;
        self.status = ChallengeStatus::Joined;
        Ok(())
    }

    /// Overwrites both progress metrics, last write wins, in any state.
    /// No monotonicity is required of successive reports.
    pub fn update_progress(&mut self, creator_distance: u64, joiner_distance: u64)
        ensures
            progressed_from(*old(self), *final(self), creator_distance, joiner_distance),
    {
        self.creator_distance = creator_distance;
        self.joiner_distance = joiner_distance;
    }

    /// Resolves the record with `custody` funds held: decides the winner as
    /// `decide_resolution` does and, on success, records the winner and moves
    /// the status to `Resolved`. Any failure leaves the record untouched.
    pub fn resolve(&mut self, custody: u64) -> (r: Result<(Identity, u64), CustomError>)
        ensures
            ({
                let pre = *old(self);
                if pre.status != ChallengeStatus::Joined {
                    r == Err::<(Identity, u64), CustomError>(CustomError::ChallengeNotPending)
                        && *final(self) == pre
                } else if pre.creator_distance == pre.joiner_distance {
                    r == Err::<(Identity, u64), CustomError>(CustomError::TieNotAllowed)
                        && *final(self) == pre
                } else if 2 * pre.amount > u64::MAX {
                    r == Err::<(Identity, u64), CustomError>(CustomError::NumericalOverflow)
                        && *final(self) == pre
                } else if custody < 2 * pre.amount {
                    r == Err::<(Identity, u64), CustomError>(CustomError::InsufficientFunds)
                        && *final(self) == pre
                } else {
                    let winner = if pre.creator_distance > pre.joiner_distance {
                        pre.creator
                    } else {
                        pre.joiner
                    };
                    r == Ok::<(Identity, u64), CustomError>((winner, (2 * pre.amount) as u64))
                        && resolved_from(pre, *final(self), winner)
                }
            }),
            status_rank(old(self).status) <= status_rank(final(self).status),
    {
        let decision = self.decide_resolution(custody);
        match decision {
            Ok((winner, payout)) => {
                self.winner = winner;
                self.status = ChallengeStatus::Resolved;
                Ok((winner, payout))
            },
            Err(e) => Err(e),
        }
    }
}

} // verus!
