//! The escrow: a store of challenge records at derived addresses, the
//! custody of the deposited stakes, and the four operations that move a
//! challenge through its lifecycle.
//!
//! Each record is stored at the address derived from its
//! `(creator, challenge_id)` pair, so no two records for the same pair can
//! coexist. The custodied balance of a record equals `amount` while
//! `Pending`, `2 * amount` while `Joined`, and zero once `Resolved`. Every
//! operation is all-or-nothing: on any failure neither the record nor any
//! balance changes.

use vstd::prelude::*;

use crate::address::derive_escrow_address;
use crate::address::escrow_address_of;
use crate::challenge::Challenge;
use crate::challenge::ChallengeStatus;
use crate::challenge::joined_from;
use crate::challenge::progressed_from;
use crate::challenge::resolved_from;
use crate::challenge::status_rank;
use crate::errors::CustomError;
use crate::identity::Identity;
use crate::ledger::Ledger;

verus! {

/// Accounts of the open operation: the creator signs and pays the deposit.
#[derive(Clone, Copy, Debug, PartialEq, Eq, Structural)]
pub struct CreateChallenge {
    pub creator: Identity,
}

/// Accounts of the join operation: the joiner signs and pays the deposit;
/// the creator is used only to re-derive the record's address.
#[derive(Clone, Copy, Debug, PartialEq, Eq, Structural)]
pub struct JoinChallenge {
    pub joiner: Identity,
    pub creator: Identity,
}

/// Accounts of the report-progress operation: the creator is used only to
/// re-derive the record's address.
#[derive(Clone, Copy, Debug, PartialEq, Eq, Structural)]
pub struct UpdateProgress {
    pub creator: Identity,
}

/// Accounts of the resolve operation: the creator and challenge id re-derive
/// the record's address, and `winner` names the account to be paid, which
/// must equal the computed winner.
#[derive(Clone, Copy, Debug, PartialEq, Eq, Structural)]
pub struct ResolveChallenge {
    pub creator: Identity,
    pub winner: Identity,
    pub challenge_id: u64,
}

/// A challenge record as stored by the escrow: the record itself, the
/// derived address it lives at, the bump chosen at creation, and the funds
/// currently custodied for it.
pub struct StoredRecord {
    /// The 32-byte derived address of the record.
    pub address: Vec<u8>,
    /// The disambiguation byte chosen when the address was derived.
    pub bump: u8,
    /// The funds currently held in custody for this record.
    pub custody: u64,
    /// The record itself.
    pub challenge: Challenge,
}

impl StoredRecord {
    /// A stored record is well formed when its fields satisfy the record
    /// invariants, its address and bump re-derive from its own pair, and its
    /// custody matches its status.
    pub open spec fn wf(self) -> bool {
        &&& self.challenge.wf()
        &&& escrow_address_of(self.challenge.creator, self.challenge.challenge_id) == Some(
            (self.address@, self.bump),
        )
        &&& (self.challenge.status == ChallengeStatus::Pending ==> self.custody
            == self.challenge.amount)
        &&& (self.challenge.status == ChallengeStatus::Joined ==> self.custody == 2
            * self.challenge.amount)
        &&& (self.challenge.status == ChallengeStatus::Resolved ==> self.custody == 0)
    }
}

/// The escrow: the record store and the host ledger of balances.
pub struct Escrow {
    pub ledger: Ledger,
    pub records: Vec<StoredRecord>,
}

impl Escrow {
    /// Every stored record is well formed and no two live at one address.
    pub open spec fn wf(self) -> bool {
        &&& self.ledger.wf()
        &&& forall|i: int| 0 <= i < self.records@.len() ==> (#[trigger] self.records@[i]).wf()
        &&& forall|i: int, j: int|
            0 <= i < j < self.records@.len() ==> (#[trigger] self.records@[i]).address@ != (
            #[trigger] self.records@[j]).address@
    }

    /// Some record already lives at `address`.
    pub open spec fn occupied(self, address: Seq<u8>) -> bool {
        exists|i: int|
            0 <= i < self.records@.len() && (#[trigger] self.records@[i]).address@ == address
    }

    /// A record exists for the `(creator, challenge_id)` pair.
    pub open spec fn has_record(self, creator: Identity, challenge_id: u64) -> bool {
        exists|i: int|
            0 <= i < self.records@.len() && (#[trigger] self.records@[i]).challenge.creator
                == creator && self.records@[i].challenge.challenge_id == challenge_id
    }

    /// The index of the record for `(creator, challenge_id)`; meaningful
    /// only when `has_record` holds, and then unique in a well-formed escrow.
    pub open spec fn record_index(self, creator: Identity, challenge_id: u64) -> int {
        choose|i: int|
            0 <= i < self.records@.len() && (#[trigger] self.records@[i]).challenge.creator
                == creator && self.records@[i].challenge.challenge_id == challenge_id
    }

    /// An empty escrow: no records and an empty ledger.
    pub fn new() -> (r: Escrow)
        ensures
            r.wf(),
            r.records@.len() == 0,
            r.ledger.entries@.len() == 0,
            forall|who: Identity| #[trigger] r.ledger.balance_spec(who) == 0,
    {
        Escrow { ledger: Ledger::new(), records: Vec::new() }
    }

    /// The index of the record stored at `address`, if one is.
    fn find_by_address(&self, address: &Vec<u8>) -> (r: Option<usize>)
        ensures
            (match r {
                Some(i) => i < self.records@.len() && self.records@[i as int].address@ == address@,
                None => !self.occupied(address@),
            }),
    {
        let mut i: usize = 0;
        while i < self.records.len()
            invariant
                i <= self.records@.len(),
                forall|k: int| 0 <= k < i ==> (#[trigger] self.records@[k]).address@ != address@,
            decreases self.records@.len() - i,
        {
            if bytes_eq(&self.records[i].address, address) {
                return Some(i);
            }
            i = i + 1;
        }
        None
    }

    /// The index of the record for `(creator, challenge_id)`, if one exists.
    fn find_record(&self, creator: &Identity, challenge_id: u64) -> (r: Option<usize>)
        requires
            self.wf(),
        ensures
            (match r {
                Some(i) => i < self.records@.len() && self.has_record(*creator, challenge_id) && i
                    as int == self.record_index(*creator, challenge_id),
                None => !self.has_record(*creator, challenge_id),
            }),
    {
        let mut i: usize = 0;
        while i < self.records.len()
            invariant
                self.wf(),
                i <= self.records@.len(),
                forall|k: int|
                    0 <= k < i ==> !((#[trigger] self.records@[k]).challenge.creator == *creator
                        && self.records@[k].challenge.challenge_id == challenge_id),
            decreases self.records@.len() - i,
        {
            if self.records[i].challenge.creator == *creator && self.records[i].challenge.challenge_id
                == challenge_id {
                proof {
                    assert(self.records@[i as int].challenge.creator == *creator
                        && self.records@[i as int].challenge.challenge_id == challenge_id);
                    assert(self.has_record(*creator, challenge_id));
                    let j = self.record_index(*creator, challenge_id);
                    assert(0 <= j < self.records@.len() && self.records@[j].challenge.creator
                        == *creator && self.records@[j].challenge.challenge_id == challenge_id);
                    lemma_pair_unique(*self, i as int, j);
                }
                return Some(i);
            }
            i = i + 1;
        }
        None
    }
}

/// Two byte strings are equal exactly when their views are.
fn bytes_eq(a: &Vec<u8>, b: &Vec<u8>) -> (r: bool)
    ensures
        r <==> a@ == b@,
{
    if a.len() != b.len() {
        return false;
    }
    let mut i: usize = 0;
    while i < a.len()
        invariant
            i <= a@.len(),
            a@.len() == b@.len(),
            forall|k: int| 0 <= k < i ==> a@[k] == b@[k],
        decreases a@.len() - i,
    {
        if a[i] != b[i] {
            return false;
        }
        i = i + 1;
    }
    proof {
        assert(a@ =~= b@);
    }
    true
}

/// Opens a challenge: allocates a record at the address derived from
/// `(ctx.creator, challenge_id)` and atomically moves `amount` from the
/// creator's balance into the record's custody.
///
/// Fails with `RecordAlreadyExists` when the derived address is occupied,
/// with `InsufficientFunds` when the creator cannot cover `amount`, and with
/// `InvalidEscrowAddress` in the statistically improbable event that no
/// address can be derived for the pair. On failure nothing changes: the
/// record is not created and no funds move.
pub fn create_challenge(
    escrow: &mut Escrow,
    ctx: CreateChallenge,
    challenge_id: u64,
    amount: u64,
    challenge_name: String,
) -> (r: Result<(), CustomError>)
    requires
        old(escrow).wf(),
        amount >= 1,
        challenge_name@.len() <= 100,
    ensures
        final(escrow).wf(),
        ({
            let pre = *old(escrow);
            let post = *final(escrow);
            match escrow_address_of(ctx.creator, challenge_id) {
                None => r == Err::<(), CustomError>(CustomError::InvalidEscrowAddress) && post
                    == pre,
                Some((address, bump)) => {
                    if pre.occupied(address) {
                        r == Err::<(), CustomError>(CustomError::RecordAlreadyExists) && post
                            == pre
                    } else if pre.ledger.balance_spec(ctx.creator) < amount {
                        r == Err::<(), CustomError>(CustomError::InsufficientFunds) && post == pre
                    } else {
                        &&& r is Ok
                        &&& post.records@.len() == pre.records@.len() + 1
                        &&& forall|k: int|
                            0 <= k < pre.records@.len() ==> (#[trigger] post.records@[k])
                                == pre.records@[k]
                        &&& ({
                            let rec = post.records@.last();
                            &&& rec.address@ == address
                            &&& rec.bump == bump
                            &&& rec.custody == amount
                            &&& rec.challenge.challenge_name == challenge_name
                            &&& rec.challenge.challenge_id == challenge_id
                            &&& rec.challenge.creator == ctx.creator
                            &&& rec.challenge.joiner == Identity::empty_spec()
                            &&& rec.challenge.creator_distance == 0
                            &&& rec.challenge.joiner_distance == 0
                            &&& rec.challenge.token_mint == Identity::empty_spec()
                            &&& rec.challenge.amount == amount
                            &&& rec.challenge.winner == Identity::empty_spec()
                            &&& rec.challenge.status == ChallengeStatus::Pending
                        })
                        &&& post.occupied(address)
                        &&& post.has_record(ctx.creator, challenge_id)
                        &&& post.ledger.balance_spec(ctx.creator) == pre.ledger.balance_spec(
                            ctx.creator,
                        ) - amount
                        &&& forall|other: Identity|
                            other != ctx.creator ==> #[trigger] post.ledger.balance_spec(other)
                                == pre.ledger.balance_spec(other)
                    }
                },
            }
        }),
{
    match derive_escrow_address(&ctx.creator, challenge_id) {
        None => Err(CustomError::InvalidEscrowAddress),
        Some((address, bump)) => {
            match escrow.find_by_address(&address) {
                Some(_) => Err(CustomError::RecordAlreadyExists),
                None => {
                    match escrow.ledger.debit(&ctx.creator, amount) {
                        Err(e) => Err(e),
                        Ok(()) => {
                            let challenge = Challenge::new(
                                challenge_id,
                                ctx.creator,
                                amount,
                                challenge_name,
                            );
                            let ghost pre_records = escrow.records@;
                            let record = StoredRecord { address, bump, custody: amount, challenge };
                            let ghost grec = record;
                            escrow.records.push(record);
                            proof {
                                assert(escrow.records@ =~= pre_records.push(grec));
                                assert(grec.wf());
                                assert forall|k: int|
                                    0 <= k < escrow.records@.len() implies (
                                #[trigger] escrow.records@[k]).wf() by {
                                    if k < pre_records.len() {
                                        assert(escrow.records@[k] == pre_records[k]);
                                        assert(pre_records[k].wf());
                                    }
                                }
                                assert forall|a: int, b: int|
                                    0 <= a < b < escrow.records@.len() implies (
                                #[trigger] escrow.records@[a]).address@ != (
                                #[trigger] escrow.records@[b]).address@ by {
                                    if b < pre_records.len() {
                                        assert(pre_records[a].address@ != pre_records[b].address@);
                                    } else {
                                        assert(escrow.records@[b] == grec);
                                        assert(!old(escrow).occupied(grec.address@));
                                        assert(escrow.records@[a] == pre_records[a]);
                                    }
                                }
                                assert(escrow.records@.last() == grec);
                            }
                            Ok(())
                        },
                    }
                },
            }
        },
    }
}

/// Joins a pending challenge: binds the joiner, moves the status to
/// `Joined`, and atomically moves `amount` from the joiner's balance into
/// the record's custody, bringing it to `2 * amount`.
///
/// Fails with `ChallengeNotPending` when no record exists for
/// `(ctx.creator, challenge_id)` or the record is not `Pending` (also the
/// error a second joiner, or the same participant joining twice, receives),
/// with `NumericalOverflow` when the doubled custody would not fit in 64
/// bits, and with `InsufficientFunds` when the joiner cannot cover `amount`.
/// On failure nothing changes. Nothing prevents `ctx.joiner == ctx.creator`:
/// self-joining is deliberately left to policy outside the escrow.
pub fn join_challenge(escrow: &mut Escrow, ctx: JoinChallenge, challenge_id: u64) -> (r: Result<
    (),
    CustomError,
>)
    requires
        old(escrow).wf(),
    ensures
        final(escrow).wf(),
        ({
            let pre = *old(escrow);
            let post = *final(escrow);
            if !pre.has_record(ctx.creator, challenge_id) {
                r == Err::<(), CustomError>(CustomError::ChallengeNotPending) && post == pre
            } else {
                let i = pre.record_index(ctx.creator, challenge_id);
                let rec = pre.records@[i];
                if rec.challenge.status != ChallengeStatus::Pending {
                    r == Err::<(), CustomError>(CustomError::ChallengeNotPending) && post == pre
                } else if 2 * rec.challenge.amount > u64::MAX {
                    r == Err::<(), CustomError>(CustomError::NumericalOverflow) && post == pre
                } else if pre.ledger.balance_spec(ctx.joiner) < rec.challenge.amount {
                    r == Err::<(), CustomError>(CustomError::InsufficientFunds) && post == pre
                } else {
                    &&& r is Ok
                    &&& post.records@.len() == pre.records@.len()
                    &&& forall|k: int|
                        0 <= k < pre.records@.len() && k != i ==> (#[trigger] post.records@[k])
                            == pre.records@[k]
                    &&& joined_from(rec.challenge, post.records@[i].challenge, ctx.joiner)
                    &&& post.records@[i].address@ == rec.address@
                    &&& post.records@[i].bump == rec.bump
                    &&& post.records@[i].custody == 2 * rec.challenge.amount
                    &&& post.ledger.balance_spec(ctx.joiner) == pre.ledger.balance_spec(ctx.joiner)
                        - rec.challenge.amount
                    &&& forall|other: Identity|
                        other != ctx.joiner ==> #[trigger] post.ledger.balance_spec(other)
                            == pre.ledger.balance_spec(other)
                }
            }
        }),
        final(escrow).records@.len() == old(escrow).records@.len(),
        forall|k: int|
            0 <= k < old(escrow).records@.len() ==> status_rank(
                old(escrow).records@[k].challenge.status,
            ) <= status_rank((#[trigger] final(escrow).records@[k]).challenge.status),
{
    let idx = match escrow.find_record(&ctx.creator, challenge_id) {
        None => {
            return Err(CustomError::ChallengeNotPending);
        },
        Some(i) => i,
    };
    if escrow.records[idx].challenge.status != ChallengeStatus::Pending {
        return Err(CustomError::ChallengeNotPending);
    }
    let amount = escrow.records[idx].challenge.amount;
    let custody = escrow.records[idx].custody;
    proof {
        assert(old(escrow).records@[idx as int].wf());
    }
    let new_custody = match custody.checked_add(amount) {
        None => {
            return Err(CustomError::NumericalOverflow);
        },
        Some(c) => c,
    };
    match escrow.ledger.debit(&ctx.joiner, amount) {
        Err(e) => {
            return Err(e);
        },
        Ok(()) => {},
    }
    let ghost pre_records = escrow.records@;
    let mut rec = escrow.records.remove(idx);
    rec.challenge.joiner = ctx.joiner;
    rec.challenge.status = ChallengeStatus::Joined;
    rec.custody = new_custody;
    let ghost grec = rec;
    escrow.records.insert(idx, rec);
    proof {
        assert(escrow.records@ =~= pre_records.update(idx as int, grec));
        assert(grec.wf());
        assert forall|k: int| 0 <= k < escrow.records@.len() implies (
        #[trigger] escrow.records@[k]).wf() by {
            if k != idx as int {
                assert(escrow.records@[k] == pre_records[k]);
                assert(pre_records[k].wf());
            }
        }
        assert forall|a: int, b: int|
            0 <= a < b < escrow.records@.len() implies (#[trigger] escrow.records@[a]).address@ != (
        #[trigger] escrow.records@[b]).address@ by {
            assert(pre_records[a].address@ != pre_records[b].address@);
            assert(escrow.records@[a].address@ == pre_records[a].address@);
            assert(escrow.records@[b].address@ == pre_records[b].address@);
        }
    }
    Ok(())
}

/// Overwrites both progress metrics of the record for
/// `(ctx.creator, challenge_id)`, last write wins, in any state and with no
/// caller authentication: restricting the reporter is deliberately left to
/// policy outside the escrow. Fails with `ChallengeNotPending`, changing
/// nothing, exactly when no record exists for the pair.
pub fn update_progress(
    escrow: &mut Escrow,
    ctx: UpdateProgress,
    creator_distance: u64,
    joiner_distance: u64,
    challenge_id: u64,
) -> (r: Result<(), CustomError>)
    requires
        old(escrow).wf(),
    ensures
        final(escrow).wf(),
        ({
            let pre = *old(escrow);
            let post = *final(escrow);
            if !pre.has_record(ctx.creator, challenge_id) {
                r == Err::<(), CustomError>(CustomError::ChallengeNotPending) && post == pre
            } else {
                let i = pre.record_index(ctx.creator, challenge_id);
                let rec = pre.records@[i];
                &&& r is Ok
                &&& post.records@.len() == pre.records@.len()
                &&& forall|k: int|
                    0 <= k < pre.records@.len() && k != i ==> (#[trigger] post.records@[k])
                        == pre.records@[k]
                &&& progressed_from(
                    rec.challenge,
                    post.records@[i].challenge,
                    creator_distance,
                    joiner_distance,
                )
                &&& post.records@[i].address@ == rec.address@
                &&& post.records@[i].bump == rec.bump
                &&& post.records@[i].custody == rec.custody
                &&& post.ledger == pre.ledger
            }
        }),
        final(escrow).records@.len() == old(escrow).records@.len(),
        forall|k: int|
            0 <= k < old(escrow).records@.len() ==> status_rank(
                old(escrow).records@[k].challenge.status,
            ) <= status_rank((#[trigger] final(escrow).records@[k]).challenge.status),
{
    let idx = match escrow.find_record(&ctx.creator, challenge_id) {
        None => {
            return Err(CustomError::ChallengeNotPending);
        },
        Some(i) => i,
    };
    let ghost pre_records = escrow.records@;
    let mut rec = escrow.records.remove(idx);
    rec.challenge.update_progress(creator_distance, joiner_distance);
    let ghost grec = rec;
    escrow.records.insert(idx, rec);
    proof {
        assert(escrow.records@ =~= pre_records.update(idx as int, grec));
        assert(old(escrow).records@[idx as int].wf());
        assert(grec.wf());
        assert forall|k: int| 0 <= k < escrow.records@.len() implies (
        #[trigger] escrow.records@[k]).wf() by {
            if k != idx as int {
                assert(escrow.records@[k] == pre_records[k]);
                assert(pre_records[k].wf());
            }
        }
        assert forall|a: int, b: int|
            0 <= a < b < escrow.records@.len() implies (#[trigger] escrow.records@[a]).address@ != (
        #[trigger] escrow.records@[b]).address@ by {
            assert(pre_records[a].address@ != pre_records[b].address@);
            assert(escrow.records@[a].address@ == pre_records[a].address@);
            assert(escrow.records@[b].address@ == pre_records[b].address@);
        }
    }
    Ok(())
}

/// Resolves a joined challenge: decides the winner by comparing the reported
/// distances, records the winner, moves the status to `Resolved`, and pays
/// the whole custodied pot, `2 * amount`, to the winner's balance. The
/// payout is authorized by the escrow itself: the record's seed sequence and
/// stored bump re-derive its address (see `StoredRecord::wf`), which no
/// external key can do.
///
/// Fails with `ChallengeNotPending` when no record exists for
/// `(ctx.creator, ctx.challenge_id)` or the record is not `Joined`, with
/// `TieNotAllowed` when the distances are equal (the record stays `Joined`,
/// custody unchanged, and may be resolved later once the metrics diverge),
/// with `WinnerMismatch` when `ctx.winner` is not the computed winner, and
/// with `NumericalOverflow` when the winner's credited balance would not fit
/// in 64 bits. On failure nothing changes.
pub fn resolve_challenge(escrow: &mut Escrow, ctx: ResolveChallenge) -> (r: Result<
    (),
    CustomError,
>)
    requires
        old(escrow).wf(),
    ensures
        final(escrow).wf(),
        ({
            let pre = *old(escrow);
            let post = *final(escrow);
            if !pre.has_record(ctx.creator, ctx.challenge_id) {
                r == Err::<(), CustomError>(CustomError::ChallengeNotPending) && post == pre
            } else {
                let i = pre.record_index(ctx.creator, ctx.challenge_id);
                let rec = pre.records@[i];
                let c = rec.challenge;
                if c.status != ChallengeStatus::Joined {
                    r == Err::<(), CustomError>(CustomError::ChallengeNotPending) && post == pre
                } else if c.creator_distance == c.joiner_distance {
                    r == Err::<(), CustomError>(CustomError::TieNotAllowed) && post == pre
                } else {
                    let winner = if c.creator_distance > c.joiner_distance {
                        c.creator
                    } else {
                        c.joiner
                    };
                    if ctx.winner != winner {
                        r == Err::<(), CustomError>(CustomError::WinnerMismatch) && post == pre
                    } else if pre.ledger.balance_spec(winner) + 2 * c.amount > u64::MAX {
                        r == Err::<(), CustomError>(CustomError::NumericalOverflow) && post == pre
                    } else {
                        &&& r is Ok
                        &&& post.records@.len() == pre.records@.len()
                        &&& forall|k: int|
                            0 <= k < pre.records@.len() && k != i ==> (#[trigger] post.records@[k])
                                == pre.records@[k]
                        &&& resolved_from(c, post.records@[i].challenge, winner)
                        &&& post.records@[i].address@ == rec.address@
                        &&& post.records@[i].bump == rec.bump
                        &&& post.records@[i].custody == 0
                        &&& post.ledger.balance_spec(winner) == pre.ledger.balance_spec(winner) + 2
                            * c.amount
                        &&& forall|other: Identity|
                            other != winner ==> #[trigger] post.ledger.balance_spec(other)
                                == pre.ledger.balance_spec(other)
                    }
                }
            }
        }),
        final(escrow).records@.len() == old(escrow).records@.len(),
        forall|k: int|
            0 <= k < old(escrow).records@.len() ==> status_rank(
                old(escrow).records@[k].challenge.status,
            ) <= status_rank((#[trigger] final(escrow).records@[k]).challenge.status),
{
    let idx = match escrow.find_record(&ctx.creator, ctx.challenge_id) {
        None => {
            return Err(CustomError::ChallengeNotPending);
        },
        Some(i) => i,
    };
    proof {
        assert(old(escrow).records@[idx as int].wf());
    }
    let custody = escrow.records[idx].custody;
    let decision = escrow.records[idx].challenge.decide_resolution(custody);
    let (winner, payout) = match decision {
        Err(e) => {
            return Err(e);
        },
        Ok(p) => p,
    };
    if ctx.winner != winner {
        return Err(CustomError::WinnerMismatch);
    }
    match escrow.ledger.credit(&ctx.winner, payout) {
        Err(e) => {
            return Err(e);
        },
        Ok(()) => {},
    }
    let ghost pre_records = escrow.records@;
    let mut rec = escrow.records.remove(idx);
    rec.challenge.winner = winner;
    rec.challenge.status = ChallengeStatus::Resolved;
    rec.custody = 0;
    let ghost grec = rec;
    escrow.records.insert(idx, rec);
    proof {
        assert(escrow.records@ =~= pre_records.update(idx as int, grec));
        assert(grec.wf());
        assert forall|k: int| 0 <= k < escrow.records@.len() implies (
        #[trigger] escrow.records@[k]).wf() by {
            if k != idx as int {
                assert(escrow.records@[k] == pre_records[k]);
                assert(pre_records[k].wf());
            }
        }
        assert forall|a: int, b: int|
            0 <= a < b < escrow.records@.len() implies (#[trigger] escrow.records@[a]).address@ != (
        #[trigger] escrow.records@[b]).address@ by {
            assert(pre_records[a].address@ != pre_records[b].address@);
            assert(escrow.records@[a].address@ == pre_records[a].address@);
            assert(escrow.records@[b].address@ == pre_records[b].address@);
        }
    }
    Ok(())
}

/// Opening twice at one address fails the second time: in a well-formed
/// escrow that already holds a record for `(creator, challenge_id)`, the
/// address derivation for the pair succeeds and yields an occupied address,
/// which is exactly the condition under which `create_challenge` returns
/// `RecordAlreadyExists` and changes nothing.
pub proof fn lemma_open_is_exclusive(e: Escrow, creator: Identity, challenge_id: u64)
    requires
        e.wf(),
        e.has_record(creator, challenge_id),
    ensures
        (match escrow_address_of(creator, challenge_id) {
            Some((address, bump)) => e.occupied(address),
            None => false,
        }),
{
    let i = choose|i: int|
        0 <= i < e.records@.len() && (#[trigger] e.records@[i]).challenge.creator == creator
            && e.records@[i].challenge.challenge_id == challenge_id;
    assert(e.records@[i].wf());
    assert(escrow_address_of(creator, challenge_id) == Some(
        (e.records@[i].address@, e.records@[i].bump),
    ));
}

/// In a well-formed escrow, two records for the same pair are one record:
/// the address derivation is a function of the pair, and addresses are
/// unique, so the indices coincide.
pub proof fn lemma_pair_unique(e: Escrow, i: int, j: int)
    requires
        e.wf(),
        0 <= i < e.records@.len(),
        0 <= j < e.records@.len(),
        e.records@[i].challenge.creator == e.records@[j].challenge.creator,
        e.records@[i].challenge.challenge_id == e.records@[j].challenge.challenge_id,
    ensures
        i == j,
{
    if i != j {
        let ri = e.records@[i];
        let rj = e.records@[j];
        assert(ri.wf());
        assert(rj.wf());
        assert(Some((ri.address@, ri.bump)) == Some((rj.address@, rj.bump)));
        assert(ri.address@ == rj.address@);
        if i < j {
            assert(ri.address@ != rj.address@);
        } else {
            assert(rj.address@ != ri.address@);
        }
    }
}

} // verus!
