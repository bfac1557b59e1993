//! An in-memory ledger of account balances.
//!
//! The host of the escrow manages balances; the escrow only debits and
//! credits them. This ledger models that host with atomic-transfer
//! semantics: a debit or credit either fully applies or fails with no
//! change at all.

use vstd::prelude::*;

use crate::errors::CustomError;
use crate::identity::Identity;

verus! {

/// One account: an owner and its balance in native base units.
#[derive(Clone, Copy, Debug, PartialEq, Eq, Structural)]
pub struct LedgerEntry {
    pub owner: Identity,
    pub balance: u64,
}

/// The funds held by `who` over the listed entries. An identity without an
/// entry holds zero.
pub open spec fn balance_of(entries: Seq<LedgerEntry>, who: Identity) -> int
    decreases entries.len(),
{
    if entries.len() == 0 {
        0
    } else {
        balance_of(entries.drop_last(), who) + if entries.last().owner == who {
            entries.last().balance as int
        } else {
            0
        }
    }
}

/// If no entry belongs to `who`, `who` holds zero.
proof fn lemma_balance_absent(entries: Seq<LedgerEntry>, who: Identity)
    requires
        forall|i: int| 0 <= i < entries.len() ==> (#[trigger] entries[i]).owner != who,
    ensures
        balance_of(entries, who) == 0,
    decreases entries.len(),
{
    if entries.len() > 0 {
        assert forall|i: int| 0 <= i < entries.drop_last().len() implies (#[trigger] entries.drop_last()[i]).owner
            != who by {
            assert(entries.drop_last()[i] == entries[i]);
        }
        lemma_balance_absent(entries.drop_last(), who);
        assert(entries.last() == entries[entries.len() - 1]);
    }
}

/// If exactly the entry at `i` belongs to `who`, `who` holds that balance.
proof fn lemma_balance_at(entries: Seq<LedgerEntry>, who: Identity, i: int)
    requires
        0 <= i < entries.len(),
        entries[i].owner == who,
        forall|j: int| 0 <= j < entries.len() && j != i ==> (#[trigger] entries[j]).owner != who,
    ensures
        balance_of(entries, who) == entries[i].balance,
    decreases entries.len(),
{
    if i == entries.len() - 1 {
        assert forall|j: int| 0 <= j < entries.drop_last().len() implies (#[trigger] entries.drop_last()[j]).owner
            != who by {
            assert(entries.drop_last()[j] == entries[j]);
        }
        lemma_balance_absent(entries.drop_last(), who);
        assert(entries.last() == entries[i]);
    } else {
        assert(entries.drop_last()[i] == entries[i]);
        assert forall|j: int|
            0 <= j < entries.drop_last().len() && j != i implies (#[trigger] entries.drop_last()[j]).owner
            != who by {
            assert(entries.drop_last()[j] == entries[j]);
        }
        lemma_balance_at(entries.drop_last(), who, i);
        assert(entries.last() == entries[entries.len() - 1]);
        assert(entries.last().owner != who);
    }
}

/// Replacing the entry at `i` changes each identity's funds by exactly the
/// difference that entry contributes.
proof fn lemma_balance_update(entries: Seq<LedgerEntry>, i: int, e: LedgerEntry, who: Identity)
    requires
        0 <= i < entries.len(),
    ensures
        balance_of(entries.update(i, e), who) == balance_of(entries, who) + (if e.owner == who {
            e.balance as int
        } else {
            0
        }) - (if entries[i].owner == who {
            entries[i].balance as int
        } else {
            0
        }),
    decreases entries.len(),
{
    let updated = entries.update(i, e);
    if i == entries.len() - 1 {
        assert(updated.drop_last() =~= entries.drop_last());
        assert(updated.last() == e);
    } else {
        assert(updated.drop_last() =~= entries.drop_last().update(i, e));
        lemma_balance_update(entries.drop_last(), i, e, who);
        assert(entries.drop_last()[i] == entries[i]);
        assert(updated.last() == entries.last());
    }
}

/// Appending an entry adds exactly that entry's balance to its owner's funds.
proof fn lemma_balance_push(entries: Seq<LedgerEntry>, e: LedgerEntry, who: Identity)
    ensures
        balance_of(entries.push(e), who) == balance_of(entries, who) + (if e.owner == who {
            e.balance as int
        } else {
            0
        }),
{
    assert(entries.push(e).drop_last() =~= entries);
    assert(entries.push(e).last() == e);
}

/// The in-memory ledger: a list of accounts with unique owners.
pub struct Ledger {
    pub entries: Vec<LedgerEntry>,
}

impl Ledger {
    /// Each identity owns at most one entry.
    pub open spec fn wf(self) -> bool {
        forall|i: int, j: int|
            0 <= i < j < self.entries@.len() ==> (#[trigger] self.entries@[i]).owner != (
            #[trigger] self.entries@[j]).owner
    }

    /// The funds held by `who`.
    pub open spec fn balance_spec(self, who: Identity) -> int {
        balance_of(self.entries@, who)
    }

    /// An empty ledger: every identity holds zero.
    pub fn new() -> (r: Ledger)
        ensures
            r.wf(),
            r.entries@.len() == 0,
            forall|who: Identity| #[trigger] r.balance_spec(who) == 0,
    {
        Ledger { entries: Vec::new() }
    }

    /// The index of the entry owned by `who`, if one exists.
    fn find(&self, who: &Identity) -> (r: Option<usize>)
        ensures
            (match r {
                Some(i) => i < self.entries@.len() && self.entries@[i as int].owner == *who,
                None => forall|k: int|
                    0 <= k < self.entries@.len() ==> (#[trigger] self.entries@[k]).owner != *who,
            }),
    {
        let mut i: usize = 0;
        while i < self.entries.len()
            invariant
                i <= self.entries@.len(),
                forall|k: int| 0 <= k < i ==> (#[trigger] self.entries@[k]).owner != *who,
            decreases self.entries@.len() - i,
        {
            if self.entries[i].owner == *who {
                return Some(i);
            }
            i = i + 1;
        }
        None
    }

    /// The balance held by `who`; zero when `who` has no entry.
    pub fn balance(&self, who: &Identity) -> (r: u64)
        requires
            self.wf(),
        ensures
            r == self.balance_spec(*who),
    {
        match self.find(who) {
            Some(i) => {
                proof {
                    lemma_balance_at(self.entries@, *who, i as int);
                }
                self.entries[i].balance
            },
            None => {
                proof {
                    lemma_balance_absent(self.entries@, *who);
                }
                0
            },
        }
    }

    /// Adds `amount` to the funds of `who`, creating the entry if needed.
    /// Fails with `NumericalOverflow`, changing nothing, exactly when the new
    /// balance would not fit in 64 bits.
    pub fn credit(&mut self, who: &Identity, amount: u64) -> (r: Result<(), CustomError>)
        requires
            old(self).wf(),
        ensures
            final(self).wf(),
            r is Ok <==> old(self).balance_spec(*who) + amount <= u64::MAX,
            r is Ok ==> final(self).balance_spec(*who) == old(self).balance_spec(*who) + amount,
            r is Err ==> *final(self) == *old(self) && r == Err::<(), CustomError>(
                CustomError::NumericalOverflow,
            ),
            forall|other: Identity|
                other != *who ==> #[trigger] final(self).balance_spec(other) == old(
                    self,
                ).balance_spec(other),
    {
        match self.find(who) {
            Some(i) => {
                proof {
                    lemma_balance_at(self.entries@, *who, i as int);
                }
                let held = self.entries[i].balance;
                match held.checked_add(amount) {
                    Some(new_balance) => {
                        let ghost pre = self.entries@;
                        self.entries.set(i, LedgerEntry { owner: *who, balance: new_balance });
                        proof {
                            assert forall|other: Identity| true implies balance_of(
                                self.entries@,
                                other,
                            ) == balance_of(pre, other) + (if *who == other {
                                amount as int
                            } else {
                                0
                            }) by {
                                lemma_balance_update(
                                    pre,
                                    i as int,
                                    LedgerEntry { owner: *who, balance: new_balance },
                                    other,
                                );
                            }
                            assert forall|a: int, b: int|
                                0 <= a < b < self.entries@.len() implies (
                            #[trigger] self.entries@[a]).owner != (
                            #[trigger] self.entries@[b]).owner by {
                                assert(pre[a].owner != pre[b].owner);
                            }
                        }
                        Ok(())
                    },
                    None => Err(CustomError::NumericalOverflow),
                }
            },
            None => {
                proof {
                    lemma_balance_absent(self.entries@, *who);
                }
                let ghost pre = self.entries@;
                self.entries.push(LedgerEntry { owner: *who, balance: amount });
                proof {
                    assert forall|other: Identity| true implies balance_of(self.entries@, other)
                        == balance_of(pre, other) + (if *who == other {
                        amount as int
                    } else {
                        0
                    }) by {
                        lemma_balance_push(
                            pre,
                            LedgerEntry { owner: *who, balance: amount },
                            other,
                        );
                    }
                    assert forall|a: int, b: int|
                        0 <= a < b < self.entries@.len() implies (
                    #[trigger] self.entries@[a]).owner != (#[trigger] self.entries@[b]).owner by {
                        if b < self.entries@.len() - 1 {
                            assert(pre[a].owner != pre[b].owner);
                        } else {
                            assert(pre[a].owner != *who);
                        }
                    }
                }
                Ok(())
            },
        }
    }

    /// Removes `amount` from the funds of `who`. Fails with
    /// `InsufficientFunds`, changing nothing, exactly when `who` holds less
    /// than `amount`.
    pub fn debit(&mut self, who: &Identity, amount: u64) -> (r: Result<(), CustomError>)
        requires
            old(self).wf(),
        ensures
            final(self).wf(),
            r is Ok <==> old(self).balance_spec(*who) >= amount,
            r is Ok ==> final(self).balance_spec(*who) == old(self).balance_spec(*who) - amount,
            r is Err ==> *final(self) == *old(self) && r == Err::<(), CustomError>(
                CustomError::InsufficientFunds,
            ),
            forall|other: Identity|
                other != *who ==> #[trigger] final(self).balance_spec(other) == old(
                    self,
                ).balance_spec(other),
    {
        match self.find(who) {
            Some(i) => {
                proof {
                    lemma_balance_at(self.entries@, *who, i as int);
                }
                let held = self.entries[i].balance;
                if held < amount {
                    return Err(CustomError::InsufficientFunds);
                }
                let ghost pre = self.entries@;
                self.entries.set(i, LedgerEntry { owner: *who, balance: held - amount });
                proof {
                    assert forall|other: Identity| true implies balance_of(self.entries@, other)
                        == balance_of(pre, other) - (if *who == other {
                        amount as int
                    } else {
                        0
                    }) by {
                        lemma_balance_update(
                            pre,
                            i as int,
                            LedgerEntry { owner: *who, balance: (held - amount) as u64 },
                            other,
                        );
                    }
                    assert forall|a: int, b: int|
                        0 <= a < b < self.entries@.len() implies (
                    #[trigger] self.entries@[a]).owner != (#[trigger] self.entries@[b]).owner by {
                        assert(pre[a].owner != pre[b].owner);
                    }
                }
                Ok(())
            },
            None => {
                proof {
                    lemma_balance_absent(self.entries@, *who);
                }
                if amount == 0 {
                    Ok(())
                } else {
                    Err(CustomError::InsufficientFunds)
                }
            },
        }
    }
}

} // verus!
