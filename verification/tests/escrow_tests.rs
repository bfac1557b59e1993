use stryd::challenge::ChallengeStatus;
use stryd::errors::CustomError;
use stryd::escrow::create_challenge;
use stryd::escrow::join_challenge;
use stryd::escrow::resolve_challenge;
use stryd::escrow::update_progress;
use stryd::escrow::CreateChallenge;
use stryd::escrow::Escrow;
use stryd::escrow::JoinChallenge;
use stryd::escrow::ResolveChallenge;
use stryd::escrow::UpdateProgress;
use stryd::identity::Identity;

fn id(n: u64) -> Identity {
    Identity { w0: n, w1: 0, w2: 0, w3: 0 }
}

fn funded_escrow(creator: Identity, joiner: Identity) -> Escrow {
    let mut e = Escrow::new();
    e.ledger.credit(&creator, 1000).unwrap();
    e.ledger.credit(&joiner, 200).unwrap();
    e
}

#[test]
fn open_allocates_record_and_takes_custody() {
    let creator = id(1);
    let mut e = funded_escrow(creator, id(2));
    let r = create_challenge(&mut e, CreateChallenge { creator }, 1, 100, "race".to_owned());
    assert_eq!(r, Ok(()));
    assert_eq!(e.records.len(), 1);
    let rec = &e.records[0];
    assert_eq!(rec.custody, 100);
    assert_eq!(rec.address.len(), 32);
    assert_eq!(rec.challenge.challenge_id, 1);
    assert_eq!(rec.challenge.creator, creator);
    assert_eq!(rec.challenge.joiner, Identity::empty());
    assert_eq!(rec.challenge.winner, Identity::empty());
    assert_eq!(rec.challenge.token_mint, Identity::empty());
    assert_eq!(rec.challenge.amount, 100);
    assert_eq!(rec.challenge.creator_distance, 0);
    assert_eq!(rec.challenge.joiner_distance, 0);
    assert!(rec.challenge.status == ChallengeStatus::Pending);
    assert_eq!(rec.challenge.challenge_name, "race".to_owned());
    assert_eq!(e.ledger.balance(&creator), 900);
}

#[test]
fn open_twice_fails_with_record_already_exists() {
    let creator = id(1);
    let mut e = funded_escrow(creator, id(2));
    assert_eq!(
        create_challenge(&mut e, CreateChallenge { creator }, 7, 100, "first".to_owned()),
        Ok(())
    );
    let r = create_challenge(&mut e, CreateChallenge { creator }, 7, 100, "second".to_owned());
    assert_eq!(r, Err(CustomError::RecordAlreadyExists));
    assert_eq!(e.records.len(), 1);
    assert_eq!(e.records[0].challenge.challenge_name, "first".to_owned());
    assert_eq!(e.ledger.balance(&creator), 900);
}

#[test]
fn open_distinct_ids_get_distinct_addresses() {
    let creator = id(1);
    let mut e = Escrow::new();
    e.ledger.credit(&creator, 1000).unwrap();
    assert_eq!(
        create_challenge(&mut e, CreateChallenge { creator }, 1, 100, "one".to_owned()),
        Ok(())
    );
    assert_eq!(
        create_challenge(&mut e, CreateChallenge { creator }, 2, 100, "two".to_owned()),
        Ok(())
    );
    assert_eq!(e.records.len(), 2);
    assert_ne!(e.records[0].address, e.records[1].address);
}

#[test]
fn open_insufficient_funds_creates_nothing() {
    let creator = id(1);
    let mut e = Escrow::new();
    e.ledger.credit(&creator, 50).unwrap();
    let r = create_challenge(&mut e, CreateChallenge { creator }, 1, 100, "race".to_owned());
    assert_eq!(r, Err(CustomError::InsufficientFunds));
    assert_eq!(e.records.len(), 0);
    assert_eq!(e.ledger.balance(&creator), 50);
}

#[test]
fn join_moves_status_and_doubles_custody() {
    let creator = id(1);
    let joiner = id(2);
    let mut e = funded_escrow(creator, joiner);
    create_challenge(&mut e, CreateChallenge { creator }, 1, 100, "race".to_owned()).unwrap();
    let r = join_challenge(&mut e, JoinChallenge { joiner, creator }, 1);
    assert_eq!(r, Ok(()));
    assert!(e.records[0].challenge.status == ChallengeStatus::Joined);
    assert_eq!(e.records[0].challenge.joiner, joiner);
    assert_eq!(e.records[0].custody, 200);
    assert_eq!(e.ledger.balance(&joiner), 100);
}

#[test]
fn join_requires_pending() {
    let creator = id(1);
    let joiner = id(2);
    let mut e = funded_escrow(creator, joiner);
    create_challenge(&mut e, CreateChallenge { creator }, 1, 100, "race".to_owned()).unwrap();
    join_challenge(&mut e, JoinChallenge { joiner, creator }, 1).unwrap();
    // A second joiner, and the same joiner again, both find the record Joined.
    let r = join_challenge(&mut e, JoinChallenge { joiner: id(3), creator }, 1);
    assert_eq!(r, Err(CustomError::ChallengeNotPending));
    let r = join_challenge(&mut e, JoinChallenge { joiner, creator }, 1);
    assert_eq!(r, Err(CustomError::ChallengeNotPending));
    assert_eq!(e.records[0].challenge.joiner, joiner);
    assert_eq!(e.records[0].custody, 200);
    // Joining a challenge that was never opened fails the same way.
    let r = join_challenge(&mut e, JoinChallenge { joiner, creator }, 99);
    assert_eq!(r, Err(CustomError::ChallengeNotPending));
}

#[test]
fn join_insufficient_funds_changes_nothing() {
    let creator = id(1);
    let joiner = id(2);
    let mut e = Escrow::new();
    e.ledger.credit(&creator, 1000).unwrap();
    e.ledger.credit(&joiner, 99).unwrap();
    create_challenge(&mut e, CreateChallenge { creator }, 1, 100, "race".to_owned()).unwrap();
    let r = join_challenge(&mut e, JoinChallenge { joiner, creator }, 1);
    assert_eq!(r, Err(CustomError::InsufficientFunds));
    assert!(e.records[0].challenge.status == ChallengeStatus::Pending);
    assert_eq!(e.records[0].custody, 100);
    assert_eq!(e.ledger.balance(&joiner), 99);
}

#[test]
fn join_overflow_when_custody_cannot_double() {
    let creator = id(1);
    let joiner = id(2);
    let mut e = Escrow::new();
    e.ledger.credit(&creator, u64::MAX).unwrap();
    e.ledger.credit(&joiner, u64::MAX).unwrap();
    let amount = u64::MAX / 2 + 1;
    create_challenge(&mut e, CreateChallenge { creator }, 1, amount, "big".to_owned()).unwrap();
    let r = join_challenge(&mut e, JoinChallenge { joiner, creator }, 1);
    assert_eq!(r, Err(CustomError::NumericalOverflow));
    assert!(e.records[0].challenge.status == ChallengeStatus::Pending);
    assert_eq!(e.records[0].custody, amount);
    assert_eq!(e.ledger.balance(&joiner), u64::MAX);
}

#[test]
fn resolve_tie_fails_and_keeps_custody() {
    let creator = id(1);
    let joiner = id(2);
    let mut e = funded_escrow(creator, joiner);
    create_challenge(&mut e, CreateChallenge { creator }, 1, 100, "race".to_owned()).unwrap();
    join_challenge(&mut e, JoinChallenge { joiner, creator }, 1).unwrap();
    update_progress(&mut e, UpdateProgress { creator }, 4000, 4000, 1).unwrap();
    let r = resolve_challenge(&mut e, ResolveChallenge { creator, winner: creator, challenge_id: 1 });
    assert_eq!(r, Err(CustomError::TieNotAllowed));
    assert!(e.records[0].challenge.status == ChallengeStatus::Joined);
    assert_eq!(e.records[0].custody, 200);
    assert_eq!(e.records[0].challenge.winner, Identity::empty());
    assert_eq!(e.ledger.balance(&creator), 900);
    assert_eq!(e.ledger.balance(&joiner), 100);
}

#[test]
fn resolve_pays_creator_when_creator_ahead() {
    let creator = id(1);
    let joiner = id(2);
    let mut e = funded_escrow(creator, joiner);
    create_challenge(&mut e, CreateChallenge { creator }, 1, 100, "race".to_owned()).unwrap();
    join_challenge(&mut e, JoinChallenge { joiner, creator }, 1).unwrap();
    update_progress(&mut e, UpdateProgress { creator }, 5000, 3000, 1).unwrap();
    let r = resolve_challenge(&mut e, ResolveChallenge { creator, winner: creator, challenge_id: 1 });
    assert_eq!(r, Ok(()));
    assert!(e.records[0].challenge.status == ChallengeStatus::Resolved);
    assert_eq!(e.records[0].challenge.winner, creator);
    assert_eq!(e.records[0].custody, 0);
    assert_eq!(e.ledger.balance(&creator), 1100);
    assert_eq!(e.ledger.balance(&joiner), 100);
}

#[test]
fn resolve_pays_joiner_when_joiner_ahead() {
    let creator = id(1);
    let joiner = id(2);
    let mut e = funded_escrow(creator, joiner);
    create_challenge(&mut e, CreateChallenge { creator }, 1, 100, "race".to_owned()).unwrap();
    join_challenge(&mut e, JoinChallenge { joiner, creator }, 1).unwrap();
    update_progress(&mut e, UpdateProgress { creator }, 3000, 5000, 1).unwrap();
    let r = resolve_challenge(&mut e, ResolveChallenge { creator, winner: joiner, challenge_id: 1 });
    assert_eq!(r, Ok(()));
    assert!(e.records[0].challenge.status == ChallengeStatus::Resolved);
    assert_eq!(e.records[0].challenge.winner, joiner);
    assert_eq!(e.records[0].custody, 0);
    assert_eq!(e.ledger.balance(&joiner), 300);
}

#[test]
fn resolve_requires_joined() {
    let creator = id(1);
    let joiner = id(2);
    let mut e = funded_escrow(creator, joiner);
    create_challenge(&mut e, CreateChallenge { creator }, 1, 100, "race".to_owned()).unwrap();
    // Pending record: resolve fails and mutates nothing.
    let r = resolve_challenge(&mut e, ResolveChallenge { creator, winner: creator, challenge_id: 1 });
    assert_eq!(r, Err(CustomError::ChallengeNotPending));
    assert!(e.records[0].challenge.status == ChallengeStatus::Pending);
    assert_eq!(e.records[0].custody, 100);
    // Missing record: same error.
    let r = resolve_challenge(&mut e, ResolveChallenge { creator, winner: creator, challenge_id: 9 });
    assert_eq!(r, Err(CustomError::ChallengeNotPending));
    // Resolved record: resolving again fails and mutates nothing.
    join_challenge(&mut e, JoinChallenge { joiner, creator }, 1).unwrap();
    update_progress(&mut e, UpdateProgress { creator }, 5000, 3000, 1).unwrap();
    resolve_challenge(&mut e, ResolveChallenge { creator, winner: creator, challenge_id: 1 }).unwrap();
    let r = resolve_challenge(&mut e, ResolveChallenge { creator, winner: creator, challenge_id: 1 });
    assert_eq!(r, Err(CustomError::ChallengeNotPending));
    assert!(e.records[0].challenge.status == ChallengeStatus::Resolved);
    assert_eq!(e.records[0].challenge.winner, creator);
    assert_eq!(e.records[0].custody, 0);
    assert_eq!(e.ledger.balance(&creator), 1100);
}

#[test]
fn resolve_winner_mismatch_changes_nothing() {
    let creator = id(1);
    let joiner = id(2);
    let mut e = funded_escrow(creator, joiner);
    create_challenge(&mut e, CreateChallenge { creator }, 1, 100, "race".to_owned()).unwrap();
    join_challenge(&mut e, JoinChallenge { joiner, creator }, 1).unwrap();
    update_progress(&mut e, UpdateProgress { creator }, 5000, 3000, 1).unwrap();
    // The creator is ahead, but the joiner is claimed as winner.
    let r = resolve_challenge(&mut e, ResolveChallenge { creator, winner: joiner, challenge_id: 1 });
    assert_eq!(r, Err(CustomError::WinnerMismatch));
    assert!(e.records[0].challenge.status == ChallengeStatus::Joined);
    assert_eq!(e.records[0].custody, 200);
    assert_eq!(e.ledger.balance(&creator), 900);
    assert_eq!(e.ledger.balance(&joiner), 100);
}

#[test]
fn resolve_overflow_when_winner_balance_cannot_take_payout() {
    let creator = id(1);
    let joiner = id(2);
    let mut e = Escrow::new();
    e.ledger.credit(&creator, u64::MAX).unwrap();
    e.ledger.credit(&joiner, 100).unwrap();
    create_challenge(&mut e, CreateChallenge { creator }, 1, 100, "race".to_owned()).unwrap();
    join_challenge(&mut e, JoinChallenge { joiner, creator }, 1).unwrap();
    update_progress(&mut e, UpdateProgress { creator }, 5000, 3000, 1).unwrap();
    // The creator holds u64::MAX - 100; crediting the payout of 200 overflows.
    let r = resolve_challenge(&mut e, ResolveChallenge { creator, winner: creator, challenge_id: 1 });
    assert_eq!(r, Err(CustomError::NumericalOverflow));
    assert!(e.records[0].challenge.status == ChallengeStatus::Joined);
    assert_eq!(e.records[0].custody, 200);
    assert_eq!(e.ledger.balance(&creator), u64::MAX - 100);
}

#[test]
fn update_progress_overwrites_unconditionally() {
    let creator = id(1);
    let joiner = id(2);
    let mut e = funded_escrow(creator, joiner);
    create_challenge(&mut e, CreateChallenge { creator }, 1, 100, "race".to_owned()).unwrap();
    // Accepted even while Pending.
    assert_eq!(update_progress(&mut e, UpdateProgress { creator }, 10, 20, 1), Ok(()));
    assert_eq!(e.records[0].challenge.creator_distance, 10);
    assert_eq!(e.records[0].challenge.joiner_distance, 20);
    // Last write wins; a later report may be smaller.
    assert_eq!(update_progress(&mut e, UpdateProgress { creator }, 5, 2, 1), Ok(()));
    assert_eq!(e.records[0].challenge.creator_distance, 5);
    assert_eq!(e.records[0].challenge.joiner_distance, 2);
    // Custody and status are untouched.
    assert!(e.records[0].challenge.status == ChallengeStatus::Pending);
    assert_eq!(e.records[0].custody, 100);
    // A missing record is the only failure.
    let r = update_progress(&mut e, UpdateProgress { creator }, 1, 2, 42);
    assert_eq!(r, Err(CustomError::ChallengeNotPending));
}

#[test]
fn end_to_end_creator_wins() {
    let creator = id(10);
    let joiner = id(20);
    let mut e = Escrow::new();
    e.ledger.credit(&creator, 1000).unwrap();
    e.ledger.credit(&joiner, 200).unwrap();
    create_challenge(&mut e, CreateChallenge { creator }, 1, 100, "5k run".to_owned()).unwrap();
    join_challenge(&mut e, JoinChallenge { joiner, creator }, 1).unwrap();
    assert_eq!(e.records[0].custody, 200);
    update_progress(&mut e, UpdateProgress { creator }, 5000, 3000, 1).unwrap();
    let balance_before = e.ledger.balance(&creator);
    let r = resolve_challenge(&mut e, ResolveChallenge { creator, winner: creator, challenge_id: 1 });
    assert_eq!(r, Ok(()));
    assert_eq!(e.records[0].challenge.winner, creator);
    assert_eq!(e.records[0].custody, 0);
    assert!(e.records[0].challenge.status == ChallengeStatus::Resolved);
    assert_eq!(e.ledger.balance(&creator), balance_before + 200);
}

#[test]
fn end_to_end_tie_then_joiner_wins() {
    let creator = id(10);
    let joiner = id(20);
    let mut e = Escrow::new();
    e.ledger.credit(&creator, 1000).unwrap();
    e.ledger.credit(&joiner, 200).unwrap();
    create_challenge(&mut e, CreateChallenge { creator }, 1, 100, "5k run".to_owned()).unwrap();
    join_challenge(&mut e, JoinChallenge { joiner, creator }, 1).unwrap();
    update_progress(&mut e, UpdateProgress { creator }, 4000, 4000, 1).unwrap();
    let r = resolve_challenge(&mut e, ResolveChallenge { creator, winner: creator, challenge_id: 1 });
    assert_eq!(r, Err(CustomError::TieNotAllowed));
    assert!(e.records[0].challenge.status == ChallengeStatus::Joined);
    update_progress(&mut e, UpdateProgress { creator }, 4000, 4001, 1).unwrap();
    let r = resolve_challenge(&mut e, ResolveChallenge { creator, winner: joiner, challenge_id: 1 });
    assert_eq!(r, Ok(()));
    assert_eq!(e.records[0].challenge.winner, joiner);
    assert!(e.records[0].challenge.status == ChallengeStatus::Resolved);
    assert_eq!(e.ledger.balance(&joiner), 300);
}
