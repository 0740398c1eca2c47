use nft_staking::custody::custody_program_id;
use nft_staking::ids::AccountId;
use nft_staking::ledger::Ledger;
use nft_staking::state::{CollectionEntry, CollectionInfo, StakeConfig, StakeRecord, UserAccount,
    UserEntry};
use nft_staking::unstake::{continue_after_unlock, UnstakeError, UnstakePhase, UnstakeRequest};

const DAY: i64 = 86400;
const HOUR: i64 = 3600;
const T0: i64 = 1_700_000_000;

fn id(n: u8) -> AccountId {
    AccountId { bytes: [n; 32] }
}

fn ledger_with(
    owner: AccountId,
    asset: AccountId,
    collection: AccountId,
    staked_at: i64,
    freeze_period: u32,
    points_per_stake: u8,
    points: u32,
    amount_staked: u8,
) -> Ledger {
    Ledger {
        config: StakeConfig { points_per_stake, freeze_period, bump: 1 },
        records: vec![StakeRecord { owner, asset, staked_at, bump: 4 }],
        users: vec![UserEntry { user: owner, account: UserAccount { points, amount_staked, bump: 2 } }],
        collections: vec![CollectionEntry { collection, info: CollectionInfo { bump: 9 } }],
    }
}

fn request(user: AccountId, asset: AccountId, collection: AccountId, now: i64) -> UnstakeRequest {
    UnstakeRequest { user, asset, collection, core_program: custody_program_id(), now }
}

fn run_to_completion(ledger: &mut Ledger, req: &UnstakeRequest) -> Result<
    nft_staking::unstake::UnstakeReceipt,
    UnstakeError,
> {
    let (session, _unlock) = ledger.begin_unstake(req)?;
    let (session, _removal) = continue_after_unlock(&session, true)?;
    ledger.complete_unstake(&session, true)
}

#[test]
fn succeeds_with_accrual_after_freeze_period() {
    let (user, asset, coll) = (id(1), id(2), id(3));
    let mut l = ledger_with(user, asset, coll, T0, 7, 10, 5, 1);
    let req = request(user, asset, coll, T0 + 7 * DAY + 3 * HOUR);
    let receipt = run_to_completion(&mut l, &req).unwrap();
    assert_eq!(receipt.points_earned, 70);
    assert_eq!(receipt.points, 75);
    assert_eq!(receipt.amount_staked, 0);
    assert_eq!(l.users[0].account.points, 75);
    assert_eq!(l.users[0].account.amount_staked, 0);
}

#[test]
fn fails_before_freeze_period_and_leaves_state_unchanged() {
    let (user, asset, coll) = (id(1), id(2), id(3));
    let mut l = ledger_with(user, asset, coll, T0, 7, 10, 5, 1);
    let req = request(user, asset, coll, T0 + 6 * DAY + 23 * HOUR);
    let r = run_to_completion(&mut l, &req);
    assert_eq!(r.unwrap_err(), UnstakeError::FreezePeriodNotPassed);
    assert_eq!(l.records.len(), 1);
    assert_eq!(l.users[0].account.points, 5);
    assert_eq!(l.users[0].account.amount_staked, 1);
}

#[test]
fn succeeds_exactly_at_freeze_boundary() {
    let (user, asset, coll) = (id(1), id(2), id(3));
    let mut l = ledger_with(user, asset, coll, T0, 7, 10, 0, 1);
    let req = request(user, asset, coll, T0 + 7 * DAY);
    let receipt = run_to_completion(&mut l, &req).unwrap();
    assert_eq!(receipt.points_earned, 70);
}

#[test]
fn partial_days_earn_nothing() {
    let (user, asset, coll) = (id(1), id(2), id(3));
    let mut l = ledger_with(user, asset, coll, T0, 0, 10, 5, 1);
    let req = request(user, asset, coll, T0 + 23 * HOUR);
    let receipt = run_to_completion(&mut l, &req).unwrap();
    assert_eq!(receipt.points_earned, 0);
    assert_eq!(receipt.points, 5);
}

#[test]
fn record_is_gone_after_successful_unstake() {
    let (user, asset, coll) = (id(1), id(2), id(3));
    let mut l = ledger_with(user, asset, coll, T0, 7, 10, 5, 1);
    let req = request(user, asset, coll, T0 + 8 * DAY);
    run_to_completion(&mut l, &req).unwrap();
    assert!(l.find_record(&asset).is_none());
    assert_eq!(l.records.len(), 0);
}

#[test]
fn absent_record_fails_twice_with_same_error() {
    let (user, asset, coll) = (id(1), id(2), id(3));
    let mut l = ledger_with(user, asset, coll, T0, 7, 10, 5, 1);
    let req = request(user, asset, coll, T0 + 8 * DAY);
    run_to_completion(&mut l, &req).unwrap();
    let again = request(user, asset, coll, T0 + 9 * DAY);
    let first = l.begin_unstake(&again).map(|_| ()).unwrap_err();
    let second = l.begin_unstake(&again).map(|_| ()).unwrap_err();
    assert_eq!(first, UnstakeError::DerivationMismatch);
    assert_eq!(second, UnstakeError::DerivationMismatch);
}

#[test]
fn amount_staked_zero_saturates_to_zero() {
    let (user, asset, coll) = (id(1), id(2), id(3));
    let mut l = ledger_with(user, asset, coll, T0, 7, 10, 5, 0);
    let req = request(user, asset, coll, T0 + 8 * DAY);
    let receipt = run_to_completion(&mut l, &req).unwrap();
    assert_eq!(receipt.amount_staked, 0);
    assert_eq!(l.users[0].account.amount_staked, 0);
}

#[test]
fn points_clamp_at_counter_maximum() {
    let (user, asset, coll) = (id(1), id(2), id(3));
    let mut l = ledger_with(user, asset, coll, T0, 7, 10, u32::MAX - 10, 1);
    let req = request(user, asset, coll, T0 + 7 * DAY);
    let receipt = run_to_completion(&mut l, &req).unwrap();
    assert_eq!(receipt.points_earned, 70);
    assert_eq!(receipt.points, u32::MAX);
}

#[test]
fn deposit_in_the_future_counts_as_zero_elapsed() {
    let (user, asset, coll) = (id(1), id(2), id(3));
    let mut l = ledger_with(user, asset, coll, T0 + 100 * DAY, 0, 10, 5, 1);
    let req = request(user, asset, coll, T0);
    let receipt = run_to_completion(&mut l, &req).unwrap();
    assert_eq!(receipt.points_earned, 0);

    let mut frozen = ledger_with(user, asset, coll, T0 + 100 * DAY, 1, 10, 5, 1);
    let r = run_to_completion(&mut frozen, &request(user, asset, coll, T0));
    assert_eq!(r.unwrap_err(), UnstakeError::FreezePeriodNotPassed);
}

#[test]
fn wrong_custody_program_is_rejected() {
    let (user, asset, coll) = (id(1), id(2), id(3));
    let l = ledger_with(user, asset, coll, T0, 7, 10, 5, 1);
    let mut bad_core = custody_program_id();
    bad_core.bytes[0] = bad_core.bytes[0].wrapping_add(1);
    let req = UnstakeRequest {
        user,
        asset,
        collection: coll,
        core_program: bad_core,
        now: T0 + 8 * DAY,
    };
    let r = l.begin_unstake(&req).map(|_| ()).unwrap_err();
    assert_eq!(r, UnstakeError::DerivationMismatch);
}

#[test]
fn custody_program_identity_matches_the_external_service() {
    let external = mpl_core::ID.to_bytes();
    assert_eq!(custody_program_id().bytes, external);
    let (user, asset, coll) = (id(1), id(2), id(3));
    let mut l = ledger_with(user, asset, coll, T0, 7, 10, 5, 1);
    let req = UnstakeRequest {
        user,
        asset,
        collection: coll,
        core_program: AccountId { bytes: external },
        now: T0 + 8 * DAY,
    };
    assert!(run_to_completion(&mut l, &req).is_ok());
}

#[test]
fn record_owned_by_another_user_is_rejected() {
    let (owner, caller, asset, coll) = (id(1), id(7), id(2), id(3));
    let l = ledger_with(owner, asset, coll, T0, 7, 10, 5, 1);
    let req = request(caller, asset, coll, T0 + 8 * DAY);
    let r = l.begin_unstake(&req).map(|_| ()).unwrap_err();
    assert_eq!(r, UnstakeError::DerivationMismatch);
}

#[test]
fn missing_user_account_is_rejected() {
    let (user, asset, coll) = (id(1), id(2), id(3));
    let mut l = ledger_with(user, asset, coll, T0, 7, 10, 5, 1);
    l.users.clear();
    let req = request(user, asset, coll, T0 + 8 * DAY);
    let r = l.begin_unstake(&req).map(|_| ()).unwrap_err();
    assert_eq!(r, UnstakeError::DerivationMismatch);
}

#[test]
fn missing_collection_record_is_rejected() {
    let (user, asset, coll) = (id(1), id(2), id(3));
    let mut l = ledger_with(user, asset, coll, T0, 7, 10, 5, 1);
    l.collections.clear();
    let req = request(user, asset, coll, T0 + 8 * DAY);
    let r = l.begin_unstake(&req).map(|_| ()).unwrap_err();
    assert_eq!(r, UnstakeError::DerivationMismatch);
}

#[test]
fn unlock_call_carries_the_derived_collection_authority() {
    let (user, asset, coll) = (id(1), id(2), id(3));
    let l = ledger_with(user, asset, coll, T0, 7, 10, 5, 1);
    let req = request(user, asset, coll, T0 + 8 * DAY);
    let (_, unlock) = l.begin_unstake(&req).unwrap();
    assert_eq!(unlock.asset, asset);
    assert_eq!(unlock.collection, coll);
    assert_eq!(unlock.payer, user);
    assert!(!unlock.frozen);
    assert_eq!(unlock.authority_seeds.len(), 3);
    assert_eq!(unlock.authority_seeds[0], b"collection_info".to_vec());
    assert_eq!(unlock.authority_seeds[1], coll.bytes.to_vec());
    assert_eq!(unlock.authority_seeds[2], vec![9u8]);
}

#[test]
fn removal_call_is_authorized_by_the_user() {
    let (user, asset, coll) = (id(1), id(2), id(3));
    let l = ledger_with(user, asset, coll, T0, 7, 10, 5, 1);
    let req = request(user, asset, coll, T0 + 8 * DAY);
    let (session, _) = l.begin_unstake(&req).unwrap();
    assert_eq!(session.phase, UnstakePhase::AwaitingUnlock);
    let (session, removal) = continue_after_unlock(&session, true).unwrap();
    assert_eq!(session.phase, UnstakePhase::AwaitingRemoval);
    assert_eq!(removal.asset, asset);
    assert_eq!(removal.collection, coll);
    assert_eq!(removal.authority, user);
}

#[test]
fn failed_unlock_yields_no_removal_call_and_closes_nothing() {
    let (user, asset, coll) = (id(1), id(2), id(3));
    let mut l = ledger_with(user, asset, coll, T0, 7, 10, 5, 1);
    let req = request(user, asset, coll, T0 + 8 * DAY);
    let (session, _unlock) = l.begin_unstake(&req).unwrap();
    let r = continue_after_unlock(&session, false);
    assert_eq!(r.map(|_| ()).unwrap_err(), UnstakeError::CustodyRejected);
    assert!(l.find_record(&asset).is_some());
    assert_eq!(l.users[0].account.points, 5);
    assert_eq!(l.users[0].account.amount_staked, 1);
}

#[test]
fn failed_removal_leaves_the_ledger_unchanged() {
    let (user, asset, coll) = (id(1), id(2), id(3));
    let mut l = ledger_with(user, asset, coll, T0, 7, 10, 5, 1);
    let req = request(user, asset, coll, T0 + 8 * DAY);
    let (session, _unlock) = l.begin_unstake(&req).unwrap();
    let (session, _removal) = continue_after_unlock(&session, true).unwrap();
    let r = l.complete_unstake(&session, false);
    assert_eq!(r.map(|_| ()).unwrap_err(), UnstakeError::CustodyRejected);
    assert!(l.find_record(&asset).is_some());
    assert_eq!(l.users[0].account.points, 5);
    assert_eq!(l.users[0].account.amount_staked, 1);
}

#[test]
fn other_records_survive_a_withdrawal() {
    let (user, asset, coll) = (id(1), id(2), id(3));
    let other_user = id(7);
    let other_asset = id(8);
    let mut l = ledger_with(user, asset, coll, T0, 7, 10, 5, 1);
    l.records.push(StakeRecord { owner: other_user, asset: other_asset, staked_at: T0, bump: 4 });
    l.users.push(UserEntry {
        user: other_user,
        account: UserAccount { points: 11, amount_staked: 1, bump: 2 },
    });
    let req = request(user, asset, coll, T0 + 8 * DAY);
    run_to_completion(&mut l, &req).unwrap();
    assert!(l.find_record(&asset).is_none());
    assert!(l.find_record(&other_asset).is_some());
    let other_index = l.find_user(&other_user).unwrap();
    assert_eq!(l.users[other_index].account.points, 11);
    assert_eq!(l.users[other_index].account.amount_staked, 1);
}

#[test]
fn well_formedness_detects_duplicate_entries() {
    let (user, asset, coll) = (id(1), id(2), id(3));
    let base = ledger_with(user, asset, coll, T0, 7, 10, 5, 1);
    assert!(base.is_well_formed());

    let mut dup_record = ledger_with(user, asset, coll, T0, 7, 10, 5, 1);
    dup_record.records.push(StakeRecord { owner: id(7), asset, staked_at: T0, bump: 4 });
    assert!(!dup_record.is_well_formed());

    let mut dup_user = ledger_with(user, asset, coll, T0, 7, 10, 5, 1);
    dup_user.users.push(UserEntry {
        user,
        account: UserAccount { points: 0, amount_staked: 0, bump: 2 },
    });
    assert!(!dup_user.is_well_formed());

    let mut dup_collection = ledger_with(user, asset, coll, T0, 7, 10, 5, 1);
    dup_collection.collections.push(CollectionEntry { collection: coll, info: CollectionInfo { bump: 8 } });
    assert!(!dup_collection.is_well_formed());
}

#[test]
fn huge_elapsed_time_clamps_points_at_counter_maximum() {
    let (user, asset, coll) = (id(1), id(2), id(3));
    let mut l = ledger_with(user, asset, coll, i64::MIN, 7, 255, 1, 1);
    let req = request(user, asset, coll, i64::MAX);
    let receipt = run_to_completion(&mut l, &req).unwrap();
    let days = i64::MAX / DAY;
    assert_eq!(receipt.points_earned, days * 255);
    assert_eq!(receipt.points, u32::MAX);
}
