use rakurai_programs::multisig::state::MultiSigAccount;
use rakurai_programs::rakurai_activation::state::RakuraiActivationAccount;
use rakurai_programs::reward_distribution::instructions::ErrorCode;
use rakurai_programs::reward_distribution::state::RewardCollectionAccount;

#[test]
fn transfer_lamports_moves_exactly_the_amount() {
    let mut from: u64 = 1_000;
    let mut to: u64 = 5;
    assert!(RewardCollectionAccount::transfer_lamports(&mut from, &mut to, 400).is_ok());
    assert_eq!((from, to), (600, 405));
}

#[test]
fn transfer_lamports_is_atomic_on_underflow() {
    let mut from: u64 = 100;
    let mut to: u64 = 5;
    assert_eq!(
        RewardCollectionAccount::transfer_lamports(&mut from, &mut to, 101),
        Err(ErrorCode::ArithmeticError)
    );
    assert_eq!((from, to), (100, 5));
}

#[test]
fn transfer_lamports_is_atomic_on_overflow() {
    let mut from: u64 = 100;
    let mut to: u64 = u64::MAX;
    assert_eq!(
        RewardCollectionAccount::transfer_lamports(&mut from, &mut to, 1),
        Err(ErrorCode::ArithmeticError)
    );
    assert_eq!((from, to), (100, u64::MAX));
}

#[test]
fn claim_pays_from_the_collection_balance() {
    let mut from: u64 = 1_000;
    let mut to: u64 = 0;
    assert!(RewardCollectionAccount::claim(&mut from, &mut to, 999).is_ok());
    assert_eq!((from, to), (1, 999));
}

#[test]
fn claim_expired_sweeps_above_the_rent_minimum() {
    let mut from: u64 = 2_500;
    let mut to: u64 = 40;
    assert_eq!(RewardCollectionAccount::claim_expired(&mut from, &mut to, 2_000), Ok(500));
    assert_eq!((from, to), (2_000, 540));
}

#[test]
fn claim_expired_errors_below_the_rent_minimum() {
    let mut from: u64 = 1_999;
    let mut to: u64 = 40;
    assert_eq!(
        RewardCollectionAccount::claim_expired(&mut from, &mut to, 2_000),
        Err(ErrorCode::ArithmeticError)
    );
    assert_eq!((from, to), (1_999, 40));
}

#[test]
fn sibling_account_kinds_sweep_the_same_way() {
    let mut from: u64 = 900;
    let mut to: u64 = 0;
    assert_eq!(MultiSigAccount::claim_expired(&mut from, &mut to, 100), Ok(800));
    assert_eq!((from, to), (100, 800));

    let mut from: u64 = 900;
    let mut to: u64 = 0;
    assert_eq!(RakuraiActivationAccount::claim_expired(&mut from, &mut to, 100), Ok(800));
    assert_eq!((from, to), (100, 800));
}
