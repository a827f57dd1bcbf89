use rakurai_programs::keys::{vote_program_id, AccountKey, VoteAccountRecord};
use rakurai_programs::rakurai_activation::instructions::{
    close_rakurai_activation_account, initialize, initialize_rakurai_activation_account,
    update_config, update_rakurai_activation_approval, update_rakurai_activation_commission,
    ErrorCode,
};
use rakurai_programs::rakurai_activation::state::{
    RakuraiActivationAccount, RakuraiActivationConfigAccount,
};

fn key(n: u8) -> AccountKey {
    AccountKey::new([n; 32])
}

fn test_config() -> RakuraiActivationConfigAccount {
    initialize(key(1), key(2), key(3), 1000, 255).unwrap()
}

fn test_account() -> RakuraiActivationAccount {
    let cfg = test_config();
    let vote = VoteAccountRecord { address: key(10), owner: vote_program_id(), node_pubkey: key(20) };
    initialize_rakurai_activation_account(&cfg, &vote, key(20), 500, 254).unwrap()
}

#[test]
fn initialize_config_error_codes() {
    assert_eq!(
        initialize(key(1), key(2), AccountKey::zero(), 100, 0),
        Err(ErrorCode::AccountValidationFailure)
    );
    assert_eq!(
        initialize(key(1), key(2), key(3), 10001, 0),
        Err(ErrorCode::MaxCommissionBpsExceeded)
    );
    let cfg = test_config();
    assert_eq!(cfg.block_builder_commission_bps, 1000);
}

#[test]
fn activation_update_config_requires_authority() {
    let mut cfg = test_config();
    let next = RakuraiActivationConfigAccount {
        authority: key(4),
        block_builder_authority: key(5),
        block_builder_commission_bps: 2000,
        block_builder_commission_account: key(6),
        bump: 0,
    };
    assert_eq!(update_config(&mut cfg, key(9), next), Err(ErrorCode::Unauthorized));
    assert!(update_config(&mut cfg, key(1), next).is_ok());
    assert_eq!(cfg.block_builder_authority, key(5));
    assert_eq!(cfg.bump, 255);
}

#[test]
fn initialize_account_starts_pending_without_hash() {
    let acc = test_account();
    assert!(!acc.is_enabled);
    assert_eq!(acc.proposer, Some(key(20)));
    assert_eq!(acc.hash, None);
    assert_eq!(acc.block_builder_commission_bps, 1000);
}

#[test]
fn block_builder_acceptance_requires_hash() {
    let cfg = test_config();
    let mut acc = test_account();
    // the validator's proposal is pending; the block builder must attach
    // a hash to accept
    assert_eq!(
        update_rakurai_activation_approval(&cfg, &mut acc, key(2), true, None),
        Err(ErrorCode::MissingHashForEnable)
    );
    assert!(!acc.is_enabled);
    assert!(
        update_rakurai_activation_approval(&cfg, &mut acc, key(2), true, Some([7; 64])).is_ok()
    );
    assert!(acc.is_enabled);
    assert_eq!(acc.proposer, None);
    assert_eq!(acc.hash, Some([7; 64]));
}

#[test]
fn block_builder_proposal_requires_hash() {
    let cfg = test_config();
    let mut acc = test_account();
    // revoke first, so no proposal is pending
    assert!(update_rakurai_activation_approval(&cfg, &mut acc, key(20), false, None).is_ok());
    assert_eq!(acc.proposer, None);

    assert_eq!(
        update_rakurai_activation_approval(&cfg, &mut acc, key(2), true, None),
        Err(ErrorCode::MissingHashForEnable)
    );
    assert!(
        update_rakurai_activation_approval(&cfg, &mut acc, key(2), true, Some([8; 64])).is_ok()
    );
    assert!(!acc.is_enabled);
    assert_eq!(acc.proposer, Some(key(2)));
    assert_eq!(acc.hash, Some([8; 64]));

    // the validator accepts without any hash
    assert!(update_rakurai_activation_approval(&cfg, &mut acc, key(20), true, None).is_ok());
    assert!(acc.is_enabled);
    assert_eq!(acc.hash, Some([8; 64]));
}

#[test]
fn revoke_clears_everything() {
    let cfg = test_config();
    let mut acc = test_account();
    assert!(
        update_rakurai_activation_approval(&cfg, &mut acc, key(2), true, Some([7; 64])).is_ok()
    );
    assert!(acc.is_enabled);
    assert!(update_rakurai_activation_approval(&cfg, &mut acc, key(2), false, None).is_ok());
    assert!(!acc.is_enabled);
    assert_eq!(acc.proposer, None);
    assert_eq!(acc.hash, None);
}

#[test]
fn enabled_block_builder_updates_hash() {
    let cfg = test_config();
    let mut acc = test_account();
    assert!(
        update_rakurai_activation_approval(&cfg, &mut acc, key(2), true, Some([7; 64])).is_ok()
    );
    assert!(update_rakurai_activation_approval(&cfg, &mut acc, key(2), true, Some([9; 64])).is_ok());
    assert!(acc.is_enabled);
    assert_eq!(acc.hash, Some([9; 64]));
    // a validator grant while enabled changes nothing
    assert!(update_rakurai_activation_approval(&cfg, &mut acc, key(20), true, None).is_ok());
    assert!(acc.is_enabled);
    assert_eq!(acc.hash, Some([9; 64]));
}

#[test]
fn activation_approval_rejects_strangers() {
    let cfg = test_config();
    let mut acc = test_account();
    assert_eq!(
        update_rakurai_activation_approval(&cfg, &mut acc, key(77), true, None),
        Err(ErrorCode::Unauthorized)
    );
}

#[test]
fn activation_commission_updates_by_party() {
    let cfg = test_config();
    let mut acc = test_account();
    assert_eq!(
        update_rakurai_activation_commission(&cfg, &mut acc, key(20), 10001),
        Err(ErrorCode::MaxCommissionBpsExceeded)
    );
    assert!(update_rakurai_activation_commission(&cfg, &mut acc, key(20), 750).is_ok());
    assert_eq!(acc.validator_commission_bps, 750);
    // the block builder re-syncs its rate from the live config; the
    // supplied value is not written
    acc.block_builder_commission_bps = 1;
    assert!(update_rakurai_activation_commission(&cfg, &mut acc, key(2), 900).is_ok());
    assert_eq!(acc.block_builder_commission_bps, 1000);
    assert_eq!(
        update_rakurai_activation_commission(&cfg, &mut acc, key(77), 1),
        Err(ErrorCode::Unauthorized)
    );
}

#[test]
fn close_only_by_config_block_builder() {
    let cfg = test_config();
    let mut acc_lamports: u64 = 2_000;
    let mut identity_lamports: u64 = 30;
    assert_eq!(
        close_rakurai_activation_account(&cfg, key(20), 500, &mut acc_lamports, &mut identity_lamports),
        Err(ErrorCode::Unauthorized)
    );
    let r = close_rakurai_activation_account(&cfg, key(2), 500, &mut acc_lamports, &mut identity_lamports);
    assert_eq!(r, Ok(1_500));
    assert_eq!(acc_lamports, 0);
    assert_eq!(identity_lamports, 30 + 2_000);
}

#[test]
fn activation_seeds_spell_their_ascii_names() {
    assert_eq!(RakuraiActivationConfigAccount::seed(), b"ACTIVATION_CONFIG_ACCOUNT".to_vec());
    assert_eq!(RakuraiActivationAccount::seed(), b"RAKURAI_ACTIVATION_ACCOUNT".to_vec());
}

#[test]
fn validate_rejects_only_when_both_rates_exceed_the_cap() {
    let mut acc = test_account();
    acc.validator_commission_bps = 10_001;
    assert!(acc.validate().is_ok());
    acc.validator_commission_bps = 500;
    acc.block_builder_commission_bps = 10_001;
    assert!(acc.validate().is_ok());
    acc.validator_commission_bps = 10_001;
    assert_eq!(acc.validate(), Err(ErrorCode::MaxCommissionBpsExceeded));
    acc.validator_authority = AccountKey::zero();
    assert_eq!(acc.validate(), Err(ErrorCode::AccountValidationFailure));
}

#[test]
fn activation_close_below_rent_minimum_is_an_arithmetic_error() {
    let cfg = test_config();
    let mut acc_lamports: u64 = 400;
    let mut identity_lamports: u64 = 0;
    assert_eq!(
        close_rakurai_activation_account(&cfg, key(2), 500, &mut acc_lamports, &mut identity_lamports),
        Err(ErrorCode::ArithmeticError)
    );
    assert_eq!((acc_lamports, identity_lamports), (400, 0));
}
