use rakurai_programs::keys::{vote_program_id, AccountKey, VoteAccountRecord};
use rakurai_programs::multisig::instructions::{
    close_multi_sig_account, initialize, initialize_multi_sig_account, update_config,
    update_multi_sig_approval, update_multi_sig_commission, ErrorCode,
};
use rakurai_programs::multisig::state::{Config, MultiSigAccount};

fn key(n: u8) -> AccountKey {
    AccountKey::new([n; 32])
}

fn test_config() -> Config {
    initialize(key(1), key(2), key(3), 1000, 255).unwrap()
}

fn test_account() -> MultiSigAccount {
    let cfg = test_config();
    let vote = VoteAccountRecord { address: key(10), owner: vote_program_id(), node_pubkey: key(20) };
    initialize_multi_sig_account(&cfg, &vote, key(20), 500, 254).unwrap()
}

#[test]
fn initialize_config_validation() {
    assert!(initialize(key(1), key(2), key(3), 10000, 0).is_ok());
    assert_eq!(
        initialize(key(1), key(2), AccountKey::zero(), 100, 0),
        Err(ErrorCode::AccountValidationFailure)
    );
    assert_eq!(
        initialize(key(1), AccountKey::zero(), key(3), 100, 0),
        Err(ErrorCode::AccountValidationFailure)
    );
    assert_eq!(
        initialize(key(1), key(2), key(3), 10001, 0),
        Err(ErrorCode::AccountValidationFailure)
    );
}

#[test]
fn multisig_update_config_requires_authority() {
    let mut cfg = test_config();
    let next = Config {
        authority: key(4),
        block_builder_authority: key(5),
        block_builder_commission_bps: 2000,
        block_builder_commission_account: key(6),
        bump: 0,
    };
    assert_eq!(update_config(&mut cfg, key(9), next), Err(ErrorCode::Unauthorized));
    assert!(update_config(&mut cfg, key(1), next).is_ok());
    assert_eq!(cfg.block_builder_authority, key(5));
    assert_eq!(cfg.bump, 255);
}

#[test]
fn initialize_account_authenticates_the_validator() {
    let cfg = test_config();
    let vote = VoteAccountRecord { address: key(10), owner: vote_program_id(), node_pubkey: key(20) };
    let bad_owner = VoteAccountRecord { owner: key(66), ..vote };
    assert_eq!(
        initialize_multi_sig_account(&cfg, &bad_owner, key(20), 500, 254),
        Err(ErrorCode::Unauthorized)
    );
    assert_eq!(
        initialize_multi_sig_account(&cfg, &vote, key(21), 500, 254),
        Err(ErrorCode::Unauthorized)
    );
    let acc = initialize_multi_sig_account(&cfg, &vote, key(20), 500, 254).unwrap();
    assert!(!acc.is_enabled);
    assert_eq!(acc.proposer, Some(key(20)));
    assert_eq!(acc.validator_authority, key(20));
    assert_eq!(acc.block_builder_authority, key(2));
    assert_eq!(acc.block_builder_commission_bps, 1000);
}

#[test]
fn approval_needs_both_parties() {
    // initialization leaves the validator's proposal pending; the block
    // builder's grant accepts it
    let mut acc = test_account();
    assert!(update_multi_sig_approval(&mut acc, key(2), true).is_ok());
    assert!(acc.is_enabled);
    assert_eq!(acc.proposer, None);
}

#[test]
fn reaffirming_own_proposal_stays_pending() {
    let mut acc = test_account();
    assert!(update_multi_sig_approval(&mut acc, key(20), true).is_ok());
    assert!(!acc.is_enabled);
    assert_eq!(acc.proposer, Some(key(20)));
}

#[test]
fn either_party_can_revoke_and_clear() {
    let mut acc = test_account();
    assert!(update_multi_sig_approval(&mut acc, key(2), true).is_ok());
    assert!(acc.is_enabled);
    // the validator revokes: disabled, no pending proposer
    assert!(update_multi_sig_approval(&mut acc, key(20), false).is_ok());
    assert!(!acc.is_enabled);
    assert_eq!(acc.proposer, None);

    // now the block builder proposes and the validator accepts
    assert!(update_multi_sig_approval(&mut acc, key(2), true).is_ok());
    assert!(!acc.is_enabled);
    assert_eq!(acc.proposer, Some(key(2)));
    assert!(update_multi_sig_approval(&mut acc, key(20), true).is_ok());
    assert!(acc.is_enabled);

    // the block builder revokes too
    assert!(update_multi_sig_approval(&mut acc, key(2), false).is_ok());
    assert!(!acc.is_enabled);
    assert_eq!(acc.proposer, None);
}

#[test]
fn multisig_approval_rejects_strangers() {
    let mut acc = test_account();
    assert_eq!(update_multi_sig_approval(&mut acc, key(77), true), Err(ErrorCode::Unauthorized));
    assert!(!acc.is_enabled);
}

#[test]
fn multisig_commission_updates_by_party() {
    let cfg = test_config();
    let mut acc = test_account();

    // the validator sets its own rate, bounds-checked
    assert_eq!(
        update_multi_sig_commission(&cfg, &mut acc, key(20), Some(10001)),
        Err(ErrorCode::MaxCommissionBpsExceeded)
    );
    assert!(update_multi_sig_commission(&cfg, &mut acc, key(20), Some(750)).is_ok());
    assert_eq!(acc.validator_commission_bps, 750);
    // omitting the rate changes nothing
    assert!(update_multi_sig_commission(&cfg, &mut acc, key(20), None).is_ok());
    assert_eq!(acc.validator_commission_bps, 750);

    // the block builder re-syncs its fields from the config
    acc.block_builder_commission_bps = 1;
    acc.block_builder_commission_account = key(9);
    assert!(update_multi_sig_commission(&cfg, &mut acc, key(2), Some(123)).is_ok());
    assert_eq!(acc.block_builder_commission_bps, 1000);
    assert_eq!(acc.block_builder_commission_account, key(3));

    assert_eq!(
        update_multi_sig_commission(&cfg, &mut acc, key(77), Some(1)),
        Err(ErrorCode::Unauthorized)
    );
}

#[test]
fn close_only_by_block_builder() {
    let acc = test_account();
    let mut acc_lamports: u64 = 2_000;
    let mut identity_lamports: u64 = 30;
    assert_eq!(
        close_multi_sig_account(&acc, key(20), 500, &mut acc_lamports, &mut identity_lamports),
        Err(ErrorCode::Unauthorized)
    );
    let r = close_multi_sig_account(&acc, key(2), 500, &mut acc_lamports, &mut identity_lamports);
    assert_eq!(r, Ok(1_500));
    assert_eq!(acc_lamports, 0);
    // the identity receives the sweep and then the rent
    assert_eq!(identity_lamports, 30 + 2_000);
}

#[test]
fn multisig_seeds_spell_their_ascii_names() {
    assert_eq!(Config::seed(), b"CONFIG_ACCOUNT".to_vec());
    assert_eq!(MultiSigAccount::seed(), b"MULTISIG_ACCOUNT".to_vec());
}

#[test]
fn granting_while_enabled_changes_nothing() {
    let mut acc = test_account();
    assert!(update_multi_sig_approval(&mut acc, key(2), true).is_ok());
    assert!(acc.is_enabled);
    let before = acc;
    assert!(update_multi_sig_approval(&mut acc, key(20), true).is_ok());
    assert_eq!(acc, before);
    assert!(update_multi_sig_approval(&mut acc, key(2), true).is_ok());
    assert_eq!(acc, before);
}

#[test]
fn close_below_rent_minimum_is_an_arithmetic_error() {
    let acc = test_account();
    let mut acc_lamports: u64 = 400;
    let mut identity_lamports: u64 = 0;
    assert_eq!(
        close_multi_sig_account(&acc, key(2), 500, &mut acc_lamports, &mut identity_lamports),
        Err(ErrorCode::ArithmeticError)
    );
    assert_eq!((acc_lamports, identity_lamports), (400, 0));
}
