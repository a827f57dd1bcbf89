use rakurai_programs::keys::{vote_program_id, AccountKey, VoteAccountRecord};
use rakurai_programs::merkle_proof::{claim_leaf_node, combine_nodes};
use rakurai_programs::reward_distribution::instructions::{
    claim, close_claim_status, close_reward_collection_account, compute_reward_split, initialize,
    initialize_reward_collection_account, transfer_staker_rewards, update_config, upload_merkle_root,
    ErrorCode, RewardSplit,
};
use rakurai_programs::reward_distribution::sdk::{
    ClaimArgs, TransferStakerRewardsArgs, UploadMerkleRootArgs,
};
use rakurai_programs::reward_distribution::state::{
    ClaimStatus, MerkleRoot, RewardCollectionAccount, RewardDistributionConfigAccount,
};

fn key(n: u8) -> AccountKey {
    AccountKey::new([n; 32])
}

fn fresh_status() -> ClaimStatus {
    ClaimStatus {
        is_claimed: false,
        claimant: AccountKey::zero(),
        claim_status_payer: AccountKey::zero(),
        slot_claimed_at: 0,
        amount: 0,
        expires_at: 0,
        bump: 0,
    }
}

fn test_collection() -> RewardCollectionAccount {
    RewardCollectionAccount {
        validator_vote_account: key(10),
        merkle_root_upload_authority: key(11),
        merkle_root: None,
        creation_epoch: 5,
        validator_commission_bps: 2000,
        rakurai_commission_bps: 1000,
        rakurai_commission_account: key(12),
        expires_at: 8,
        initializer: key(13),
        bump: 254,
    }
}

#[test]
fn initialize_config_bounds() {
    assert!(initialize(key(1), 3, 10000, 255).is_ok());
    assert_eq!(
        initialize(key(1), 0, 100, 255),
        Err(ErrorCode::AccountValidationFailure)
    );
    assert_eq!(
        initialize(key(1), 11, 100, 255),
        Err(ErrorCode::AccountValidationFailure)
    );
    assert_eq!(
        initialize(key(1), 3, 10001, 255),
        Err(ErrorCode::AccountValidationFailure)
    );
    let cfg = initialize(key(1), 10, 0, 7).unwrap();
    assert_eq!(cfg.num_epochs_valid, 10);
    assert_eq!(cfg.bump, 7);
}

#[test]
fn rd_update_config_requires_authority() {
    let mut cfg = initialize(key(1), 3, 5000, 9).unwrap();
    let next = RewardDistributionConfigAccount {
        authority: key(2),
        num_epochs_valid: 4,
        max_commission_bps: 6000,
        bump: 0,
    };
    assert_eq!(update_config(&mut cfg, key(2), next), Err(ErrorCode::Unauthorized));
    assert_eq!(cfg.num_epochs_valid, 3);
    assert!(update_config(&mut cfg, key(1), next).is_ok());
    assert_eq!(cfg.authority, key(2));
    assert_eq!(cfg.num_epochs_valid, 4);
    assert_eq!(cfg.bump, 9); // the stored bump is kept
}

#[test]
fn initialize_collection_checks() {
    let cfg = initialize(key(1), 3, 3000, 9).unwrap();
    let vote = VoteAccountRecord { address: key(10), owner: vote_program_id(), node_pubkey: key(13) };

    // commission ceiling: each rate and their sum
    assert_eq!(
        initialize_reward_collection_account(&cfg, &vote, key(13), 5, key(11), 3001, key(12), 0, 1),
        Err(ErrorCode::MaxCommissionFeeBpsExceeded)
    );
    assert_eq!(
        initialize_reward_collection_account(&cfg, &vote, key(13), 5, key(11), 2000, key(12), 1500, 1),
        Err(ErrorCode::MaxCommissionFeeBpsExceeded)
    );

    // vote account must be owned by the vote program
    let bad_owner = VoteAccountRecord { owner: key(66), ..vote };
    assert_eq!(
        initialize_reward_collection_account(&cfg, &bad_owner, key(13), 5, key(11), 100, key(12), 100, 1),
        Err(ErrorCode::Unauthorized)
    );

    // the signer must be the node identity
    assert_eq!(
        initialize_reward_collection_account(&cfg, &vote, key(14), 5, key(11), 100, key(12), 100, 1),
        Err(ErrorCode::Unauthorized)
    );

    let acc =
        initialize_reward_collection_account(&cfg, &vote, key(13), 5, key(11), 2000, key(12), 1000, 1)
            .unwrap();
    assert_eq!(acc.creation_epoch, 5);
    assert_eq!(acc.expires_at, 8); // 5 + num_epochs_valid
    assert_eq!(acc.initializer, key(13));
    assert!(acc.merkle_root.is_none());
}

#[test]
fn split_scenario_exact_values() {
    // 10% block-builder fee, then 20% validator fee of the remainder
    let s = compute_reward_split(10_000, 1000, 2000).unwrap();
    assert_eq!(
        s,
        RewardSplit { block_builder_fee: 1000, validator_fee: 1800, staker_rewards: 7200 }
    );
    assert_eq!(s.block_builder_fee + s.validator_fee + s.staker_rewards, 10_000);
}

#[test]
fn split_edges() {
    assert_eq!(
        compute_reward_split(999, 0, 0).unwrap(),
        RewardSplit { block_builder_fee: 0, validator_fee: 0, staker_rewards: 999 }
    );
    assert_eq!(
        compute_reward_split(999, 10000, 0).unwrap(),
        RewardSplit { block_builder_fee: 999, validator_fee: 0, staker_rewards: 0 }
    );
    // rounding goes to the stakers
    let s = compute_reward_split(9999, 1, 1).unwrap();
    assert_eq!(s.block_builder_fee, 0);
    assert_eq!(s.validator_fee, 0);
    assert_eq!(s.staker_rewards, 9999);
    // the first multiplication overflows
    assert_eq!(compute_reward_split(u64::MAX, 2, 0), Err(ErrorCode::ArithmeticError));
}

#[test]
fn transfer_staker_rewards_scenario() {
    let col = test_collection();
    let mut signer_lamports: u64 = 20_000;
    let mut commission_lamports: u64 = 50;
    let mut collection_lamports: u64 = 1_000;

    let r = transfer_staker_rewards(
        &col,
        key(13),
        key(12),
        10_000,
        &mut signer_lamports,
        &mut commission_lamports,
        &mut collection_lamports,
    );
    assert!(r.is_ok());
    assert_eq!(commission_lamports, 50 + 1000);
    assert_eq!(collection_lamports, 1_000 + 7200);
    // the validator fee (1800) stays with the caller
    assert_eq!(signer_lamports, 20_000 - 1000 - 7200);
}

#[test]
fn transfer_staker_rewards_rejections() {
    let col = test_collection();
    let mut a: u64 = 100;
    let mut b: u64 = 100;
    let mut c: u64 = 100;
    assert_eq!(
        transfer_staker_rewards(&col, key(99), key(12), 10, &mut a, &mut b, &mut c),
        Err(ErrorCode::Unauthorized)
    );
    assert_eq!(
        transfer_staker_rewards(&col, key(13), key(99), 10, &mut a, &mut b, &mut c),
        Err(ErrorCode::InvalidRakuraiCommissionAccount)
    );
    assert_eq!(
        transfer_staker_rewards(&col, key(13), key(12), 0, &mut a, &mut b, &mut c),
        Err(ErrorCode::RewardsTooLow)
    );
    // insufficient caller balance: nothing moves
    assert_eq!(
        transfer_staker_rewards(&col, key(13), key(12), 10_000, &mut a, &mut b, &mut c),
        Err(ErrorCode::ArithmeticError)
    );
    assert_eq!((a, b, c), (100, 100, 100));
}

#[test]
fn upload_merkle_root_boundaries() {
    let mut col = test_collection(); // created at epoch 5, expires at 8
    let auth = key(11);

    // wrong authority
    assert_eq!(
        upload_merkle_root(&mut col, key(99), [1; 32], 100, 10, 6),
        Err(ErrorCode::Unauthorized)
    );
    // upload in the creation epoch is premature
    assert_eq!(
        upload_merkle_root(&mut col, auth, [1; 32], 100, 10, 5),
        Err(ErrorCode::PrematureMerkleRootUpload)
    );
    // one epoch later it goes through
    assert!(upload_merkle_root(&mut col, auth, [1; 32], 100, 10, 6).is_ok());
    let m = col.merkle_root.unwrap();
    assert_eq!(m.root, [1; 32]);
    assert_eq!(m.total_funds_claimed, 0);
    assert_eq!(m.num_nodes_claimed, 0);

    // replacement before any payout is allowed
    assert!(upload_merkle_root(&mut col, auth, [2; 32], 200, 20, 7).is_ok());

    // after expiry it is rejected
    assert_eq!(
        upload_merkle_root(&mut col, auth, [3; 32], 100, 10, 9),
        Err(ErrorCode::ExpiredRewardCollectionAccount)
    );

    // once a payout happened the root is frozen
    col.merkle_root = Some(MerkleRoot {
        root: [2; 32],
        max_total_claim: 200,
        max_num_nodes: 20,
        total_funds_claimed: 5,
        num_nodes_claimed: 1,
    });
    assert_eq!(
        upload_merkle_root(&mut col, auth, [3; 32], 100, 10, 7),
        Err(ErrorCode::Unauthorized)
    );
}

#[test]
fn claim_pays_once_and_only_once() {
    let claimant = key(40);
    let other = key(41);
    let amount: u64 = 700;
    let leaf = claim_leaf_node(&claimant, amount);
    let sibling = claim_leaf_node(&other, 300);
    let root = combine_nodes(&leaf, &sibling);

    let mut col = test_collection();
    col.merkle_root = Some(MerkleRoot {
        root,
        max_total_claim: 1000,
        max_num_nodes: 2,
        total_funds_claimed: 0,
        num_nodes_claimed: 0,
    });
    let mut status = fresh_status();
    let mut col_lamports: u64 = 5_000;
    let mut claimant_lamports: u64 = 10;

    // claim exactly at the expiry epoch succeeds
    let r = claim(
        &mut col,
        &mut status,
        claimant,
        key(50),
        8,
        777,
        3,
        amount,
        vec![sibling],
        &mut col_lamports,
        &mut claimant_lamports,
    );
    assert!(r.is_ok());
    assert_eq!(col_lamports, 5_000 - 700);
    assert_eq!(claimant_lamports, 10 + 700);
    assert!(status.is_claimed);
    assert_eq!(status.claimant, claimant);
    assert_eq!(status.claim_status_payer, key(50));
    assert_eq!(status.slot_claimed_at, 777);
    assert_eq!(status.amount, 700);
    assert_eq!(status.expires_at, 8);
    let m = col.merkle_root.unwrap();
    assert_eq!(m.total_funds_claimed, 700);
    assert_eq!(m.num_nodes_claimed, 1);

    // the same claim a second time is rejected and nothing moves
    let r2 = claim(
        &mut col,
        &mut status,
        claimant,
        key(50),
        8,
        778,
        3,
        amount,
        vec![sibling],
        &mut col_lamports,
        &mut claimant_lamports,
    );
    assert_eq!(r2, Err(ErrorCode::FundsAlreadyClaimed));
    assert_eq!(col_lamports, 4_300);
    assert_eq!(claimant_lamports, 710);
    assert_eq!(col.merkle_root.unwrap().num_nodes_claimed, 1);
}

#[test]
fn claim_rejections() {
    let claimant = key(40);
    let amount: u64 = 700;
    let leaf = claim_leaf_node(&claimant, amount);
    let sibling = claim_leaf_node(&key(41), 300);
    let root = combine_nodes(&leaf, &sibling);

    let base = {
        let mut c = test_collection();
        c.merkle_root = Some(MerkleRoot {
            root,
            max_total_claim: 1000,
            max_num_nodes: 2,
            total_funds_claimed: 0,
            num_nodes_claimed: 0,
        });
        c
    };

    // past the expiry epoch
    let mut col = base;
    let mut status = fresh_status();
    let mut cl: u64 = 5_000;
    let mut kl: u64 = 0;
    assert_eq!(
        claim(&mut col, &mut status, claimant, key(50), 9, 1, 3, amount, vec![sibling], &mut cl, &mut kl),
        Err(ErrorCode::ExpiredRewardCollectionAccount)
    );

    // no root uploaded
    let mut col = base;
    col.merkle_root = None;
    assert_eq!(
        claim(&mut col, &mut status, claimant, key(50), 8, 1, 3, amount, vec![sibling], &mut cl, &mut kl),
        Err(ErrorCode::RootNotUploaded)
    );

    // wrong amount gives a leaf outside the tree
    let mut col = base;
    assert_eq!(
        claim(&mut col, &mut status, claimant, key(50), 8, 1, 3, amount + 1, vec![sibling], &mut cl, &mut kl),
        Err(ErrorCode::InvalidProof)
    );

    // the claim budget caps the payout
    let mut col = base;
    col.merkle_root = Some(MerkleRoot {
        root,
        max_total_claim: 699,
        max_num_nodes: 2,
        total_funds_claimed: 0,
        num_nodes_claimed: 0,
    });
    assert_eq!(
        claim(&mut col, &mut status, claimant, key(50), 8, 1, 3, amount, vec![sibling], &mut cl, &mut kl),
        Err(ErrorCode::ExceedsMaxClaim)
    );

    // the node budget caps the count
    let mut col = base;
    col.merkle_root = Some(MerkleRoot {
        root,
        max_total_claim: 10_000,
        max_num_nodes: 0,
        total_funds_claimed: 0,
        num_nodes_claimed: 0,
    });
    assert_eq!(
        claim(&mut col, &mut status, claimant, key(50), 8, 1, 3, amount, vec![sibling], &mut cl, &mut kl),
        Err(ErrorCode::ExceedsMaxNumNodes)
    );

    // the collection account cannot cover the payout
    let mut col = base;
    let mut poor: u64 = 10;
    assert_eq!(
        claim(&mut col, &mut status, claimant, key(50), 8, 1, 3, amount, vec![sibling], &mut poor, &mut kl),
        Err(ErrorCode::ArithmeticError)
    );
    assert_eq!(poor, 10);
}

#[test]
fn close_collection_premature_moves_nothing() {
    let col = test_collection(); // expires at 8
    let mut col_lamports: u64 = 9_000;
    let mut init_lamports: u64 = 100;
    let mut vote_lamports: u64 = 200;
    assert_eq!(
        close_reward_collection_account(
            &col, key(13), 8, 1_000, &mut col_lamports, &mut init_lamports, &mut vote_lamports
        ),
        Err(ErrorCode::PrematureCloseRewardCollectionAccount)
    );
    assert_eq!((col_lamports, init_lamports, vote_lamports), (9_000, 100, 200));
}

#[test]
fn close_collection_after_expiry_sweeps() {
    let col = test_collection();
    let mut col_lamports: u64 = 9_000;
    let mut init_lamports: u64 = 100;
    let mut vote_lamports: u64 = 200;
    assert_eq!(
        close_reward_collection_account(
            &col, key(99), 9, 1_000, &mut col_lamports, &mut init_lamports, &mut vote_lamports
        ),
        Err(ErrorCode::Unauthorized)
    );
    let r = close_reward_collection_account(
        &col, key(13), 9, 1_000, &mut col_lamports, &mut init_lamports, &mut vote_lamports,
    );
    assert_eq!(r, Ok(8_000));
    assert_eq!(col_lamports, 0);
    assert_eq!(init_lamports, 100 + 8_000);
    assert_eq!(vote_lamports, 200 + 1_000);
}

#[test]
fn close_claim_status_boundaries() {
    let mut status = fresh_status();
    status.claim_status_payer = key(50);
    status.expires_at = 8;
    let mut status_lamports: u64 = 1_500;
    let mut payer_lamports: u64 = 10;

    assert_eq!(
        close_claim_status(&status, key(51), 9, &mut status_lamports, &mut payer_lamports),
        Err(ErrorCode::Unauthorized)
    );
    assert_eq!(
        close_claim_status(&status, key(50), 8, &mut status_lamports, &mut payer_lamports),
        Err(ErrorCode::PrematureCloseClaimStatus)
    );
    assert!(close_claim_status(&status, key(50), 9, &mut status_lamports, &mut payer_lamports).is_ok());
    assert_eq!(status_lamports, 0);
    assert_eq!(payer_lamports, 1_510);
}

#[test]
fn rd_seeds_spell_their_ascii_names() {
    assert_eq!(RewardDistributionConfigAccount::seed(), b"RD_CONFIG_ACCOUNT".to_vec());
    assert_eq!(RewardCollectionAccount::seed(), b"REWARD_COLLECTION_ACCOUNT".to_vec());
    assert_eq!(ClaimStatus::seed(), b"CLAIM_STATUS".to_vec());
}

#[test]
fn argument_records_drive_the_operations() {
    let mut col = test_collection();
    let upload = UploadMerkleRootArgs { root: [4; 32], max_total_claim: 100, max_num_nodes: 1 };
    assert!(
        upload_merkle_root(
            &mut col, key(11), upload.root, upload.max_total_claim, upload.max_num_nodes, 6
        )
        .is_ok()
    );
    assert_eq!(col.merkle_root.unwrap().root, [4; 32]);

    let transfer = TransferStakerRewardsArgs { total_rewards: 10_000 };
    let mut signer_lamports: u64 = 20_000;
    let mut commission_lamports: u64 = 0;
    let mut collection_lamports: u64 = 0;
    assert!(
        transfer_staker_rewards(
            &col, key(13), key(12), transfer.total_rewards, &mut signer_lamports,
            &mut commission_lamports, &mut collection_lamports
        )
        .is_ok()
    );
    assert_eq!(collection_lamports, 7_200);

    let claimant = key(40);
    let leaf = claim_leaf_node(&claimant, 60);
    let sibling = claim_leaf_node(&key(41), 40);
    let root = combine_nodes(&leaf, &sibling);
    assert!(upload_merkle_root(&mut col, key(11), root, 100, 1, 6).is_ok());
    let args = ClaimArgs { proof_path: vec![sibling], amount: 60, bump: 9 };
    let mut status = fresh_status();
    let mut claimant_lamports: u64 = 0;
    assert!(
        claim(
            &mut col, &mut status, claimant, key(50), 8, 1, args.bump, args.amount,
            args.proof_path, &mut collection_lamports, &mut claimant_lamports
        )
        .is_ok()
    );
    assert_eq!(claimant_lamports, 60);
    assert_eq!(status.bump, 9);
}
