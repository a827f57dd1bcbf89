//! The reward distribution program's operations, as pure state
//! transitions.
//!
//! Each operation takes the account states it reads or writes, the current
//! epoch (and slot where recorded), and the native balances it moves, and
//! either commits the whole effect or returns an error leaving every
//! argument unchanged. The caller authenticates nothing: every
//! authorization rule is part of the operation itself.

use crate::keys::{vote_program_id, vote_program_key, AccountKey, VoteAccountRecord};
use crate::merkle_proof::{claim_leaf_node, leaf_digest, root_digest, verify};
use crate::reward_distribution::state::{
    ClaimStatus, MerkleRoot, RewardCollectionAccount, RewardDistributionConfigAccount,
    MAX_COMMISSION_BPS, MAX_NUM_EPOCHS_VALID,
};
use vstd::prelude::*;

verus! {

/// The reward distribution program's error codes.
#[derive(Clone, Copy, Debug, PartialEq, Eq, Structural)]
pub enum ErrorCode {
    /// Account failed validation.
    AccountValidationFailure,
    /// An arithmetic under- or overflow.
    ArithmeticError,
    /// The root's total claim budget would be exceeded.
    ExceedsMaxClaim,
    /// The root's claim count budget would be exceeded.
    ExceedsMaxNumNodes,
    /// The collection account is past its expiry epoch.
    ExpiredRewardCollectionAccount,
    /// The funds for this claimant were already claimed.
    FundsAlreadyClaimed,
    /// The Merkle proof does not verify.
    InvalidProof,
    /// A commission rate is above the config's ceiling.
    MaxCommissionFeeBpsExceeded,
    /// The collection account has not expired yet.
    PrematureCloseRewardCollectionAccount,
    /// The claim record has not expired yet.
    PrematureCloseClaimStatus,
    /// The root was uploaded in the account's creation epoch.
    PrematureMerkleRootUpload,
    /// No Merkle root has been uploaded.
    RootNotUploaded,
    /// The caller is not the required authority.
    Unauthorized,
    /// Total rewards must be greater than zero.
    RewardsTooLow,
    /// The supplied commission account is not the stored one.
    InvalidRakuraiCommissionAccount,
}

/// Sets up the singleton config with the given policy.
pub fn initialize(
    authority: AccountKey,
    num_epochs_valid: u64,
    max_commission_bps: u16,
    bump: u8,
) -> (r: Result<RewardDistributionConfigAccount, ErrorCode>)
    ensures
        r is Ok <==> (1 <= num_epochs_valid <= MAX_NUM_EPOCHS_VALID && max_commission_bps <= MAX_COMMISSION_BPS),
        r matches Ok(cfg) ==> cfg == (RewardDistributionConfigAccount {
            authority,
            num_epochs_valid,
            max_commission_bps,
            bump,
        }),
        r is Err ==> r == Err::<RewardDistributionConfigAccount, ErrorCode>(
            ErrorCode::AccountValidationFailure,
        ),
{
    let cfg = RewardDistributionConfigAccount { authority, num_epochs_valid, max_commission_bps, bump };
    cfg.validate()?;
    Ok(cfg)
}

/// Replaces the config's policy fields. Only the stored authority may do
/// so, and only with a valid new policy; the stored bump is kept.
pub fn update_config(
    config: &mut RewardDistributionConfigAccount,
    authority: AccountKey,
    new_config: RewardDistributionConfigAccount,
) -> (r: Result<(), ErrorCode>)
    ensures
        r is Ok <==> (old(config).authority@ == authority@ && (RewardDistributionConfigAccount {
            bump: old(config).bump,
            ..new_config
        }).spec_valid()),
        old(config).authority@ != authority@ ==> r == Err::<(), ErrorCode>(ErrorCode::Unauthorized),
        r is Err && old(config).authority@ == authority@ ==> r == Err::<(), ErrorCode>(
            ErrorCode::AccountValidationFailure,
        ),
        r is Err ==> *final(config) == *old(config),
        r is Ok ==> *final(config) == (RewardDistributionConfigAccount {
            authority: new_config.authority,
            num_epochs_valid: new_config.num_epochs_valid,
            max_commission_bps: new_config.max_commission_bps,
            bump: old(config).bump,
        }),
{
    if !(config.authority == authority) {
        return Err(ErrorCode::Unauthorized);
    }
    let updated = RewardDistributionConfigAccount {
        authority: new_config.authority,
        num_epochs_valid: new_config.num_epochs_valid,
        max_commission_bps: new_config.max_commission_bps,
        bump: config.bump,
    };
    updated.validate()?;
    *config = updated;
    Ok(())
}

/// The outcome of initializing a collection account, over the same inputs:
/// either the fully populated account or the error the operation reports.
pub open spec fn spec_initialize_collection(
    config: RewardDistributionConfigAccount,
    vote_account: VoteAccountRecord,
    signer: AccountKey,
    current_epoch: u64,
    merkle_root_upload_authority: AccountKey,
    validator_commission_bps: u16,
    rakurai_commission_account: AccountKey,
    rakurai_commission_bps: u16,
    bump: u8,
) -> Result<RewardCollectionAccount, ErrorCode> {
    if validator_commission_bps > config.max_commission_bps || rakurai_commission_bps
        > config.max_commission_bps || validator_commission_bps + rakurai_commission_bps
        > config.max_commission_bps {
        Err(ErrorCode::MaxCommissionFeeBpsExceeded)
    } else if vote_account.owner@ != vote_program_key() {
        Err(ErrorCode::Unauthorized)
    } else if vote_account.node_pubkey@ != signer@ {
        Err(ErrorCode::Unauthorized)
    } else if current_epoch + config.num_epochs_valid > u64::MAX {
        Err(ErrorCode::ArithmeticError)
    } else {
        let acc = RewardCollectionAccount {
            validator_vote_account: vote_account.address,
            merkle_root_upload_authority,
            merkle_root: None,
            creation_epoch: current_epoch,
            validator_commission_bps,
            rakurai_commission_bps,
            rakurai_commission_account,
            expires_at: (current_epoch + config.num_epochs_valid) as u64,
            initializer: signer,
            bump,
        };
        if !acc.spec_valid() {
            Err(ErrorCode::AccountValidationFailure)
        } else {
            Ok(acc)
        }
    }
}

/// Creates the per-(validator, epoch) collection account. The commission
/// rates and their sum must stay within the config's ceiling; the caller
/// must be the node identity named by a vote account owned by the vote
/// program; the expiry is the creation epoch plus the config's validity
/// period.
pub fn initialize_reward_collection_account(
    config: &RewardDistributionConfigAccount,
    vote_account: &VoteAccountRecord,
    signer: AccountKey,
    current_epoch: u64,
    merkle_root_upload_authority: AccountKey,
    validator_commission_bps: u16,
    rakurai_commission_account: AccountKey,
    rakurai_commission_bps: u16,
    bump: u8,
) -> (r: Result<RewardCollectionAccount, ErrorCode>)
    ensures
        r == spec_initialize_collection(
            *config,
            *vote_account,
            signer,
            current_epoch,
            merkle_root_upload_authority,
            validator_commission_bps,
            rakurai_commission_account,
            rakurai_commission_bps,
            bump,
        ),
{
    if validator_commission_bps > config.max_commission_bps || rakurai_commission_bps
        > config.max_commission_bps || (validator_commission_bps as u32
        + rakurai_commission_bps as u32) > config.max_commission_bps as u32 {
        return Err(ErrorCode::MaxCommissionFeeBpsExceeded);
    }
    if !(vote_account.owner == vote_program_id()) {
        return Err(ErrorCode::Unauthorized);
    }
    if !(vote_account.node_pubkey == signer) {
        return Err(ErrorCode::Unauthorized);
    }
    let expires_at = match current_epoch.checked_add(config.num_epochs_valid) {
        Some(v) => v,
        None => {
            return Err(ErrorCode::ArithmeticError);
        },
    };
    let acc = RewardCollectionAccount {
        validator_vote_account: vote_account.address,
        merkle_root_upload_authority,
        merkle_root: None,
        creation_epoch: current_epoch,
        validator_commission_bps,
        rakurai_commission_bps,
        rakurai_commission_account,
        expires_at,
        initializer: signer,
        bump,
    };
    acc.validate()?;
    Ok(acc)
}

/// The error, if any, that uploading a root reports, over the same inputs
/// and in the same order of checks.
pub open spec fn spec_upload_error(
    col: RewardCollectionAccount,
    merkle_root_upload_authority: AccountKey,
    current_epoch: u64,
) -> Option<ErrorCode> {
    if merkle_root_upload_authority@ != col.merkle_root_upload_authority@ {
        Some(ErrorCode::Unauthorized)
    } else if match col.merkle_root {
        Some(m) => m.num_nodes_claimed > 0,
        None => false,
    } {
        Some(ErrorCode::Unauthorized)
    } else if current_epoch <= col.creation_epoch {
        Some(ErrorCode::PrematureMerkleRootUpload)
    } else if current_epoch > col.expires_at {
        Some(ErrorCode::ExpiredRewardCollectionAccount)
    } else if !col.spec_valid() {
        Some(ErrorCode::AccountValidationFailure)
    } else {
        None
    }
}

/// Uploads (or replaces) the Merkle root, with fresh claim counters. Only
/// the stored upload authority may do so; only before any payout against a
/// previous root, strictly after the creation epoch, and not after expiry.
pub fn upload_merkle_root(
    collection: &mut RewardCollectionAccount,
    merkle_root_upload_authority: AccountKey,
    root: [u8; 32],
    max_total_claim: u64,
    max_num_nodes: u64,
    current_epoch: u64,
) -> (r: Result<(), ErrorCode>)
    ensures
        match r {
            Ok(()) => spec_upload_error(*old(collection), merkle_root_upload_authority, current_epoch)
                is None,
            Err(e) => spec_upload_error(*old(collection), merkle_root_upload_authority, current_epoch)
                == Some(e),
        },
        r is Err ==> *final(collection) == *old(collection),
        r is Ok ==> *final(collection) == (RewardCollectionAccount {
            merkle_root: Some(
                MerkleRoot {
                    root,
                    max_total_claim,
                    max_num_nodes,
                    total_funds_claimed: 0,
                    num_nodes_claimed: 0,
                },
            ),
            ..*old(collection)
        }),
        r is Ok ==> (match final(collection).merkle_root {
            Some(m) => m.spec_within_budget(),
            None => false,
        }),
{
    if !(merkle_root_upload_authority == collection.merkle_root_upload_authority) {
        return Err(ErrorCode::Unauthorized);
    }
    match &collection.merkle_root {
        Some(m) => {
            if m.num_nodes_claimed > 0 {
                return Err(ErrorCode::Unauthorized);
            }
        },
        None => {},
    }
    if current_epoch <= collection.creation_epoch {
        return Err(ErrorCode::PrematureMerkleRootUpload);
    }
    if current_epoch > collection.expires_at {
        return Err(ErrorCode::ExpiredRewardCollectionAccount);
    }
    collection.validate()?;
    collection.merkle_root = Some(
        MerkleRoot { root, max_total_claim, max_num_nodes, total_funds_claimed: 0, num_nodes_claimed: 0 },
    );
    Ok(())
}

/// The three-way split of a reward amount, computed with floor division in
/// basis points: the block-builder fee first, then the validator fee out
/// of the remainder, the rest to stakers. `None` exactly when a checked
/// step fails.
pub open spec fn spec_reward_split(total: u64, rakurai_bps: u16, validator_bps: u16) -> Option<
    RewardSplit,
> {
    let product1 = total * rakurai_bps;
    if product1 > u64::MAX {
        None
    } else {
        let bb = product1 / 10000;
        if bb > total {
            None
        } else {
            let rem = total - bb;
            let product2 = rem * validator_bps;
            if product2 > u64::MAX {
                None
            } else {
                let vf = product2 / 10000;
                if vf > rem {
                    None
                } else {
                    Some(
                        RewardSplit {
                            block_builder_fee: bb as u64,
                            validator_fee: vf as u64,
                            staker_rewards: (rem - vf) as u64,
                        },
                    )
                }
            }
        }
    }
}

/// The three-way split of one reward transfer.
#[derive(Clone, Copy, Debug, PartialEq, Eq, Structural)]
pub struct RewardSplit {
    /// Fee sent to the block builder's commission account.
    pub block_builder_fee: u64,
    /// Fee implicitly retained by the validator.
    pub validator_fee: u64,
    /// The stakers' share, deposited into the collection account.
    pub staker_rewards: u64,
}

/// Computes the three-way commission split.
pub fn compute_reward_split(total_rewards: u64, rakurai_bps: u16, validator_bps: u16) -> (r:
    Result<RewardSplit, ErrorCode>)
    ensures
        match r {
            Ok(s) => spec_reward_split(total_rewards, rakurai_bps, validator_bps) == Some(s),
            Err(e) => spec_reward_split(total_rewards, rakurai_bps, validator_bps) is None && e
                == ErrorCode::ArithmeticError,
        },
        r matches Ok(s) ==> s.block_builder_fee + s.validator_fee + s.staker_rewards
            == total_rewards,
{
    let product1 = match total_rewards.checked_mul(rakurai_bps as u64) {
        Some(v) => v,
        None => {
            return Err(ErrorCode::ArithmeticError);
        },
    };
    let block_builder_fee = product1 / 10000;
    let remaining = match total_rewards.checked_sub(block_builder_fee) {
        Some(v) => v,
        None => {
            return Err(ErrorCode::ArithmeticError);
        },
    };
    let product2 = match remaining.checked_mul(validator_bps as u64) {
        Some(v) => v,
        None => {
            return Err(ErrorCode::ArithmeticError);
        },
    };
    let validator_fee = product2 / 10000;
    let staker_rewards = match remaining.checked_sub(validator_fee) {
        Some(v) => v,
        None => {
            return Err(ErrorCode::ArithmeticError);
        },
    };
    let split = RewardSplit { block_builder_fee, validator_fee, staker_rewards };
    proof {
        assert(split.block_builder_fee + split.validator_fee + split.staker_rewards
            == total_rewards);
    }
    Ok(split)
}

/// Splitting never leaks or mints: whenever the split is defined, the
/// three shares sum to the transferred total exactly, for every total and
/// every pair of rates.
pub proof fn lemma_split_conserves_total(total: u64, rakurai_bps: u16, validator_bps: u16)
    ensures
        match spec_reward_split(total, rakurai_bps, validator_bps) {
            Some(s) => s.block_builder_fee + s.validator_fee + s.staker_rewards == total,
            None => true,
        },
{
}

/// Streams one leader turn's rewards: sends the block-builder fee to the
/// stored commission account and the stakers' share into the collection
/// account; the validator fee never leaves the caller. The caller must be
/// the account's initializer and must name the stored commission account.
pub fn transfer_staker_rewards(
    collection: &RewardCollectionAccount,
    signer: AccountKey,
    rakurai_commission_account: AccountKey,
    total_rewards: u64,
    signer_lamports: &mut u64,
    rakurai_commission_lamports: &mut u64,
    collection_lamports: &mut u64,
) -> (r: Result<(), ErrorCode>)
    ensures
        signer@ != collection.initializer@ ==> r == Err::<(), ErrorCode>(ErrorCode::Unauthorized),
        signer@ == collection.initializer@ && rakurai_commission_account@
            != collection.rakurai_commission_account@ ==> r == Err::<(), ErrorCode>(
            ErrorCode::InvalidRakuraiCommissionAccount,
        ),
        signer@ == collection.initializer@ && rakurai_commission_account@
            == collection.rakurai_commission_account@ && total_rewards == 0 ==> r == Err::<
            (),
            ErrorCode,
        >(ErrorCode::RewardsTooLow),
        signer@ == collection.initializer@ && rakurai_commission_account@
            == collection.rakurai_commission_account@ && total_rewards > 0 && r is Err ==> r
            == Err::<(), ErrorCode>(ErrorCode::ArithmeticError),
        r is Ok <==> (signer@ == collection.initializer@ && rakurai_commission_account@
            == collection.rakurai_commission_account@ && total_rewards > 0 && (match
        spec_reward_split(
            total_rewards,
            collection.rakurai_commission_bps,
            collection.validator_commission_bps,
        ) {
            Some(s) => *old(signer_lamports) >= s.block_builder_fee + s.staker_rewards && *old(rakurai_commission_lamports) + s.block_builder_fee <= u64::MAX && *old(collection_lamports) + s.staker_rewards
                <= u64::MAX,
            None => false,
        })),
        r is Err ==> *final(signer_lamports) == *old(signer_lamports) && *final(rakurai_commission_lamports) == *old(rakurai_commission_lamports) && *final(collection_lamports) == *old(collection_lamports),
        r is Ok ==> (match spec_reward_split(
            total_rewards,
            collection.rakurai_commission_bps,
            collection.validator_commission_bps,
        ) {
            Some(s) => *final(signer_lamports) == *old(signer_lamports) - s.block_builder_fee
                - s.staker_rewards && *final(rakurai_commission_lamports) == *old(rakurai_commission_lamports) + s.block_builder_fee && *final(collection_lamports) == *old(collection_lamports)
                + s.staker_rewards,
            None => false,
        }),
{
    if !(signer == collection.initializer) {
        return Err(ErrorCode::Unauthorized);
    }
    if !(rakurai_commission_account == collection.rakurai_commission_account) {
        return Err(ErrorCode::InvalidRakuraiCommissionAccount);
    }
    if total_rewards == 0 {
        return Err(ErrorCode::RewardsTooLow);
    }
    let split = compute_reward_split(
        total_rewards,
        collection.rakurai_commission_bps,
        collection.validator_commission_bps,
    )?;
    // all-or-nothing: both balance moves are checked before either commits
    let after_fee = match signer_lamports.checked_sub(split.block_builder_fee) {
        Some(v) => v,
        None => {
            return Err(ErrorCode::ArithmeticError);
        },
    };
    let new_commission = match rakurai_commission_lamports.checked_add(split.block_builder_fee) {
        Some(v) => v,
        None => {
            return Err(ErrorCode::ArithmeticError);
        },
    };
    let after_stakers = match after_fee.checked_sub(split.staker_rewards) {
        Some(v) => v,
        None => {
            return Err(ErrorCode::ArithmeticError);
        },
    };
    let new_collection = match collection_lamports.checked_add(split.staker_rewards) {
        Some(v) => v,
        None => {
            return Err(ErrorCode::ArithmeticError);
        },
    };
    *signer_lamports = after_stakers;
    *rakurai_commission_lamports = new_commission;
    *collection_lamports = new_collection;
    Ok(())
}

/// The error, if any, that a claim reports, over the same inputs and in
/// the same order of checks: expiry, the double-claim guard, a missing
/// root, the Merkle proof, the balance moves, and the root's budgets.
pub open spec fn spec_claim_error(
    col: RewardCollectionAccount,
    status: ClaimStatus,
    claimant: Seq<u8>,
    current_epoch: u64,
    amount: u64,
    path: Seq<Seq<u8>>,
    collection_lamports: u64,
    claimant_lamports: u64,
) -> Option<ErrorCode> {
    if current_epoch > col.expires_at {
        Some(ErrorCode::ExpiredRewardCollectionAccount)
    } else if status.is_claimed {
        Some(ErrorCode::FundsAlreadyClaimed)
    } else {
        match col.merkle_root {
            None => Some(ErrorCode::RootNotUploaded),
            Some(m) => {
                if m.root@ != root_digest(leaf_digest(claimant, amount), path) {
                    Some(ErrorCode::InvalidProof)
                } else if collection_lamports < amount {
                    Some(ErrorCode::ArithmeticError)
                } else if claimant_lamports + amount > u64::MAX {
                    Some(ErrorCode::ArithmeticError)
                } else if m.total_funds_claimed + amount > u64::MAX {
                    Some(ErrorCode::ArithmeticError)
                } else if m.total_funds_claimed + amount > m.max_total_claim {
                    Some(ErrorCode::ExceedsMaxClaim)
                } else if m.num_nodes_claimed + 1 > u64::MAX {
                    Some(ErrorCode::ArithmeticError)
                } else if m.num_nodes_claimed + 1 > m.max_num_nodes {
                    Some(ErrorCode::ExceedsMaxNumNodes)
                } else if !col.spec_valid() {
                    Some(ErrorCode::AccountValidationFailure)
                } else {
                    None
                }
            },
        }
    }
}

/// The root record after a successful claim: the running totals advanced
/// by the paid amount and by one node.
pub open spec fn spec_claimed_root(m: MerkleRoot, amount: u64) -> MerkleRoot {
    MerkleRoot {
        total_funds_claimed: (m.total_funds_claimed + amount) as u64,
        num_nodes_claimed: (m.num_nodes_claimed + 1) as u64,
        ..m
    }
}

/// Pays one staker's share against the uploaded Merkle root. The claim
/// must come within the account's claim window, against a fresh claim
/// record, with a proof that folds the claimant's leaf to the stored
/// root; the payout and both budget counters are committed together, or
/// nothing is.
pub fn claim(
    collection: &mut RewardCollectionAccount,
    claim_status: &mut ClaimStatus,
    claimant: AccountKey,
    payer: AccountKey,
    current_epoch: u64,
    current_slot: u64,
    bump: u8,
    amount: u64,
    proof_path: Vec<[u8; 32]>,
    collection_lamports: &mut u64,
    claimant_lamports: &mut u64,
) -> (r: Result<(), ErrorCode>)
    ensures
        match r {
            Ok(()) => spec_claim_error(
                *old(collection),
                *old(claim_status),
                claimant@,
                current_epoch,
                amount,
                proof_path.deep_view(),
                *old(collection_lamports),
                *old(claimant_lamports),
            ) is None,
            Err(e) => spec_claim_error(
                *old(collection),
                *old(claim_status),
                claimant@,
                current_epoch,
                amount,
                proof_path.deep_view(),
                *old(collection_lamports),
                *old(claimant_lamports),
            ) == Some(e),
        },
        r is Err ==> *final(collection) == *old(collection) && *final(claim_status) == *old(claim_status) && *final(collection_lamports) == *old(collection_lamports) && *final(claimant_lamports)
            == *old(claimant_lamports),
        r is Ok ==> (match old(collection).merkle_root {
            Some(m) => *final(collection) == (RewardCollectionAccount {
                merkle_root: Some(spec_claimed_root(m, amount)),
                ..*old(collection)
            }) && (match final(collection).merkle_root {
                Some(m2) => m2.spec_within_budget(),
                None => false,
            }),
            None => false,
        }),
        r is Ok ==> *final(claim_status) == (ClaimStatus {
            is_claimed: true,
            claimant,
            claim_status_payer: payer,
            slot_claimed_at: current_slot,
            amount,
            expires_at: old(collection).expires_at,
            bump,
        }),
        r is Ok ==> *final(collection_lamports) == *old(collection_lamports) - amount && *final(claimant_lamports) == *old(claimant_lamports) + amount,
{
    if current_epoch > collection.expires_at {
        return Err(ErrorCode::ExpiredRewardCollectionAccount);
    }
    if claim_status.is_claimed {
        return Err(ErrorCode::FundsAlreadyClaimed);
    }
    let m = match &collection.merkle_root {
        Some(m) => *m,
        None => {
            return Err(ErrorCode::RootNotUploaded);
        },
    };
    let node = claim_leaf_node(&claimant, amount);
    if !verify(proof_path, m.root, node) {
        return Err(ErrorCode::InvalidProof);
    }
    // all-or-nothing: every balance move and counter step is checked
    // before anything commits
    let new_collection_lamports = match collection_lamports.checked_sub(amount) {
        Some(v) => v,
        None => {
            return Err(ErrorCode::ArithmeticError);
        },
    };
    let new_claimant_lamports = match claimant_lamports.checked_add(amount) {
        Some(v) => v,
        None => {
            return Err(ErrorCode::ArithmeticError);
        },
    };
    let new_total_funds_claimed = match m.total_funds_claimed.checked_add(amount) {
        Some(v) => v,
        None => {
            return Err(ErrorCode::ArithmeticError);
        },
    };
    if new_total_funds_claimed > m.max_total_claim {
        return Err(ErrorCode::ExceedsMaxClaim);
    }
    let new_num_nodes_claimed = match m.num_nodes_claimed.checked_add(1) {
        Some(v) => v,
        None => {
            return Err(ErrorCode::ArithmeticError);
        },
    };
    if new_num_nodes_claimed > m.max_num_nodes {
        return Err(ErrorCode::ExceedsMaxNumNodes);
    }
    collection.validate()?;

    *collection_lamports = new_collection_lamports;
    *claimant_lamports = new_claimant_lamports;
    collection.merkle_root = Some(
        MerkleRoot {
            root: m.root,
            max_total_claim: m.max_total_claim,
            max_num_nodes: m.max_num_nodes,
            total_funds_claimed: new_total_funds_claimed,
            num_nodes_claimed: new_num_nodes_claimed,
        },
    );
    *claim_status = ClaimStatus {
        is_claimed: true,
        claimant,
        claim_status_payer: payer,
        slot_claimed_at: current_slot,
        amount,
        expires_at: collection.expires_at,
        bump,
    };
    Ok(())
}

/// Anti-replay: against a claim record that is already stamped, a claim
/// within the account's claim window is rejected with
/// `FundsAlreadyClaimed`, whatever the proof, the amount and the
/// balances. Together with `claim`'s postcondition that a successful
/// claim stamps the record, a second claim for the same
/// (claimant, collection account) pair can never pay out twice.
pub proof fn lemma_second_claim_rejected(
    col: RewardCollectionAccount,
    status: ClaimStatus,
    claimant: Seq<u8>,
    current_epoch: u64,
    amount: u64,
    path: Seq<Seq<u8>>,
    collection_lamports: u64,
    claimant_lamports: u64,
)
    requires
        status.is_claimed,
        current_epoch <= col.expires_at,
    ensures
        spec_claim_error(
            col,
            status,
            claimant,
            current_epoch,
            amount,
            path,
            collection_lamports,
            claimant_lamports,
        ) == Some(ErrorCode::FundsAlreadyClaimed),
{
}

/// Closes an expired claim record, refunding its whole balance (the rent)
/// to the payer recorded in it. Permissionless, but only once the record
/// has expired, and only to the recorded payer.
pub fn close_claim_status(
    claim_status: &ClaimStatus,
    claim_status_payer: AccountKey,
    current_epoch: u64,
    claim_status_lamports: &mut u64,
    payer_lamports: &mut u64,
) -> (r: Result<(), ErrorCode>)
    ensures
        claim_status_payer@ != claim_status.claim_status_payer@ ==> r == Err::<(), ErrorCode>(
            ErrorCode::Unauthorized,
        ),
        claim_status_payer@ == claim_status.claim_status_payer@ && current_epoch
            <= claim_status.expires_at ==> r == Err::<(), ErrorCode>(
            ErrorCode::PrematureCloseClaimStatus,
        ),
        claim_status_payer@ == claim_status.claim_status_payer@ && current_epoch
            > claim_status.expires_at && r is Err ==> r == Err::<(), ErrorCode>(
            ErrorCode::ArithmeticError,
        ),
        r is Ok <==> (claim_status_payer@ == claim_status.claim_status_payer@ && current_epoch
            > claim_status.expires_at && *old(payer_lamports) + *old(claim_status_lamports)
            <= u64::MAX),
        r is Err ==> *final(claim_status_lamports) == *old(claim_status_lamports) && *final(payer_lamports) == *old(payer_lamports),
        r is Ok ==> *final(claim_status_lamports) == 0 && *final(payer_lamports) == *old(payer_lamports) + *old(claim_status_lamports),
{
    if !(claim_status_payer == claim_status.claim_status_payer) {
        return Err(ErrorCode::Unauthorized);
    }
    if current_epoch <= claim_status.expires_at {
        return Err(ErrorCode::PrematureCloseClaimStatus);
    }
    let new_payer_lamports = match payer_lamports.checked_add(*claim_status_lamports) {
        Some(v) => v,
        None => {
            return Err(ErrorCode::ArithmeticError);
        },
    };
    *claim_status_lamports = 0;
    *payer_lamports = new_payer_lamports;
    Ok(())
}

/// Sends the unclaimed balance to the initializer and closes the
/// collection account, returning its rent to the validator vote account.
/// Permissionless, but the named initializer must be the stored one, and
/// only once the account has expired.
pub fn close_reward_collection_account(
    collection: &RewardCollectionAccount,
    initializer: AccountKey,
    current_epoch: u64,
    min_rent_lamports: u64,
    collection_lamports: &mut u64,
    initializer_lamports: &mut u64,
    validator_vote_lamports: &mut u64,
) -> (r: Result<u64, ErrorCode>)
    ensures
        collection.initializer@ != initializer@ ==> r == Err::<u64, ErrorCode>(
            ErrorCode::Unauthorized,
        ),
        collection.initializer@ == initializer@ && current_epoch <= collection.expires_at ==> r
            == Err::<u64, ErrorCode>(ErrorCode::PrematureCloseRewardCollectionAccount),
        collection.initializer@ == initializer@ && current_epoch > collection.expires_at && r
            is Err ==> (if *old(collection_lamports) < min_rent_lamports || *old(initializer_lamports) + (*old(collection_lamports) - min_rent_lamports) > u64::MAX {
            r == Err::<u64, ErrorCode>(ErrorCode::ArithmeticError)
        } else if !collection.spec_valid() {
            r == Err::<u64, ErrorCode>(ErrorCode::AccountValidationFailure)
        } else {
            r == Err::<u64, ErrorCode>(ErrorCode::ArithmeticError)
        }),
        r is Ok <==> (collection.initializer@ == initializer@ && current_epoch
            > collection.expires_at && *old(collection_lamports) >= min_rent_lamports && *old(initializer_lamports) + (*old(collection_lamports) - min_rent_lamports) <= u64::MAX && collection.spec_valid()
            && *old(validator_vote_lamports) + min_rent_lamports <= u64::MAX),
        r matches Ok(expired_amount) ==> expired_amount == *old(collection_lamports)
            - min_rent_lamports && *final(collection_lamports) == 0 && *final(initializer_lamports)
            == *old(initializer_lamports) + expired_amount && *final(validator_vote_lamports)
            == *old(validator_vote_lamports) + min_rent_lamports,
        r is Err ==> *final(collection_lamports) == *old(collection_lamports) && *final(initializer_lamports) == *old(initializer_lamports) && *final(validator_vote_lamports) == *old(validator_vote_lamports),
{
    if !(collection.initializer == initializer) {
        return Err(ErrorCode::Unauthorized);
    }
    if current_epoch <= collection.expires_at {
        return Err(ErrorCode::PrematureCloseRewardCollectionAccount);
    }
    // all-or-nothing: the sweep, the validation and the rent return are
    // checked before anything commits
    let expired_amount = match collection_lamports.checked_sub(min_rent_lamports) {
        Some(v) => v,
        None => {
            return Err(ErrorCode::ArithmeticError);
        },
    };
    let new_initializer_lamports = match initializer_lamports.checked_add(expired_amount) {
        Some(v) => v,
        None => {
            return Err(ErrorCode::ArithmeticError);
        },
    };
    collection.validate()?;
    let new_vote_lamports = match validator_vote_lamports.checked_add(min_rent_lamports) {
        Some(v) => v,
        None => {
            return Err(ErrorCode::ArithmeticError);
        },
    };
    *collection_lamports = 0;
    *initializer_lamports = new_initializer_lamports;
    *validator_vote_lamports = new_vote_lamports;
    Ok(expired_amount)
}

} // verus!
