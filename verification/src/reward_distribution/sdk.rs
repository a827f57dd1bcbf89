//! Caller-side companions for the reward distribution program: derived
//! account addresses and the plain argument records each instruction
//! carries.

use crate::keys::AccountKey;
use crate::reward_distribution::state::{ClaimStatus, RewardCollectionAccount, RewardDistributionConfigAccount};
use crate::solana::{pda_derivation, try_find_pda};
use vstd::prelude::*;

verus! {

/// Whether a derived-address lookup result matches the named derivation.
pub open spec fn pda_matches(r: Option<(AccountKey, u8)>, d: Option<(Seq<u8>, u8)>) -> bool {
    match r {
        Some(p) => d == Some((p.0@, p.1)),
        None => d is None,
    }
}

/// The derived address of the program's config account.
pub fn derive_config_account_address(reward_distribution_program_id: &AccountKey) -> (r: Option<
    (AccountKey, u8),
>)
    ensures
        pda_matches(
            r,
            pda_derivation(
                seq![RewardDistributionConfigAccount::spec_seed()],
                reward_distribution_program_id@,
            ),
        ),
{
    let mut seeds: Vec<Vec<u8>> = Vec::new();
    seeds.push(RewardDistributionConfigAccount::seed());
    proof {
        assert(seeds.deep_view() =~~= seq![RewardDistributionConfigAccount::spec_seed()]);
    }
    try_find_pda(&seeds, reward_distribution_program_id)
}

/// The derived address of the collection account for a validator's vote
/// account and an epoch (the epoch keyed in little-endian bytes).
pub fn derive_reward_collection_account_address(
    reward_distribution_program_id: &AccountKey,
    vote_pubkey: &AccountKey,
    epoch: u64,
) -> (r: Option<(AccountKey, u8)>)
    ensures
        pda_matches(
            r,
            pda_derivation(
                seq![
                    RewardCollectionAccount::spec_seed(),
                    vote_pubkey@,
                    vstd::bytes::spec_u64_to_le_bytes(epoch),
                ],
                reward_distribution_program_id@,
            ),
        ),
{
    let mut seeds: Vec<Vec<u8>> = Vec::new();
    seeds.push(RewardCollectionAccount::seed());
    seeds.push(vstd::slice::slice_to_vec(vote_pubkey.bytes.as_slice()));
    seeds.push(vstd::bytes::u64_to_le_bytes(epoch));
    proof {
        assert(seeds.deep_view() =~~= seq![
            RewardCollectionAccount::spec_seed(),
            vote_pubkey@,
            vstd::bytes::spec_u64_to_le_bytes(epoch),
        ]);
    }
    try_find_pda(&seeds, reward_distribution_program_id)
}

/// The derived address of the claim record for a claimant against one
/// collection account.
pub fn derive_claim_status_account_address(
    reward_distribution_program_id: &AccountKey,
    claimant: &AccountKey,
    reward_collection_account: &AccountKey,
) -> (r: Option<(AccountKey, u8)>)
    ensures
        pda_matches(
            r,
            pda_derivation(
                seq![ClaimStatus::spec_seed(), claimant@, reward_collection_account@],
                reward_distribution_program_id@,
            ),
        ),
{
    let mut seeds: Vec<Vec<u8>> = Vec::new();
    seeds.push(ClaimStatus::seed());
    seeds.push(vstd::slice::slice_to_vec(claimant.bytes.as_slice()));
    seeds.push(vstd::slice::slice_to_vec(reward_collection_account.bytes.as_slice()));
    proof {
        assert(seeds.deep_view() =~~= seq![
            ClaimStatus::spec_seed(),
            claimant@,
            reward_collection_account@,
        ]);
    }
    try_find_pda(&seeds, reward_distribution_program_id)
}

/// Arguments for initializing the config account.
pub struct InitializeArgs {
    pub authority: AccountKey,
    pub num_epochs_valid: u64,
    pub max_commission_bps: u16,
    pub bump: u8,
}

/// Accounts referenced when initializing the config account.
pub struct InitializeAccounts {
    pub config: AccountKey,
    pub system_program: AccountKey,
    pub initializer: AccountKey,
}

/// Arguments for initializing a reward collection account.
pub struct InitializeRewardCollectionAccountArgs {
    pub merkle_root_upload_authority: AccountKey,
    pub validator_commission_bps: u16,
    pub rakurai_commission_account: AccountKey,
    pub rakurai_commission_bps: u16,
    pub bump: u8,
}

/// Accounts referenced when initializing a reward collection account.
pub struct InitializeRewardCollectionAccountAccounts {
    pub config: AccountKey,
    pub signer: AccountKey,
    pub system_program: AccountKey,
    pub reward_collection_account: AccountKey,
    pub validator_vote_account: AccountKey,
}

/// Arguments for closing a claim record (none).
pub struct CloseClaimStatusArgs;

/// Accounts referenced when closing a claim record.
pub struct CloseClaimStatusAccounts {
    pub config: AccountKey,
    pub claim_status: AccountKey,
    pub claim_status_payer: AccountKey,
}

/// Arguments for replacing the config's policy.
pub struct UpdateConfigArgs {
    pub new_config: RewardDistributionConfigAccount,
}

/// Accounts referenced when updating the config.
pub struct UpdateConfigAccounts {
    pub config: AccountKey,
    pub authority: AccountKey,
}

/// Arguments for uploading a Merkle root.
pub struct UploadMerkleRootArgs {
    pub root: [u8; 32],
    pub max_total_claim: u64,
    pub max_num_nodes: u64,
}

/// Accounts referenced when uploading a Merkle root.
pub struct UploadMerkleRootAccounts {
    pub config: AccountKey,
    pub merkle_root_upload_authority: AccountKey,
    pub reward_collection_account: AccountKey,
}

/// Arguments for streaming one leader turn's rewards.
pub struct TransferStakerRewardsArgs {
    pub total_rewards: u64,
}

/// Accounts referenced when streaming rewards.
pub struct TransferStakerRewardsAccounts {
    pub rakurai_commission_account: AccountKey,
    pub reward_collection_account: AccountKey,
    pub system_program: AccountKey,
    pub signer: AccountKey,
}

/// Arguments for closing a collection account: the epoch that keys its
/// derived address.
pub struct CloseRewardCollectionAccountArgs {
    pub _epoch: u64,
}

/// Accounts referenced when closing a collection account.
pub struct CloseRewardCollectionAccounts {
    pub config: AccountKey,
    pub initializer: AccountKey,
    pub reward_collection_account: AccountKey,
    pub validator_vote_account: AccountKey,
    pub signer: AccountKey,
}

/// Arguments for claiming a staker's share.
pub struct ClaimArgs {
    pub proof_path: Vec<[u8; 32]>,
    pub amount: u64,
    pub bump: u8,
}

/// Accounts referenced when claiming.
pub struct ClaimAccounts {
    pub config: AccountKey,
    pub reward_collection_account: AccountKey,
    pub claim_status: AccountKey,
    pub claimant: AccountKey,
    pub payer: AccountKey,
    pub system_program: AccountKey,
}

} // verus!
