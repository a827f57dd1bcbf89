//! The block reward distribution program's operations, as pure state
//! transitions. A sibling of the reward distribution program, with two
//! differences: no reward streaming, and closure keyed to the stored
//! expired-funds account.
//!
//! Each operation takes the account states it reads or writes, the current
//! epoch (and slot where recorded), and the native balances it moves, and
//! either commits the whole effect or returns an error leaving every
//! argument unchanged. The caller authenticates nothing: every
//! authorization rule is part of the operation itself.

use crate::keys::{vote_program_id, vote_program_key, AccountKey, VoteAccountRecord};
use crate::merkle_proof::{claim_leaf_node, leaf_digest, root_digest, verify};
use crate::block_reward_distribution::state::{
    ClaimStatus, Config, MerkleRoot, RewardDistributionAccount, MAX_COMMISSION_BPS,
    MAX_NUM_EPOCHS_VALID,
};
use vstd::prelude::*;

verus! {

/// The block reward distribution program's error codes.
#[derive(Clone, Copy, Debug, PartialEq, Eq, Structural)]
pub enum ErrorCode {
    /// Account failed validation.
    AccountValidationFailure,
    /// An arithmetic under- or overflow.
    ArithmeticError,
    /// The root's total claim budget would be exceeded.
    ExceedsMaxClaim,
    /// The root's claim count budget would be exceeded.
    ExceedsMaxNumNodes,
    /// The distribution account is past its expiry epoch.
    ExpiredRewardDistributionAccount,
    /// The funds for this claimant were already claimed.
    FundsAlreadyClaimed,
    /// Supplied invalid parameters.
    InvalidParameters,
    /// The Merkle proof does not verify.
    InvalidProof,
    /// The supplied vote account data did not deserialize.
    InvalidVoteAccountData,
    /// A commission rate is above the config's ceiling.
    MaxCommissionFeeBpsExceeded,
    /// The distribution account has not expired yet.
    PrematureCloseRewardDistributionAccount,
    /// The claim record has not expired yet.
    PrematureCloseClaimStatus,
    /// The root was uploaded in the account's creation epoch.
    PrematureMerkleRootUpload,
    /// No Merkle root has been uploaded.
    RootNotUploaded,
    /// The caller is not the required authority.
    Unauthorized,
}

/// Sets up the singleton config with the given policy.
pub fn initialize(
    authority: AccountKey,
    num_epochs_valid: u64,
    max_commission_bps: u16,
    bump: u8,
) -> (r: Result<Config, ErrorCode>)
    ensures
        r is Ok <==> (1 <= num_epochs_valid <= MAX_NUM_EPOCHS_VALID && max_commission_bps <= MAX_COMMISSION_BPS),
        r matches Ok(cfg) ==> cfg == (Config {
            authority,
            num_epochs_valid,
            max_commission_bps,
            bump,
        }),
        r is Err ==> r == Err::<Config, ErrorCode>(
            ErrorCode::AccountValidationFailure,
        ),
{
    let cfg = Config { authority, num_epochs_valid, max_commission_bps, bump };
    cfg.validate()?;
    Ok(cfg)
}

/// Replaces the config's policy fields. Only the stored authority may do
/// so, and only with a valid new policy; the stored bump is kept.
pub fn update_config(
    config: &mut Config,
    authority: AccountKey,
    new_config: Config,
) -> (r: Result<(), ErrorCode>)
    ensures
        r is Ok <==> (old(config).authority@ == authority@ && (Config {
            bump: old(config).bump,
            ..new_config
        }).spec_valid()),
        old(config).authority@ != authority@ ==> r == Err::<(), ErrorCode>(ErrorCode::Unauthorized),
        r is Err && old(config).authority@ == authority@ ==> r == Err::<(), ErrorCode>(
            ErrorCode::AccountValidationFailure,
        ),
        r is Err ==> *final(config) == *old(config),
        r is Ok ==> *final(config) == (Config {
            authority: new_config.authority,
            num_epochs_valid: new_config.num_epochs_valid,
            max_commission_bps: new_config.max_commission_bps,
            bump: old(config).bump,
        }),
{
    if !(config.authority == authority) {
        return Err(ErrorCode::Unauthorized);
    }
    let updated = Config {
        authority: new_config.authority,
        num_epochs_valid: new_config.num_epochs_valid,
        max_commission_bps: new_config.max_commission_bps,
        bump: config.bump,
    };
    updated.validate()?;
    *config = updated;
    Ok(())
}

/// The outcome of initializing a distribution account, over the same inputs:
/// either the fully populated account or the error the operation reports.
pub open spec fn spec_initialize_distribution(
    config: Config,
    vote_account: VoteAccountRecord,
    signer: AccountKey,
    current_epoch: u64,
    merkle_root_upload_authority: AccountKey,
    validator_commission_bps: u16,
    rakurai_commission_pubkey: AccountKey,
    rakurai_commission_bps: u16,
    bump: u8,
) -> Result<RewardDistributionAccount, ErrorCode> {
    if validator_commission_bps > config.max_commission_bps || rakurai_commission_bps
        > config.max_commission_bps || validator_commission_bps + rakurai_commission_bps
        > config.max_commission_bps {
        Err(ErrorCode::MaxCommissionFeeBpsExceeded)
    } else if vote_account.owner@ != vote_program_key() {
        Err(ErrorCode::Unauthorized)
    } else if vote_account.node_pubkey@ != signer@ {
        Err(ErrorCode::Unauthorized)
    } else if current_epoch + config.num_epochs_valid > u64::MAX {
        Err(ErrorCode::ArithmeticError)
    } else {
        let acc = RewardDistributionAccount {
            validator_vote_account: vote_account.address,
            merkle_root_upload_authority,
            merkle_root: None,
            epoch_created_at: current_epoch,
            validator_commission_bps,
            rakurai_commission_bps,
            rakurai_commission_pubkey,
            expires_at: (current_epoch + config.num_epochs_valid) as u64,
            expired_funds_account: signer,
            bump,
        };
        if !acc.spec_valid() {
            Err(ErrorCode::AccountValidationFailure)
        } else {
            Ok(acc)
        }
    }
}

/// Creates the per-(validator, epoch) distribution account. The commission
/// rates and their sum must stay within the config's ceiling; the caller
/// must be the node identity named by a vote account owned by the vote
/// program; the expiry is the creation epoch plus the config's validity
/// period.
pub fn initialize_reward_distribution_account(
    config: &Config,
    vote_account: &VoteAccountRecord,
    signer: AccountKey,
    current_epoch: u64,
    merkle_root_upload_authority: AccountKey,
    validator_commission_bps: u16,
    rakurai_commission_pubkey: AccountKey,
    rakurai_commission_bps: u16,
    bump: u8,
) -> (r: Result<RewardDistributionAccount, ErrorCode>)
    ensures
        r == spec_initialize_distribution(
            *config,
            *vote_account,
            signer,
            current_epoch,
            merkle_root_upload_authority,
            validator_commission_bps,
            rakurai_commission_pubkey,
            rakurai_commission_bps,
            bump,
        ),
{
    if validator_commission_bps > config.max_commission_bps || rakurai_commission_bps
        > config.max_commission_bps || (validator_commission_bps as u32
        + rakurai_commission_bps as u32) > config.max_commission_bps as u32 {
        return Err(ErrorCode::MaxCommissionFeeBpsExceeded);
    }
    if !(vote_account.owner == vote_program_id()) {
        return Err(ErrorCode::Unauthorized);
    }
    if !(vote_account.node_pubkey == signer) {
        return Err(ErrorCode::Unauthorized);
    }
    let expires_at = match current_epoch.checked_add(config.num_epochs_valid) {
        Some(v) => v,
        None => {
            return Err(ErrorCode::ArithmeticError);
        },
    };
    let acc = RewardDistributionAccount {
        validator_vote_account: vote_account.address,
        merkle_root_upload_authority,
        merkle_root: None,
        epoch_created_at: current_epoch,
        validator_commission_bps,
        rakurai_commission_bps,
        rakurai_commission_pubkey,
        expires_at,
        expired_funds_account: signer,
        bump,
    };
    acc.validate()?;
    Ok(acc)
}

/// The error, if any, that uploading a root reports, over the same inputs
/// and in the same order of checks.
pub open spec fn spec_upload_error(
    acc: RewardDistributionAccount,
    merkle_root_upload_authority: AccountKey,
    current_epoch: u64,
) -> Option<ErrorCode> {
    if merkle_root_upload_authority@ != acc.merkle_root_upload_authority@ {
        Some(ErrorCode::Unauthorized)
    } else if match acc.merkle_root {
        Some(m) => m.num_nodes_claimed > 0,
        None => false,
    } {
        Some(ErrorCode::Unauthorized)
    } else if current_epoch <= acc.epoch_created_at {
        Some(ErrorCode::PrematureMerkleRootUpload)
    } else if current_epoch > acc.expires_at {
        Some(ErrorCode::ExpiredRewardDistributionAccount)
    } else if !acc.spec_valid() {
        Some(ErrorCode::AccountValidationFailure)
    } else {
        None
    }
}

/// Uploads (or replaces) the Merkle root, with fresh claim counters. Only
/// the stored upload authority may do so; only before any payout against a
/// previous root, strictly after the creation epoch, and not after expiry.
pub fn upload_merkle_root(
    distribution_account: &mut RewardDistributionAccount,
    merkle_root_upload_authority: AccountKey,
    root: [u8; 32],
    max_total_claim: u64,
    max_num_nodes: u64,
    current_epoch: u64,
) -> (r: Result<(), ErrorCode>)
    ensures
        match r {
            Ok(()) => spec_upload_error(*old(distribution_account), merkle_root_upload_authority, current_epoch)
                is None,
            Err(e) => spec_upload_error(*old(distribution_account), merkle_root_upload_authority, current_epoch)
                == Some(e),
        },
        r is Err ==> *final(distribution_account) == *old(distribution_account),
        r is Ok ==> *final(distribution_account) == (RewardDistributionAccount {
            merkle_root: Some(
                MerkleRoot {
                    root,
                    max_total_claim,
                    max_num_nodes,
                    total_funds_claimed: 0,
                    num_nodes_claimed: 0,
                },
            ),
            ..*old(distribution_account)
        }),
        r is Ok ==> (match final(distribution_account).merkle_root {
            Some(m) => m.spec_within_budget(),
            None => false,
        }),
{
    if !(merkle_root_upload_authority == distribution_account.merkle_root_upload_authority) {
        return Err(ErrorCode::Unauthorized);
    }
    match &distribution_account.merkle_root {
        Some(m) => {
            if m.num_nodes_claimed > 0 {
                return Err(ErrorCode::Unauthorized);
            }
        },
        None => {},
    }
    if current_epoch <= distribution_account.epoch_created_at {
        return Err(ErrorCode::PrematureMerkleRootUpload);
    }
    if current_epoch > distribution_account.expires_at {
        return Err(ErrorCode::ExpiredRewardDistributionAccount);
    }
    distribution_account.validate()?;
    distribution_account.merkle_root = Some(
        MerkleRoot { root, max_total_claim, max_num_nodes, total_funds_claimed: 0, num_nodes_claimed: 0 },
    );
    Ok(())
}

/// The error, if any, that a claim reports, over the same inputs and in
/// the same order of checks: expiry, the double-claim guard, a missing
/// root, the Merkle proof, the balance moves, and the root's budgets.
pub open spec fn spec_claim_error(
    acc: RewardDistributionAccount,
    status: ClaimStatus,
    claimant: Seq<u8>,
    current_epoch: u64,
    amount: u64,
    path: Seq<Seq<u8>>,
    distribution_lamports: u64,
    claimant_lamports: u64,
) -> Option<ErrorCode> {
    if current_epoch > acc.expires_at {
        Some(ErrorCode::ExpiredRewardDistributionAccount)
    } else if status.is_claimed {
        Some(ErrorCode::FundsAlreadyClaimed)
    } else {
        match acc.merkle_root {
            None => Some(ErrorCode::RootNotUploaded),
            Some(m) => {
                if m.root@ != root_digest(leaf_digest(claimant, amount), path) {
                    Some(ErrorCode::InvalidProof)
                } else if distribution_lamports < amount {
                    Some(ErrorCode::ArithmeticError)
                } else if claimant_lamports + amount > u64::MAX {
                    Some(ErrorCode::ArithmeticError)
                } else if m.total_funds_claimed + amount > u64::MAX {
                    Some(ErrorCode::ArithmeticError)
                } else if m.total_funds_claimed + amount > m.max_total_claim {
                    Some(ErrorCode::ExceedsMaxClaim)
                } else if m.num_nodes_claimed + 1 > u64::MAX {
                    Some(ErrorCode::ArithmeticError)
                } else if m.num_nodes_claimed + 1 > m.max_num_nodes {
                    Some(ErrorCode::ExceedsMaxNumNodes)
                } else if !acc.spec_valid() {
                    Some(ErrorCode::AccountValidationFailure)
                } else {
                    None
                }
            },
        }
    }
}

/// The root record after a successful claim: the running totals advanced
/// by the paid amount and by one node.
pub open spec fn spec_claimed_root(m: MerkleRoot, amount: u64) -> MerkleRoot {
    MerkleRoot {
        total_funds_claimed: (m.total_funds_claimed + amount) as u64,
        num_nodes_claimed: (m.num_nodes_claimed + 1) as u64,
        ..m
    }
}

/// Pays one staker's share against the uploaded Merkle root. The claim
/// must come within the account's claim window, against a fresh claim
/// record, with a proof that folds the claimant's leaf to the stored
/// root; the payout and both budget counters are committed together, or
/// nothing is.
pub fn claim(
    distribution_account: &mut RewardDistributionAccount,
    claim_status: &mut ClaimStatus,
    claimant: AccountKey,
    payer: AccountKey,
    current_epoch: u64,
    current_slot: u64,
    bump: u8,
    amount: u64,
    proof_path: Vec<[u8; 32]>,
    distribution_lamports: &mut u64,
    claimant_lamports: &mut u64,
) -> (r: Result<(), ErrorCode>)
    ensures
        match r {
            Ok(()) => spec_claim_error(
                *old(distribution_account),
                *old(claim_status),
                claimant@,
                current_epoch,
                amount,
                proof_path.deep_view(),
                *old(distribution_lamports),
                *old(claimant_lamports),
            ) is None,
            Err(e) => spec_claim_error(
                *old(distribution_account),
                *old(claim_status),
                claimant@,
                current_epoch,
                amount,
                proof_path.deep_view(),
                *old(distribution_lamports),
                *old(claimant_lamports),
            ) == Some(e),
        },
        r is Err ==> *final(distribution_account) == *old(distribution_account) && *final(claim_status) == *old(claim_status) && *final(distribution_lamports) == *old(distribution_lamports) && *final(claimant_lamports)
            == *old(claimant_lamports),
        r is Ok ==> (match old(distribution_account).merkle_root {
            Some(m) => *final(distribution_account) == (RewardDistributionAccount {
                merkle_root: Some(spec_claimed_root(m, amount)),
                ..*old(distribution_account)
            }) && (match final(distribution_account).merkle_root {
                Some(m2) => m2.spec_within_budget(),
                None => false,
            }),
            None => false,
        }),
        r is Ok ==> *final(claim_status) == (ClaimStatus {
            is_claimed: true,
            claimant,
            claim_status_payer: payer,
            slot_claimed_at: current_slot,
            amount,
            expires_at: old(distribution_account).expires_at,
            bump,
        }),
        r is Ok ==> *final(distribution_lamports) == *old(distribution_lamports) - amount && *final(claimant_lamports) == *old(claimant_lamports) + amount,
{
    if current_epoch > distribution_account.expires_at {
        return Err(ErrorCode::ExpiredRewardDistributionAccount);
    }
    if claim_status.is_claimed {
        return Err(ErrorCode::FundsAlreadyClaimed);
    }
    let m = match &distribution_account.merkle_root {
        Some(m) => *m,
        None => {
            return Err(ErrorCode::RootNotUploaded);
        },
    };
    let node = claim_leaf_node(&claimant, amount);
    if !verify(proof_path, m.root, node) {
        return Err(ErrorCode::InvalidProof);
    }
    // all-or-nothing: every balance move and counter step is checked
    // before anything commits
    let new_distribution_lamports = match distribution_lamports.checked_sub(amount) {
        Some(v) => v,
        None => {
            return Err(ErrorCode::ArithmeticError);
        },
    };
    let new_claimant_lamports = match claimant_lamports.checked_add(amount) {
        Some(v) => v,
        None => {
            return Err(ErrorCode::ArithmeticError);
        },
    };
    let new_total_funds_claimed = match m.total_funds_claimed.checked_add(amount) {
        Some(v) => v,
        None => {
            return Err(ErrorCode::ArithmeticError);
        },
    };
    if new_total_funds_claimed > m.max_total_claim {
        return Err(ErrorCode::ExceedsMaxClaim);
    }
    let new_num_nodes_claimed = match m.num_nodes_claimed.checked_add(1) {
        Some(v) => v,
        None => {
            return Err(ErrorCode::ArithmeticError);
        },
    };
    if new_num_nodes_claimed > m.max_num_nodes {
        return Err(ErrorCode::ExceedsMaxNumNodes);
    }
    distribution_account.validate()?;

    *distribution_lamports = new_distribution_lamports;
    *claimant_lamports = new_claimant_lamports;
    distribution_account.merkle_root = Some(
        MerkleRoot {
            root: m.root,
            max_total_claim: m.max_total_claim,
            max_num_nodes: m.max_num_nodes,
            total_funds_claimed: new_total_funds_claimed,
            num_nodes_claimed: new_num_nodes_claimed,
        },
    );
    *claim_status = ClaimStatus {
        is_claimed: true,
        claimant,
        claim_status_payer: payer,
        slot_claimed_at: current_slot,
        amount,
        expires_at: distribution_account.expires_at,
        bump,
    };
    Ok(())
}

/// Anti-replay: against a claim record that is already stamped, a claim
/// within the account's claim window is rejected with
/// `FundsAlreadyClaimed`, whatever the proof, the amount and the
/// balances. Together with `claim`'s postcondition that a successful
/// claim stamps the record, a second claim for the same
/// (claimant, distribution account) pair can never pay out twice.
pub proof fn lemma_second_claim_rejected(
    acc: RewardDistributionAccount,
    status: ClaimStatus,
    claimant: Seq<u8>,
    current_epoch: u64,
    amount: u64,
    path: Seq<Seq<u8>>,
    distribution_lamports: u64,
    claimant_lamports: u64,
)
    requires
        status.is_claimed,
        current_epoch <= acc.expires_at,
    ensures
        spec_claim_error(
            acc,
            status,
            claimant,
            current_epoch,
            amount,
            path,
            distribution_lamports,
            claimant_lamports,
        ) == Some(ErrorCode::FundsAlreadyClaimed),
{
}

/// Closes an expired claim record, refunding its whole balance (the rent)
/// to the payer recorded in it. Permissionless, but only once the record
/// has expired, and only to the recorded payer.
pub fn close_claim_status(
    claim_status: &ClaimStatus,
    claim_status_payer: AccountKey,
    current_epoch: u64,
    claim_status_lamports: &mut u64,
    payer_lamports: &mut u64,
) -> (r: Result<(), ErrorCode>)
    ensures
        claim_status_payer@ != claim_status.claim_status_payer@ ==> r == Err::<(), ErrorCode>(
            ErrorCode::Unauthorized,
        ),
        claim_status_payer@ == claim_status.claim_status_payer@ && current_epoch
            <= claim_status.expires_at ==> r == Err::<(), ErrorCode>(
            ErrorCode::PrematureCloseClaimStatus,
        ),
        claim_status_payer@ == claim_status.claim_status_payer@ && current_epoch
            > claim_status.expires_at && r is Err ==> r == Err::<(), ErrorCode>(
            ErrorCode::ArithmeticError,
        ),
        r is Ok <==> (claim_status_payer@ == claim_status.claim_status_payer@ && current_epoch
            > claim_status.expires_at && *old(payer_lamports) + *old(claim_status_lamports)
            <= u64::MAX),
        r is Err ==> *final(claim_status_lamports) == *old(claim_status_lamports) && *final(payer_lamports) == *old(payer_lamports),
        r is Ok ==> *final(claim_status_lamports) == 0 && *final(payer_lamports) == *old(payer_lamports) + *old(claim_status_lamports),
{
    if !(claim_status_payer == claim_status.claim_status_payer) {
        return Err(ErrorCode::Unauthorized);
    }
    if current_epoch <= claim_status.expires_at {
        return Err(ErrorCode::PrematureCloseClaimStatus);
    }
    let new_payer_lamports = match payer_lamports.checked_add(*claim_status_lamports) {
        Some(v) => v,
        None => {
            return Err(ErrorCode::ArithmeticError);
        },
    };
    *claim_status_lamports = 0;
    *payer_lamports = new_payer_lamports;
    Ok(())
}

/// Sends the unclaimed balance to the stored expired-funds account and
/// closes the distribution account, returning its rent to the validator
/// vote account. Permissionless, but the named expired-funds account must
/// be the stored one, and only once the account has expired.
pub fn close_reward_distribution_account(
    distribution_account: &RewardDistributionAccount,
    expired_funds_account: AccountKey,
    current_epoch: u64,
    min_rent_lamports: u64,
    distribution_lamports: &mut u64,
    expired_funds_lamports: &mut u64,
    validator_vote_lamports: &mut u64,
) -> (r: Result<u64, ErrorCode>)
    ensures
        distribution_account.expired_funds_account@ != expired_funds_account@ ==> r == Err::<u64, ErrorCode>(
            ErrorCode::Unauthorized,
        ),
        distribution_account.expired_funds_account@ == expired_funds_account@ && current_epoch <= distribution_account.expires_at ==> r
            == Err::<u64, ErrorCode>(ErrorCode::PrematureCloseRewardDistributionAccount),
        distribution_account.expired_funds_account@ == expired_funds_account@ && current_epoch
            > distribution_account.expires_at && r is Err ==> (if *old(distribution_lamports)
            < min_rent_lamports || *old(expired_funds_lamports) + (*old(distribution_lamports)
            - min_rent_lamports) > u64::MAX {
            r == Err::<u64, ErrorCode>(ErrorCode::ArithmeticError)
        } else if !distribution_account.spec_valid() {
            r == Err::<u64, ErrorCode>(ErrorCode::AccountValidationFailure)
        } else {
            r == Err::<u64, ErrorCode>(ErrorCode::ArithmeticError)
        }),
        r is Ok <==> (distribution_account.expired_funds_account@ == expired_funds_account@ && current_epoch
            > distribution_account.expires_at && *old(distribution_lamports) >= min_rent_lamports && *old(expired_funds_lamports) + (*old(distribution_lamports) - min_rent_lamports) <= u64::MAX && distribution_account.spec_valid()
            && *old(validator_vote_lamports) + min_rent_lamports <= u64::MAX),
        r matches Ok(expired_amount) ==> expired_amount == *old(distribution_lamports)
            - min_rent_lamports && *final(distribution_lamports) == 0 && *final(expired_funds_lamports)
            == *old(expired_funds_lamports) + expired_amount && *final(validator_vote_lamports)
            == *old(validator_vote_lamports) + min_rent_lamports,
        r is Err ==> *final(distribution_lamports) == *old(distribution_lamports) && *final(expired_funds_lamports) == *old(expired_funds_lamports) && *final(validator_vote_lamports) == *old(validator_vote_lamports),
{
    if !(distribution_account.expired_funds_account == expired_funds_account) {
        return Err(ErrorCode::Unauthorized);
    }
    if current_epoch <= distribution_account.expires_at {
        return Err(ErrorCode::PrematureCloseRewardDistributionAccount);
    }
    // all-or-nothing: the sweep, the validation and the rent return are
    // checked before anything commits
    let expired_amount = match distribution_lamports.checked_sub(min_rent_lamports) {
        Some(v) => v,
        None => {
            return Err(ErrorCode::ArithmeticError);
        },
    };
    let new_expired_funds_lamports = match expired_funds_lamports.checked_add(expired_amount) {
        Some(v) => v,
        None => {
            return Err(ErrorCode::ArithmeticError);
        },
    };
    distribution_account.validate()?;
    let new_vote_lamports = match validator_vote_lamports.checked_add(min_rent_lamports) {
        Some(v) => v,
        None => {
            return Err(ErrorCode::ArithmeticError);
        },
    };
    *distribution_lamports = 0;
    *expired_funds_lamports = new_expired_funds_lamports;
    *validator_vote_lamports = new_vote_lamports;
    Ok(expired_amount)
}

} // verus!
