//! Caller-side companions for the activation program: derived account
//! addresses and the plain argument records each instruction carries.

use crate::keys::AccountKey;
use crate::rakurai_activation::state::{RakuraiActivationAccount, RakuraiActivationConfigAccount};
use crate::reward_distribution::sdk::pda_matches;
use crate::solana::{pda_derivation, try_find_pda};
use vstd::prelude::*;

verus! {

/// The derived address of the program's config account.
pub fn derive_config_account_address(rakurai_activation_program_id: &AccountKey) -> (r: Option<
    (AccountKey, u8),
>)
    ensures
        pda_matches(
            r,
            pda_derivation(
                seq![RakuraiActivationConfigAccount::spec_seed()],
                rakurai_activation_program_id@,
            ),
        ),
{
    let mut seeds: Vec<Vec<u8>> = Vec::new();
    seeds.push(RakuraiActivationConfigAccount::seed());
    proof {
        assert(seeds.deep_view() =~~= seq![RakuraiActivationConfigAccount::spec_seed()]);
    }
    try_find_pda(&seeds, rakurai_activation_program_id)
}

/// The derived address of the activation account keyed by a validator's
/// identity key.
pub fn derive_activation_account_address(
    rakurai_activation_program_id: &AccountKey,
    identity_pubkey: &AccountKey,
) -> (r: Option<(AccountKey, u8)>)
    ensures
        pda_matches(
            r,
            pda_derivation(
                seq![RakuraiActivationAccount::spec_seed(), identity_pubkey@],
                rakurai_activation_program_id@,
            ),
        ),
{
    let mut seeds: Vec<Vec<u8>> = Vec::new();
    seeds.push(RakuraiActivationAccount::seed());
    seeds.push(vstd::slice::slice_to_vec(identity_pubkey.bytes.as_slice()));
    proof {
        assert(seeds.deep_view() =~~= seq![
            RakuraiActivationAccount::spec_seed(),
            identity_pubkey@,
        ]);
    }
    try_find_pda(&seeds, rakurai_activation_program_id)
}

/// Arguments for initializing the config account.
pub struct InitializeArgs {
    pub authority: AccountKey,
    pub block_builder_authority: AccountKey,
    pub block_builder_commission_account: AccountKey,
    pub block_builder_commission_bps: u16,
    pub bump: u8,
}

/// Accounts referenced when initializing the config account.
pub struct InitializeAccounts {
    pub config: AccountKey,
    pub system_program: AccountKey,
    pub initializer: AccountKey,
}

/// Arguments for replacing the config's policy.
pub struct UpdateConfigArgs {
    pub new_config: RakuraiActivationConfigAccount,
}

/// Accounts referenced when updating the config.
pub struct UpdateConfigAccounts {
    pub config: AccountKey,
    pub authority: AccountKey,
}

/// Arguments for initializing an activation account.
pub struct InitializeRakuraiActivationAccountArgs {
    pub validator_commission_bps: u16,
    pub bump: u8,
}

/// Accounts referenced when initializing an activation account.
pub struct InitializeRakuraiActivationAccountAccounts {
    pub config: AccountKey,
    pub signer: AccountKey,
    pub system_program: AccountKey,
    pub activation_account: AccountKey,
    pub validator_vote_account: AccountKey,
    pub validator_identity_account: AccountKey,
}

/// Arguments for one approval step.
pub struct UpdateRakuraiActivationApprovalArgs {
    pub grant_approval: bool,
    pub hash: Option<[u8; 64]>,
}

/// Accounts referenced for an approval step.
pub struct UpdateRakuraiActivationApprovalAccounts {
    pub config: AccountKey,
    pub activation_account: AccountKey,
    pub validator_identity_account: AccountKey,
    pub signer: AccountKey,
}

/// Arguments for a commission update.
pub struct UpdateRakuraiActivationCommissionArgs {
    pub commission_bps: u16,
}

/// Accounts referenced for a commission update.
pub struct UpdateRakuraiActivationCommissionAccounts {
    pub config: AccountKey,
    pub activation_account: AccountKey,
    pub validator_identity_account: AccountKey,
    pub signer: AccountKey,
}

/// Arguments for closing an activation account (none).
pub struct CloseRakuraiActivationAccountArgs;

/// Accounts referenced when closing an activation account.
pub struct CloseRakuraiActivationAccounts {
    pub config: AccountKey,
    pub activation_account: AccountKey,
    pub validator_identity_account: AccountKey,
    pub signer: AccountKey,
}

} // verus!
