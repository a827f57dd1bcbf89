//! Caller-side companions for the multisig program: derived account
//! addresses and the plain argument records each instruction carries.

use crate::keys::AccountKey;
use crate::multisig::state::{Config, MultiSigAccount};
use crate::reward_distribution::sdk::pda_matches;
use crate::solana::{pda_derivation, try_find_pda};
use vstd::prelude::*;

verus! {

/// The derived address of the program's config account.
pub fn derive_config_account_address(multisig_program_id: &AccountKey) -> (r: Option<
    (AccountKey, u8),
>)
    ensures
        pda_matches(r, pda_derivation(seq![Config::spec_seed()], multisig_program_id@)),
{
    let mut seeds: Vec<Vec<u8>> = Vec::new();
    seeds.push(Config::seed());
    proof {
        assert(seeds.deep_view() =~~= seq![Config::spec_seed()]);
    }
    try_find_pda(&seeds, multisig_program_id)
}

/// The derived address of the multisig account keyed by a validator key.
pub fn derive_multisig_account_address(
    multisig_program_id: &AccountKey,
    vote_pubkey: &AccountKey,
) -> (r: Option<(AccountKey, u8)>)
    ensures
        pda_matches(
            r,
            pda_derivation(
                seq![MultiSigAccount::spec_seed(), vote_pubkey@],
                multisig_program_id@,
            ),
        ),
{
    let mut seeds: Vec<Vec<u8>> = Vec::new();
    seeds.push(MultiSigAccount::seed());
    seeds.push(vstd::slice::slice_to_vec(vote_pubkey.bytes.as_slice()));
    proof {
        assert(seeds.deep_view() =~~= seq![MultiSigAccount::spec_seed(), vote_pubkey@]);
    }
    try_find_pda(&seeds, multisig_program_id)
}

/// Arguments for initializing the config account.
pub struct InitializeArgs {
    pub authority: AccountKey,
    pub block_builder_authority: AccountKey,
    pub block_builder_commission_account: AccountKey,
    pub block_builder_commission_bps: u16,
    pub max_validator_commission_bps: u16,
    pub bump: u8,
}

/// Accounts referenced when initializing the config account.
pub struct InitializeAccounts {
    pub config: AccountKey,
    pub system_program: AccountKey,
    pub initializer: AccountKey,
}

/// Arguments for initializing a multisig account.
pub struct InitializeMultiSigAccountArgs {
    pub validator_commission_bps: u16,
    pub bump: u8,
}

/// Accounts referenced when initializing a multisig account.
pub struct InitializeMultiSigAccountAccounts {
    pub config: AccountKey,
    pub signer: AccountKey,
    pub system_program: AccountKey,
    pub multisig_account: AccountKey,
    pub validator_vote_account: AccountKey,
}

/// Arguments for replacing the config's policy.
pub struct UpdateConfigArgs {
    pub new_config: Config,
}

/// Accounts referenced when updating the config.
pub struct UpdateConfigAccounts {
    pub config: AccountKey,
    pub authority: AccountKey,
}

/// Arguments for closing a multisig account (none).
pub struct CloseMultiSigAccountArgs;

/// Accounts referenced when closing a multisig account.
pub struct CloseMultiSigAccounts {
    pub config: AccountKey,
    pub multisig_account: AccountKey,
    pub validator_vote_account: AccountKey,
    pub signer: AccountKey,
}

} // verus!
