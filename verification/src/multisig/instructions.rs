//! The multisig program's operations, as pure state transitions.
//!
//! The approval protocol here is the two-party machine of
//! [`crate::approval`], without a hash commitment: either authority may
//! propose, the other accepts, and either may revoke at any time.

use crate::approval::{spec_approval_step, ApprovalState, Party};
use crate::keys::{vote_program_id, vote_program_key, AccountKey, VoteAccountRecord};
use crate::multisig::state::{Config, MultiSigAccount, MAX_COMMISSION_BPS};
use vstd::prelude::*;

verus! {

/// The multisig program's error codes.
#[derive(Clone, Copy, Debug, PartialEq, Eq, Structural)]
pub enum ErrorCode {
    /// Account failed validation.
    AccountValidationFailure,
    /// An arithmetic under- or overflow.
    ArithmeticError,
    /// A commission rate above 100%.
    MaxCommissionBpsExceeded,
    /// The caller is not the required authority.
    Unauthorized,
}

/// Sets up the singleton config.
pub fn initialize(
    authority: AccountKey,
    block_builder_authority: AccountKey,
    block_builder_commission_account: AccountKey,
    block_builder_commission_bps: u16,
    bump: u8,
) -> (r: Result<Config, ErrorCode>)
    ensures
        r matches Ok(cfg) ==> cfg == (Config {
            authority,
            block_builder_authority,
            block_builder_commission_bps,
            block_builder_commission_account,
            bump,
        }) && cfg.spec_valid(),
        r is Err ==> r == Err::<Config, ErrorCode>(ErrorCode::AccountValidationFailure) && !(
        Config {
            authority,
            block_builder_authority,
            block_builder_commission_bps,
            block_builder_commission_account,
            bump,
        }).spec_valid(),
{
    let cfg = Config {
        authority,
        block_builder_authority,
        block_builder_commission_bps,
        block_builder_commission_account,
        bump,
    };
    cfg.validate()?;
    Ok(cfg)
}

/// Replaces the config's policy fields. Only the stored authority may do
/// so, and only with a valid new policy; the stored bump is kept.
pub fn update_config(config: &mut Config, authority: AccountKey, new_config: Config) -> (r:
    Result<(), ErrorCode>)
    ensures
        r is Ok <==> (old(config).authority@ == authority@ && (Config {
            bump: old(config).bump,
            ..new_config
        }).spec_valid()),
        old(config).authority@ != authority@ ==> r == Err::<(), ErrorCode>(ErrorCode::Unauthorized),
        r is Err && old(config).authority@ == authority@ ==> r == Err::<(), ErrorCode>(
            ErrorCode::AccountValidationFailure,
        ),
        r is Err ==> *final(config) == *old(config),
        r is Ok ==> *final(config) == (Config { bump: old(config).bump, ..new_config }),
{
    if !(config.authority == authority) {
        return Err(ErrorCode::Unauthorized);
    }
    let updated = Config {
        authority: new_config.authority,
        block_builder_authority: new_config.block_builder_authority,
        block_builder_commission_bps: new_config.block_builder_commission_bps,
        block_builder_commission_account: new_config.block_builder_commission_account,
        bump: config.bump,
    };
    updated.validate()?;
    *config = updated;
    Ok(())
}

/// The outcome of initializing a multisig account, over the same inputs.
pub open spec fn spec_initialize_multisig(
    config: Config,
    vote_account: VoteAccountRecord,
    signer: AccountKey,
    validator_commission_bps: u16,
    bump: u8,
) -> Result<MultiSigAccount, ErrorCode> {
    if vote_account.owner@ != vote_program_key() {
        Err(ErrorCode::Unauthorized)
    } else if vote_account.node_pubkey@ != signer@ {
        Err(ErrorCode::Unauthorized)
    } else {
        let acc = MultiSigAccount {
            is_enabled: false,
            proposer: Some(signer),
            validator_authority: signer,
            validator_commission_bps,
            validator_vote_account: vote_account.address,
            block_builder_authority: config.block_builder_authority,
            block_builder_commission_bps: config.block_builder_commission_bps,
            block_builder_commission_account: config.block_builder_commission_account,
            bump,
        };
        if !acc.spec_valid() {
            Err(ErrorCode::AccountValidationFailure)
        } else {
            Ok(acc)
        }
    }
}

/// Creates the per-validator multisig account, disabled and with the
/// creating validator recorded as pending proposer. The caller must be
/// the node identity named by a vote account owned by the vote program.
pub fn initialize_multi_sig_account(
    config: &Config,
    vote_account: &VoteAccountRecord,
    signer: AccountKey,
    validator_commission_bps: u16,
    bump: u8,
) -> (r: Result<MultiSigAccount, ErrorCode>)
    ensures
        r == spec_initialize_multisig(*config, *vote_account, signer, validator_commission_bps, bump),
        r matches Ok(acc) ==> acc.spec_proposer_wf() && (acc.validator_authority@
            != acc.block_builder_authority@ ==> acc.spec_approval_state()
            == (ApprovalState::Pending { by: Party::Validator })),
{
    if !(vote_account.owner == vote_program_id()) {
        return Err(ErrorCode::Unauthorized);
    }
    if !(vote_account.node_pubkey == signer) {
        return Err(ErrorCode::Unauthorized);
    }
    let acc = MultiSigAccount {
        is_enabled: false,
        proposer: Some(signer),
        validator_authority: signer,
        validator_commission_bps,
        validator_vote_account: vote_account.address,
        block_builder_authority: config.block_builder_authority,
        block_builder_commission_bps: config.block_builder_commission_bps,
        block_builder_commission_account: config.block_builder_commission_account,
        bump,
    };
    acc.validate()?;
    Ok(acc)
}

/// One approval step on the stored fields: revoking disables and clears
/// the pending proposer; granting proposes, re-affirms, or accepts,
/// depending on the state.
pub open spec fn spec_approval_transition(
    acc: MultiSigAccount,
    signer: AccountKey,
    grant_approval: bool,
) -> MultiSigAccount {
    if !grant_approval {
        MultiSigAccount { is_enabled: false, proposer: None, ..acc }
    } else if acc.is_enabled {
        acc
    } else {
        match acc.proposer {
            None => MultiSigAccount { proposer: Some(signer), ..acc },
            Some(p) => {
                if p@ == signer@ {
                    MultiSigAccount { proposer: Some(signer), ..acc }
                } else {
                    MultiSigAccount { is_enabled: true, proposer: None, ..acc }
                }
            },
        }
    }
}

/// The stored-field transition refines the abstract protocol: viewed
/// through `spec_approval_state`, one approval step moves the account
/// exactly as `spec_approval_step` moves the abstract state, whenever the
/// two authorities are distinct, the signer is one of them, and any
/// pending proposer is one of them.
pub proof fn lemma_approval_refines_protocol(
    acc: MultiSigAccount,
    signer: AccountKey,
    grant_approval: bool,
)
    requires
        acc.validator_authority@ != acc.block_builder_authority@,
        signer@ == acc.validator_authority@ || signer@ == acc.block_builder_authority@,
        acc.spec_proposer_wf(),
    ensures
        spec_approval_transition(acc, signer, grant_approval).spec_approval_state()
            == spec_approval_step(
            acc.spec_approval_state(),
            acc.spec_party_of(signer@),
            grant_approval,
        ),
{
}

/// One step of the approval protocol by either authority: grant to
/// propose or accept, revoke to disable immediately.
pub fn update_multi_sig_approval(
    multisig_account: &mut MultiSigAccount,
    signer: AccountKey,
    grant_approval: bool,
) -> (r: Result<(), ErrorCode>)
    ensures
        r is Ok <==> ((signer@ == old(multisig_account).validator_authority@ || signer@ == old(multisig_account).block_builder_authority@) && spec_approval_transition(
            *old(multisig_account),
            signer,
            grant_approval,
        ).spec_valid()),
        r is Err ==> *final(multisig_account) == *old(multisig_account),
        signer@ != old(multisig_account).validator_authority@ && signer@ != old(multisig_account).block_builder_authority@ ==> r == Err::<(), ErrorCode>(ErrorCode::Unauthorized),
        r is Err && (signer@ == old(multisig_account).validator_authority@ || signer@ == old(multisig_account).block_builder_authority@) ==> r == Err::<(), ErrorCode>(
            ErrorCode::AccountValidationFailure,
        ),
        r is Ok ==> *final(multisig_account) == spec_approval_transition(
            *old(multisig_account),
            signer,
            grant_approval,
        ),
        r is Ok && old(multisig_account).spec_proposer_wf() ==> final(multisig_account).spec_proposer_wf(),
{
    if !(signer == multisig_account.validator_authority) && !(signer
        == multisig_account.block_builder_authority) {
        return Err(ErrorCode::Unauthorized);
    }
    multisig_account.validate()?;
    if !grant_approval {
        multisig_account.is_enabled = false;
        multisig_account.proposer = None;
        return Ok(());
    }
    if multisig_account.is_enabled {
        return Ok(());
    }
    let accept = match &multisig_account.proposer {
        None => false,
        Some(p) => !(*p == signer),
    };
    if accept {
        multisig_account.proposer = None;
        multisig_account.is_enabled = true;
    } else {
        multisig_account.proposer = Some(signer);
    }
    Ok(())
}

/// Updates commission bookkeeping: a validator caller sets its own rate
/// (bounds-checked); a block-builder caller re-syncs the block-builder
/// rate and commission account from the live config.
pub fn update_multi_sig_commission(
    config: &Config,
    multisig_account: &mut MultiSigAccount,
    signer: AccountKey,
    validator_commission_bps: Option<u16>,
) -> (r: Result<(), ErrorCode>)
    ensures
        signer@ != old(multisig_account).validator_authority@ && signer@ != old(multisig_account).block_builder_authority@ ==> r == Err::<(), ErrorCode>(ErrorCode::Unauthorized)
            && *final(multisig_account) == *old(multisig_account),
        signer@ == old(multisig_account).validator_authority@ ==> (match validator_commission_bps {
            Some(bps) => {
                if bps > MAX_COMMISSION_BPS {
                    r == Err::<(), ErrorCode>(ErrorCode::MaxCommissionBpsExceeded) && *final(multisig_account) == *old(multisig_account)
                } else {
                    r is Ok && *final(multisig_account) == (MultiSigAccount {
                        validator_commission_bps: bps,
                        ..*old(multisig_account)
                    })
                }
            },
            None => r is Ok && *final(multisig_account) == *old(multisig_account),
        }),
        signer@ != old(multisig_account).validator_authority@ && signer@ == old(multisig_account).block_builder_authority@ ==> r is Ok && *final(multisig_account) == (MultiSigAccount {
            block_builder_commission_bps: config.block_builder_commission_bps,
            block_builder_commission_account: config.block_builder_commission_account,
            ..*old(multisig_account)
        }),
{
    if !(signer == multisig_account.validator_authority) && !(signer
        == multisig_account.block_builder_authority) {
        return Err(ErrorCode::Unauthorized);
    }
    if signer == multisig_account.validator_authority {
        match validator_commission_bps {
            Some(bps) => {
                if bps > MAX_COMMISSION_BPS {
                    return Err(ErrorCode::MaxCommissionBpsExceeded);
                }
                multisig_account.validator_commission_bps = bps;
            },
            None => {},
        }
    } else {
        multisig_account.block_builder_commission_bps = config.block_builder_commission_bps;
        multisig_account.block_builder_commission_account =
            config.block_builder_commission_account;
    }
    Ok(())
}

/// Closes the multisig account: only the stored block-builder authority
/// may do so. The balance above the rent-exempt minimum is swept to the
/// validator's identity account, which then also receives the rent as the
/// account's storage is released; the swept amount is returned.
pub fn close_multi_sig_account(
    multisig_account: &MultiSigAccount,
    signer: AccountKey,
    min_rent_lamports: u64,
    account_lamports: &mut u64,
    validator_identity_lamports: &mut u64,
) -> (r: Result<u64, ErrorCode>)
    ensures
        signer@ != multisig_account.block_builder_authority@ ==> r == Err::<u64, ErrorCode>(
            ErrorCode::Unauthorized,
        ),
        signer@ == multisig_account.block_builder_authority@ && r is Err ==> r == Err::<
            u64,
            ErrorCode,
        >(ErrorCode::ArithmeticError),
        r is Ok <==> (signer@ == multisig_account.block_builder_authority@ && *old(account_lamports) >= min_rent_lamports && *old(validator_identity_lamports) + *old(account_lamports)
            <= u64::MAX),
        r matches Ok(amount) ==> amount == *old(account_lamports) - min_rent_lamports && *final(account_lamports) == 0 && *final(validator_identity_lamports) == *old(validator_identity_lamports) + *old(account_lamports),
        r is Err ==> *final(account_lamports) == *old(account_lamports) && *final(validator_identity_lamports) == *old(validator_identity_lamports),
{
    if !(signer == multisig_account.block_builder_authority) {
        return Err(ErrorCode::Unauthorized);
    }
    let amount = match account_lamports.checked_sub(min_rent_lamports) {
        Some(v) => v,
        None => {
            return Err(ErrorCode::ArithmeticError);
        },
    };
    let new_identity_lamports = match validator_identity_lamports.checked_add(*account_lamports) {
        Some(v) => v,
        None => {
            return Err(ErrorCode::ArithmeticError);
        },
    };
    *account_lamports = 0;
    *validator_identity_lamports = new_identity_lamports;
    Ok(amount)
}

} // verus!
