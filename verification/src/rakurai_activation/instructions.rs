//! The activation program's operations, as pure state transitions.
//!
//! The approval protocol here is the two-party machine of
//! [`crate::approval`] with one extra obligation: whenever the block
//! builder's grant would set or enable the commitment (proposing or
//! accepting), a 64-byte hash must be supplied.

use crate::approval::{spec_approval_step, ApprovalState, Party};
use crate::keys::{vote_program_id, vote_program_key, AccountKey, VoteAccountRecord};
use crate::rakurai_activation::state::{
    RakuraiActivationAccount, RakuraiActivationConfigAccount, MAX_COMMISSION_BPS,
};
use vstd::prelude::*;

verus! {

/// The activation program's error codes.
#[derive(Clone, Copy, Debug, PartialEq, Eq, Structural)]
pub enum ErrorCode {
    /// Account failed validation.
    AccountValidationFailure,
    /// An arithmetic under- or overflow.
    ArithmeticError,
    /// A commission rate above 100%.
    MaxCommissionBpsExceeded,
    /// The block builder must supply a hash when enabling.
    MissingHashForEnable,
    /// The caller is not the required authority.
    Unauthorized,
}

/// Sets up the singleton config.
pub fn initialize(
    authority: AccountKey,
    block_builder_authority: AccountKey,
    block_builder_commission_account: AccountKey,
    block_builder_commission_bps: u16,
    bump: u8,
) -> (r: Result<RakuraiActivationConfigAccount, ErrorCode>)
    ensures
        r is Ok <==> (RakuraiActivationConfigAccount {
            authority,
            block_builder_authority,
            block_builder_commission_bps,
            block_builder_commission_account,
            bump,
        }).spec_valid(),
        r matches Ok(cfg) ==> cfg == (RakuraiActivationConfigAccount {
            authority,
            block_builder_authority,
            block_builder_commission_bps,
            block_builder_commission_account,
            bump,
        }),
        block_builder_commission_account@ == crate::keys::zero_key() ==> r == Err::<
            RakuraiActivationConfigAccount,
            ErrorCode,
        >(ErrorCode::AccountValidationFailure),
        block_builder_commission_account@ != crate::keys::zero_key() && r is Err ==> r == Err::<
            RakuraiActivationConfigAccount,
            ErrorCode,
        >(ErrorCode::MaxCommissionBpsExceeded),
{
    let cfg = RakuraiActivationConfigAccount {
        authority,
        block_builder_authority,
        block_builder_commission_bps,
        block_builder_commission_account,
        bump,
    };
    cfg.validate()?;
    Ok(cfg)
}

/// Replaces the config's policy fields. Only the stored authority may do
/// so, and only with a valid new policy; the stored bump is kept.
pub fn update_config(
    config: &mut RakuraiActivationConfigAccount,
    authority: AccountKey,
    new_config: RakuraiActivationConfigAccount,
) -> (r: Result<(), ErrorCode>)
    ensures
        r is Ok <==> (old(config).authority@ == authority@ && (RakuraiActivationConfigAccount {
            bump: old(config).bump,
            ..new_config
        }).spec_valid()),
        old(config).authority@ != authority@ ==> r == Err::<(), ErrorCode>(ErrorCode::Unauthorized),
        old(config).authority@ == authority@ && r is Err ==> (if
        new_config.block_builder_commission_account@ == crate::keys::zero_key() {
            r == Err::<(), ErrorCode>(ErrorCode::AccountValidationFailure)
        } else {
            r == Err::<(), ErrorCode>(ErrorCode::MaxCommissionBpsExceeded)
        }),
        r is Err ==> *final(config) == *old(config),
        r is Ok ==> *final(config) == (RakuraiActivationConfigAccount {
            bump: old(config).bump,
            ..new_config
        }),
{
    if !(config.authority == authority) {
        return Err(ErrorCode::Unauthorized);
    }
    let updated = RakuraiActivationConfigAccount {
        authority: new_config.authority,
        block_builder_authority: new_config.block_builder_authority,
        block_builder_commission_bps: new_config.block_builder_commission_bps,
        block_builder_commission_account: new_config.block_builder_commission_account,
        bump: config.bump,
    };
    updated.validate()?;
    *config = updated;
    Ok(())
}

/// The outcome of initializing an activation account, over the same
/// inputs.
pub open spec fn spec_initialize_activation(
    config: RakuraiActivationConfigAccount,
    vote_account: VoteAccountRecord,
    signer: AccountKey,
    validator_commission_bps: u16,
    bump: u8,
) -> Result<RakuraiActivationAccount, ErrorCode> {
    if vote_account.owner@ != vote_program_key() {
        Err(ErrorCode::Unauthorized)
    } else if vote_account.node_pubkey@ != signer@ {
        Err(ErrorCode::Unauthorized)
    } else {
        let acc = RakuraiActivationAccount {
            is_enabled: false,
            proposer: Some(signer),
            validator_authority: signer,
            validator_commission_bps,
            block_builder_commission_bps: config.block_builder_commission_bps,
            bump,
            hash: None,
        };
        if !acc.spec_keys_valid() {
            Err(ErrorCode::AccountValidationFailure)
        } else if !acc.spec_commissions_valid() {
            Err(ErrorCode::MaxCommissionBpsExceeded)
        } else {
            Ok(acc)
        }
    }
}

/// Creates the per-validator activation account, disabled, without a
/// hash, and with the creating validator recorded as pending proposer.
/// The caller must be the node identity named by a vote account owned by
/// the vote program.
pub fn initialize_rakurai_activation_account(
    config: &RakuraiActivationConfigAccount,
    vote_account: &VoteAccountRecord,
    signer: AccountKey,
    validator_commission_bps: u16,
    bump: u8,
) -> (r: Result<RakuraiActivationAccount, ErrorCode>)
    ensures
        r == spec_initialize_activation(
            *config,
            *vote_account,
            signer,
            validator_commission_bps,
            bump,
        ),
        r matches Ok(acc) ==> acc.spec_proposer_wf(*config) && (acc.validator_authority@
            != config.block_builder_authority@ ==> acc.spec_approval_state(*config)
            == (ApprovalState::Pending { by: Party::Validator })),
{
    if !(vote_account.owner == vote_program_id()) {
        return Err(ErrorCode::Unauthorized);
    }
    if !(vote_account.node_pubkey == signer) {
        return Err(ErrorCode::Unauthorized);
    }
    let acc = RakuraiActivationAccount {
        is_enabled: false,
        proposer: Some(signer),
        validator_authority: signer,
        validator_commission_bps,
        block_builder_commission_bps: config.block_builder_commission_bps,
        bump,
        hash: None,
    };
    acc.validate()?;
    Ok(acc)
}

/// One approval step on the stored fields. Revoking disables and clears
/// both the pending proposer and the hash. Granting proposes, re-affirms
/// or accepts; a block-builder grant that proposes or accepts must carry
/// a hash, and stores it; a block-builder grant while enabled replaces
/// the hash alone.
pub open spec fn spec_approval_transition(
    acc: RakuraiActivationAccount,
    config: RakuraiActivationConfigAccount,
    signer: AccountKey,
    grant_approval: bool,
    hash: Option<[u8; 64]>,
) -> Result<RakuraiActivationAccount, ErrorCode> {
    let is_block_builder = signer@ == config.block_builder_authority@;
    if !grant_approval {
        Ok(RakuraiActivationAccount { is_enabled: false, hash: None, proposer: None, ..acc })
    } else if acc.is_enabled && is_block_builder {
        Ok(RakuraiActivationAccount { hash, ..acc })
    } else if !acc.is_enabled {
        match acc.proposer {
            None => {
                if is_block_builder && hash is None {
                    Err(ErrorCode::MissingHashForEnable)
                } else if is_block_builder {
                    Ok(RakuraiActivationAccount { hash, proposer: Some(signer), ..acc })
                } else {
                    Ok(RakuraiActivationAccount { proposer: Some(signer), ..acc })
                }
            },
            Some(p) => {
                if p@ == signer@ {
                    Ok(acc)
                } else if is_block_builder && hash is None {
                    Err(ErrorCode::MissingHashForEnable)
                } else if is_block_builder {
                    Ok(
                        RakuraiActivationAccount {
                            hash,
                            proposer: None,
                            is_enabled: true,
                            ..acc
                        },
                    )
                } else {
                    Ok(RakuraiActivationAccount { proposer: None, is_enabled: true, ..acc })
                }
            },
        }
    } else {
        Ok(acc)
    }
}

/// The stored-field transition refines the abstract protocol: viewed
/// through `spec_approval_state`, every accepted approval step moves the
/// account exactly as `spec_approval_step` moves the abstract state,
/// whenever the two authorities are distinct, the signer is one of them,
/// and any pending proposer is one of them.
pub proof fn lemma_approval_refines_protocol(
    acc: RakuraiActivationAccount,
    config: RakuraiActivationConfigAccount,
    signer: AccountKey,
    grant_approval: bool,
    hash: Option<[u8; 64]>,
)
    requires
        acc.validator_authority@ != config.block_builder_authority@,
        signer@ == acc.validator_authority@ || signer@ == config.block_builder_authority@,
        acc.spec_proposer_wf(config),
    ensures
        match spec_approval_transition(acc, config, signer, grant_approval, hash) {
            Ok(next) => next.spec_approval_state(config) == spec_approval_step(
                acc.spec_approval_state(config),
                RakuraiActivationAccount::spec_party_of(config, signer@),
                grant_approval,
            ),
            Err(e) => e == ErrorCode::MissingHashForEnable,
        },
{
}

/// One step of the approval protocol by either authority: grant to
/// propose, accept, or (for the block builder, while enabled) replace the
/// hash; revoke to disable immediately.
pub fn update_rakurai_activation_approval(
    config: &RakuraiActivationConfigAccount,
    activation_account: &mut RakuraiActivationAccount,
    signer: AccountKey,
    grant_approval: bool,
    hash: Option<[u8; 64]>,
) -> (r: Result<(), ErrorCode>)
    ensures
        signer@ != old(activation_account).validator_authority@ && signer@
            != config.block_builder_authority@ ==> r == Err::<(), ErrorCode>(
            ErrorCode::Unauthorized,
        ),
        r is Err ==> *final(activation_account) == *old(activation_account),
        (signer@ == old(activation_account).validator_authority@ || signer@
            == config.block_builder_authority@) ==> (match spec_approval_transition(
            *old(activation_account),
            *config,
            signer,
            grant_approval,
            hash,
        ) {
            Err(e) => r == Err::<(), ErrorCode>(e),
            Ok(next) => {
                if !old(activation_account).spec_keys_valid() {
                    r == Err::<(), ErrorCode>(ErrorCode::AccountValidationFailure)
                } else if !old(activation_account).spec_commissions_valid() {
                    r == Err::<(), ErrorCode>(ErrorCode::MaxCommissionBpsExceeded)
                } else {
                    r is Ok && *final(activation_account) == next
                }
            },
        }),
{
    if !(signer == activation_account.validator_authority) && !(signer
        == config.block_builder_authority) {
        return Err(ErrorCode::Unauthorized);
    }
    let is_block_builder = signer == config.block_builder_authority;
    // compute the step's outcome first; nothing commits before validation
    let mut next_is_enabled = activation_account.is_enabled;
    let mut next_proposer = activation_account.proposer;
    let mut next_hash = activation_account.hash;
    if !grant_approval {
        next_is_enabled = false;
        next_hash = None;
        next_proposer = None;
    } else if activation_account.is_enabled {
        if is_block_builder {
            next_hash = hash;
        }
    } else {
        match &activation_account.proposer {
            None => {
                if is_block_builder {
                    if hash.is_none() {
                        return Err(ErrorCode::MissingHashForEnable);
                    }
                    next_hash = hash;
                }
                next_proposer = Some(signer);
            },
            Some(p) => {
                if *p == signer {
                    // re-affirming one's own pending proposal changes nothing
                } else {
                    if is_block_builder && hash.is_none() {
                        return Err(ErrorCode::MissingHashForEnable);
                    }
                    if is_block_builder {
                        next_hash = hash;
                    }
                    next_proposer = None;
                    next_is_enabled = true;
                }
            },
        }
    }
    activation_account.validate()?;
    activation_account.is_enabled = next_is_enabled;
    activation_account.proposer = next_proposer;
    activation_account.hash = next_hash;
    Ok(())
}

/// Updates commission bookkeeping: a validator caller sets its own rate
/// (bounds-checked); a block-builder caller re-syncs the block-builder
/// rate from the live config rather than writing an arbitrary value.
pub fn update_rakurai_activation_commission(
    config: &RakuraiActivationConfigAccount,
    activation_account: &mut RakuraiActivationAccount,
    signer: AccountKey,
    commission_bps: u16,
) -> (r: Result<(), ErrorCode>)
    ensures
        signer@ != old(activation_account).validator_authority@ && signer@
            != config.block_builder_authority@ ==> r == Err::<(), ErrorCode>(
            ErrorCode::Unauthorized,
        ),
        r is Err ==> *final(activation_account) == *old(activation_account),
        (signer@ == old(activation_account).validator_authority@ || signer@
            == config.block_builder_authority@) && commission_bps > MAX_COMMISSION_BPS ==> r
            == Err::<(), ErrorCode>(ErrorCode::MaxCommissionBpsExceeded),
        r is Ok <==> ((signer@ == old(activation_account).validator_authority@ || signer@
            == config.block_builder_authority@) && commission_bps <= MAX_COMMISSION_BPS),
        r is Ok && signer@ == old(activation_account).validator_authority@ ==> *final(activation_account) == (RakuraiActivationAccount {
            validator_commission_bps: commission_bps,
            ..*old(activation_account)
        }),
        r is Ok && signer@ != old(activation_account).validator_authority@ ==> *final(activation_account) == (RakuraiActivationAccount {
            block_builder_commission_bps: config.block_builder_commission_bps,
            ..*old(activation_account)
        }),
{
    if !(signer == activation_account.validator_authority) && !(signer
        == config.block_builder_authority) {
        return Err(ErrorCode::Unauthorized);
    }
    if commission_bps > MAX_COMMISSION_BPS {
        return Err(ErrorCode::MaxCommissionBpsExceeded);
    }
    if signer == activation_account.validator_authority {
        activation_account.validator_commission_bps = commission_bps;
    } else {
        activation_account.block_builder_commission_bps = config.block_builder_commission_bps;
    }
    Ok(())
}

/// Closes the activation account: only the config's block-builder
/// authority may do so. The balance above the rent-exempt minimum is
/// swept to the validator's identity account, which then also receives
/// the rent as the account's storage is released; the swept amount is
/// returned.
pub fn close_rakurai_activation_account(
    config: &RakuraiActivationConfigAccount,
    signer: AccountKey,
    min_rent_lamports: u64,
    account_lamports: &mut u64,
    validator_identity_lamports: &mut u64,
) -> (r: Result<u64, ErrorCode>)
    ensures
        signer@ != config.block_builder_authority@ ==> r == Err::<u64, ErrorCode>(
            ErrorCode::Unauthorized,
        ),
        signer@ == config.block_builder_authority@ && r is Err ==> r == Err::<u64, ErrorCode>(
            ErrorCode::ArithmeticError,
        ),
        r is Ok <==> (signer@ == config.block_builder_authority@ && *old(account_lamports)
            >= min_rent_lamports && *old(validator_identity_lamports) + *old(account_lamports)
            <= u64::MAX),
        r matches Ok(amount) ==> amount == *old(account_lamports) - min_rent_lamports && *final(account_lamports) == 0 && *final(validator_identity_lamports) == *old(validator_identity_lamports) + *old(account_lamports),
        r is Err ==> *final(account_lamports) == *old(account_lamports) && *final(validator_identity_lamports) == *old(validator_identity_lamports),
{
    if !(signer == config.block_builder_authority) {
        return Err(ErrorCode::Unauthorized);
    }
    let amount = match account_lamports.checked_sub(min_rent_lamports) {
        Some(v) => v,
        None => {
            return Err(ErrorCode::ArithmeticError);
        },
    };
    let new_identity_lamports = match validator_identity_lamports.checked_add(*account_lamports) {
        Some(v) => v,
        None => {
            return Err(ErrorCode::ArithmeticError);
        },
    };
    *account_lamports = 0;
    *validator_identity_lamports = new_identity_lamports;
    Ok(amount)
}

} // verus!
