//! Account state for the activation program.

use crate::approval::{ApprovalState, Party};
use crate::keys::{zero_key, AccountKey};
use crate::rakurai_activation::instructions::ErrorCode;
use vstd::prelude::*;

verus! {

/// The cap on every commission rate, in basis points (100%).
pub const MAX_COMMISSION_BPS: u16 = 10000;

/// Global configuration for the activation program; a singleton stored
/// at a fixed derived address.
#[derive(Clone, Copy, Debug, PartialEq)]
pub struct RakuraiActivationConfigAccount {
    /// Authorized updater of the config.
    pub authority: AccountKey,
    /// The block-builder authority, one of the two consenting parties.
    pub block_builder_authority: AccountKey,
    /// Commission charged by the block builder (basis points).
    pub block_builder_commission_bps: u16,
    /// Account the block-builder commission is sent to.
    pub block_builder_commission_account: AccountKey,
    /// Derived-address bump.
    pub bump: u8,
}

impl RakuraiActivationConfigAccount {
    /// The config's invariant: the commission account is set and the
    /// commission is at most 100%.
    pub open spec fn spec_valid(self) -> bool {
        &&& self.block_builder_commission_account@ != zero_key()
        &&& self.block_builder_commission_bps <= MAX_COMMISSION_BPS
    }

    /// Checks the config's invariant: an unset commission account fails
    /// validation, an overlarge commission is reported as such.
    pub fn validate(&self) -> (r: Result<(), ErrorCode>)
        ensures
            r is Ok <==> self.spec_valid(),
            self.block_builder_commission_account@ == zero_key() ==> r == Err::<(), ErrorCode>(
                ErrorCode::AccountValidationFailure,
            ),
            self.block_builder_commission_account@ != zero_key() && r is Err ==> r == Err::<
                (),
                ErrorCode,
            >(ErrorCode::MaxCommissionBpsExceeded),
    {
        if self.block_builder_commission_account.is_zero() {
            return Err(ErrorCode::AccountValidationFailure);
        }
        if self.block_builder_commission_bps > MAX_COMMISSION_BPS {
            return Err(ErrorCode::MaxCommissionBpsExceeded);
        }
        Ok(())
    }

    /// The fixed seed of the config's derived address
    /// (ASCII `ACTIVATION_CONFIG_ACCOUNT`).
    pub open spec fn spec_seed() -> Seq<u8> {
        seq![
            65u8, 67u8, 84u8, 73u8, 86u8, 65u8, 84u8, 73u8, 79u8, 78u8, 95u8, 67u8, 79u8, 78u8,
            70u8, 73u8, 71u8, 95u8, 65u8, 67u8, 67u8, 79u8, 85u8, 78u8, 84u8,
        ]
    }

    /// The seed bytes of the config's derived address.
    pub fn seed() -> (r: Vec<u8>)
        ensures
            r@ == Self::spec_seed(),
    {
        let r: Vec<u8> = vec![
            65u8, 67u8, 84u8, 73u8, 86u8, 65u8, 84u8, 73u8, 79u8, 78u8, 95u8, 67u8, 79u8, 78u8,
            70u8, 73u8, 71u8, 95u8, 65u8, 67u8, 67u8, 79u8, 85u8, 78u8, 84u8,
        ];
        proof {
            assert(r@ =~= Self::spec_seed());
        }
        r
    }
}

/// Per-validator activation account: the enablement flag, the pending
/// proposer, both commission rates, and the block builder's hash
/// commitment.
#[derive(Clone, Copy, Debug, PartialEq)]
pub struct RakuraiActivationAccount {
    /// Whether the activation is enabled.
    pub is_enabled: bool,
    /// Who proposed enabling, while a proposal is pending.
    pub proposer: Option<AccountKey>,
    /// The validator's signing authority.
    pub validator_authority: AccountKey,
    /// Validator commission (basis points).
    pub validator_commission_bps: u16,
    /// Block-builder commission (basis points).
    pub block_builder_commission_bps: u16,
    /// Derived-address bump.
    pub bump: u8,
    /// The block builder's opaque 64-byte commitment, while one is set.
    pub hash: Option<[u8; 64]>,
}

impl RakuraiActivationAccount {
    /// The stored validator authority is set.
    pub open spec fn spec_keys_valid(self) -> bool {
        self.validator_authority@ != zero_key()
    }

    /// The commission condition this program validates: it rejects only
    /// when both rates exceed the cap (and then their sum does too).
    pub open spec fn spec_commissions_valid(self) -> bool {
        !(self.block_builder_commission_bps > MAX_COMMISSION_BPS && self.validator_commission_bps
            > MAX_COMMISSION_BPS && self.validator_commission_bps
            + self.block_builder_commission_bps > MAX_COMMISSION_BPS)
    }

    /// The account's invariant.
    pub open spec fn spec_valid(self) -> bool {
        self.spec_keys_valid() && self.spec_commissions_valid()
    }

    /// Checks the account's invariant: an unset authority fails
    /// validation, the commission condition is reported as such.
    pub fn validate(&self) -> (r: Result<(), ErrorCode>)
        ensures
            r is Ok <==> self.spec_valid(),
            !self.spec_keys_valid() ==> r == Err::<(), ErrorCode>(
                ErrorCode::AccountValidationFailure,
            ),
            self.spec_keys_valid() && r is Err ==> r == Err::<(), ErrorCode>(
                ErrorCode::MaxCommissionBpsExceeded,
            ),
    {
        if self.validator_authority.is_zero() {
            return Err(ErrorCode::AccountValidationFailure);
        }
        if self.block_builder_commission_bps > MAX_COMMISSION_BPS
            && self.validator_commission_bps > MAX_COMMISSION_BPS && (
        self.validator_commission_bps as u32 + self.block_builder_commission_bps as u32) > (
        MAX_COMMISSION_BPS as u32) {
            return Err(ErrorCode::MaxCommissionBpsExceeded);
        }
        Ok(())
    }

    /// Which of the two parties a signer key stands for, given the
    /// config that names the block-builder authority.
    pub open spec fn spec_party_of(config: RakuraiActivationConfigAccount, signer: Seq<u8>) -> Party {
        if signer == config.block_builder_authority@ {
            Party::BlockBuilder
        } else {
            Party::Validator
        }
    }

    /// The abstract state of the approval protocol this account is in.
    pub open spec fn spec_approval_state(self, config: RakuraiActivationConfigAccount) -> ApprovalState {
        if self.is_enabled {
            ApprovalState::Enabled
        } else {
            match self.proposer {
                Some(p) => ApprovalState::Pending { by: Self::spec_party_of(config, p@) },
                None => ApprovalState::Disabled,
            }
        }
    }

    /// The pending proposer, when set, is one of the two authorities.
    pub open spec fn spec_proposer_wf(self, config: RakuraiActivationConfigAccount) -> bool {
        match self.proposer {
            Some(p) => p@ == self.validator_authority@ || p@ == config.block_builder_authority@,
            None => true,
        }
    }

    /// Sweeps everything above the rent-exempt minimum out of
    /// `from_lamports` into `to_lamports`, returning the swept amount.
    pub fn claim_expired(
        from_lamports: &mut u64,
        to_lamports: &mut u64,
        min_rent_lamports: u64,
    ) -> (r: Result<u64, ErrorCode>)
        ensures
            r is Ok <==> (*old(from_lamports) >= min_rent_lamports && *old(to_lamports) + (*old(from_lamports) - min_rent_lamports) <= u64::MAX),
            r matches Ok(amount) ==> amount == *old(from_lamports) - min_rent_lamports && *final(from_lamports) == min_rent_lamports && *final(to_lamports) == *old(to_lamports) + amount,
            r is Err ==> r == Err::<u64, ErrorCode>(ErrorCode::ArithmeticError) && *final(from_lamports) == *old(from_lamports) && *final(to_lamports) == *old(to_lamports),
    {
        let amount = match from_lamports.checked_sub(min_rent_lamports) {
            Some(amount) => amount,
            None => {
                return Err(ErrorCode::ArithmeticError);
            },
        };
        Self::transfer_lamports(from_lamports, to_lamports, amount)?;
        Ok(amount)
    }

    /// Debits `from_lamports` and credits `to_lamports` by `amount`, as
    /// one atomic step: on under- or overflow nothing moves.
    pub fn transfer_lamports(from_lamports: &mut u64, to_lamports: &mut u64, amount: u64) -> (r:
        Result<(), ErrorCode>)
        ensures
            r is Ok <==> (*old(from_lamports) >= amount && *old(to_lamports) + amount
                <= u64::MAX),
            r is Ok ==> *final(from_lamports) == *old(from_lamports) - amount && *final(to_lamports) == *old(to_lamports) + amount,
            r is Err ==> r == Err::<(), ErrorCode>(ErrorCode::ArithmeticError) && *final(from_lamports) == *old(from_lamports) && *final(to_lamports) == *old(to_lamports),
    {
        let debited = match from_lamports.checked_sub(amount) {
            Some(v) => v,
            None => {
                return Err(ErrorCode::ArithmeticError);
            },
        };
        let credited = match to_lamports.checked_add(amount) {
            Some(v) => v,
            None => {
                return Err(ErrorCode::ArithmeticError);
            },
        };
        *from_lamports = debited;
        *to_lamports = credited;
        Ok(())
    }

    /// The fixed seed of an activation account's derived address
    /// (ASCII `RAKURAI_ACTIVATION_ACCOUNT`).
    pub open spec fn spec_seed() -> Seq<u8> {
        seq![
            82u8, 65u8, 75u8, 85u8, 82u8, 65u8, 73u8, 95u8, 65u8, 67u8, 84u8, 73u8, 86u8, 65u8,
            84u8, 73u8, 79u8, 78u8, 95u8, 65u8, 67u8, 67u8, 79u8, 85u8, 78u8, 84u8,
        ]
    }

    /// The seed bytes of an activation account's derived address.
    pub fn seed() -> (r: Vec<u8>)
        ensures
            r@ == Self::spec_seed(),
    {
        let r: Vec<u8> = vec![
            82u8, 65u8, 75u8, 85u8, 82u8, 65u8, 73u8, 95u8, 65u8, 67u8, 84u8, 73u8, 86u8, 65u8,
            84u8, 73u8, 79u8, 78u8, 95u8, 65u8, 67u8, 67u8, 79u8, 85u8, 78u8, 84u8,
        ];
        proof {
            assert(r@ =~= Self::spec_seed());
        }
        r
    }
}

} // verus!
