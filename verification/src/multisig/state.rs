//! Account state for the multisig program.

use crate::approval::{ApprovalState, Party};
use crate::keys::{zero_key, AccountKey};
use crate::multisig::instructions::ErrorCode;
use vstd::prelude::*;

verus! {

/// The cap on every commission rate, in basis points (100%).
pub const MAX_COMMISSION_BPS: u16 = 10000;

/// Global configuration for the multisig program; a singleton stored at a
/// fixed derived address.
#[derive(Clone, Copy, Debug, PartialEq)]
pub struct Config {
    /// Authorized updater of the config.
    pub authority: AccountKey,
    /// The block-builder authority, one of the two consenting parties.
    pub block_builder_authority: AccountKey,
    /// Commission charged by the block builder (basis points).
    pub block_builder_commission_bps: u16,
    /// Account the block-builder commission is sent to.
    pub block_builder_commission_account: AccountKey,
    /// Derived-address bump.
    pub bump: u8,
}

impl Config {
    /// The config's invariant: the block-builder references are set and
    /// the commission is at most 100%.
    pub open spec fn spec_valid(self) -> bool {
        &&& self.block_builder_commission_account@ != zero_key()
        &&& self.block_builder_authority@ != zero_key()
        &&& self.block_builder_commission_bps <= MAX_COMMISSION_BPS
    }

    /// Checks the config's invariant.
    pub fn validate(&self) -> (r: Result<(), ErrorCode>)
        ensures
            r is Ok <==> self.spec_valid(),
            r is Err ==> r == Err::<(), ErrorCode>(ErrorCode::AccountValidationFailure),
    {
        if self.block_builder_commission_account.is_zero()
            || self.block_builder_authority.is_zero() {
            return Err(ErrorCode::AccountValidationFailure);
        }
        if self.block_builder_commission_bps > MAX_COMMISSION_BPS {
            return Err(ErrorCode::AccountValidationFailure);
        }
        Ok(())
    }

    /// The fixed seed of the config's derived address
    /// (ASCII `CONFIG_ACCOUNT`).
    pub open spec fn spec_seed() -> Seq<u8> {
        seq![67u8, 79u8, 78u8, 70u8, 73u8, 71u8, 95u8, 65u8, 67u8, 67u8, 79u8, 85u8, 78u8, 84u8]
    }

    /// The seed bytes of the config's derived address.
    pub fn seed() -> (r: Vec<u8>)
        ensures
            r@ == Self::spec_seed(),
    {
        let r: Vec<u8> = vec![
            67u8, 79u8, 78u8, 70u8, 73u8, 71u8, 95u8, 65u8, 67u8, 67u8, 79u8, 85u8, 78u8, 84u8,
        ];
        proof {
            assert(r@ =~= Self::spec_seed());
        }
        r
    }
}

/// Per-validator approval account: the enablement flag, the pending
/// proposer, and the commission bookkeeping of both parties.
#[derive(Clone, Copy, Debug, PartialEq)]
pub struct MultiSigAccount {
    /// Whether automated management is enabled.
    pub is_enabled: bool,
    /// Who proposed enabling, while a proposal is pending.
    pub proposer: Option<AccountKey>,
    /// The validator's signing authority.
    pub validator_authority: AccountKey,
    /// Validator commission (basis points).
    pub validator_commission_bps: u16,
    /// The validator's vote account.
    pub validator_vote_account: AccountKey,
    /// The block-builder authority, the other consenting party.
    pub block_builder_authority: AccountKey,
    /// Block-builder commission (basis points).
    pub block_builder_commission_bps: u16,
    /// Account the block-builder commission is sent to.
    pub block_builder_commission_account: AccountKey,
    /// Derived-address bump.
    pub bump: u8,
}

impl MultiSigAccount {
    /// The account's invariant: no stored address is the zero sentinel.
    pub open spec fn spec_valid(self) -> bool {
        &&& self.validator_vote_account@ != zero_key()
        &&& self.validator_authority@ != zero_key()
        &&& self.block_builder_commission_account@ != zero_key()
    }

    /// Checks that no stored address is the zero sentinel.
    pub fn validate(&self) -> (r: Result<(), ErrorCode>)
        ensures
            r is Ok <==> self.spec_valid(),
            r is Err ==> r == Err::<(), ErrorCode>(ErrorCode::AccountValidationFailure),
    {
        if self.validator_vote_account.is_zero() || self.validator_authority.is_zero()
            || self.block_builder_commission_account.is_zero() {
            return Err(ErrorCode::AccountValidationFailure);
        }
        Ok(())
    }

    /// Which of the two parties a signer key stands for: the block builder
    /// when it is the stored block-builder authority, the validator
    /// otherwise.
    pub open spec fn spec_party_of(self, signer: Seq<u8>) -> Party {
        if signer == self.block_builder_authority@ {
            Party::BlockBuilder
        } else {
            Party::Validator
        }
    }

    /// The abstract state of the approval protocol this account is in.
    pub open spec fn spec_approval_state(self) -> ApprovalState {
        if self.is_enabled {
            ApprovalState::Enabled
        } else {
            match self.proposer {
                Some(p) => ApprovalState::Pending { by: self.spec_party_of(p@) },
                None => ApprovalState::Disabled,
            }
        }
    }

    /// The pending proposer, when set, is one of the two authorities.
    pub open spec fn spec_proposer_wf(self) -> bool {
        match self.proposer {
            Some(p) => p@ == self.validator_authority@ || p@ == self.block_builder_authority@,
            None => true,
        }
    }

    /// Sweeps everything above the rent-exempt minimum out of
    /// `from_lamports` into `to_lamports`, returning the swept amount.
    pub fn claim_expired(
        from_lamports: &mut u64,
        to_lamports: &mut u64,
        min_rent_lamports: u64,
    ) -> (r: Result<u64, ErrorCode>)
        ensures
            r is Ok <==> (*old(from_lamports) >= min_rent_lamports && *old(to_lamports) + (*old(from_lamports) - min_rent_lamports) <= u64::MAX),
            r matches Ok(amount) ==> amount == *old(from_lamports) - min_rent_lamports && *final(from_lamports) == min_rent_lamports && *final(to_lamports) == *old(to_lamports) + amount,
            r is Err ==> r == Err::<u64, ErrorCode>(ErrorCode::ArithmeticError) && *final(from_lamports) == *old(from_lamports) && *final(to_lamports) == *old(to_lamports),
    {
        let amount = match from_lamports.checked_sub(min_rent_lamports) {
            Some(amount) => amount,
            None => {
                return Err(ErrorCode::ArithmeticError);
            },
        };
        Self::transfer_lamports(from_lamports, to_lamports, amount)?;
        Ok(amount)
    }

    /// Debits `from_lamports` and credits `to_lamports` by `amount`, as
    /// one atomic step: on under- or overflow nothing moves.
    pub fn transfer_lamports(from_lamports: &mut u64, to_lamports: &mut u64, amount: u64) -> (r:
        Result<(), ErrorCode>)
        ensures
            r is Ok <==> (*old(from_lamports) >= amount && *old(to_lamports) + amount
                <= u64::MAX),
            r is Ok ==> *final(from_lamports) == *old(from_lamports) - amount && *final(to_lamports) == *old(to_lamports) + amount,
            r is Err ==> r == Err::<(), ErrorCode>(ErrorCode::ArithmeticError) && *final(from_lamports) == *old(from_lamports) && *final(to_lamports) == *old(to_lamports),
    {
        let debited = match from_lamports.checked_sub(amount) {
            Some(v) => v,
            None => {
                return Err(ErrorCode::ArithmeticError);
            },
        };
        let credited = match to_lamports.checked_add(amount) {
            Some(v) => v,
            None => {
                return Err(ErrorCode::ArithmeticError);
            },
        };
        *from_lamports = debited;
        *to_lamports = credited;
        Ok(())
    }

    /// The fixed seed of a multisig account's derived address
    /// (ASCII `MULTISIG_ACCOUNT`).
    pub open spec fn spec_seed() -> Seq<u8> {
        seq![
            77u8, 85u8, 76u8, 84u8, 73u8, 83u8, 73u8, 71u8, 95u8, 65u8, 67u8, 67u8, 79u8, 85u8,
            78u8, 84u8,
        ]
    }

    /// The seed bytes of a multisig account's derived address.
    pub fn seed() -> (r: Vec<u8>)
        ensures
            r@ == Self::spec_seed(),
    {
        let r: Vec<u8> = vec![
            77u8, 85u8, 76u8, 84u8, 73u8, 83u8, 73u8, 71u8, 95u8, 65u8, 67u8, 67u8, 79u8, 85u8,
            78u8, 84u8,
        ];
        proof {
            assert(r@ =~= Self::spec_seed());
        }
        r
    }
}

} // verus!
