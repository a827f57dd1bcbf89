//! Account state for the reward distribution program.

use crate::keys::{zero_key, AccountKey};
use crate::reward_distribution::instructions::ErrorCode;
use vstd::prelude::*;

verus! {

/// The cap on every commission rate, in basis points (100%).
pub const MAX_COMMISSION_BPS: u16 = 10000;

/// The cap on the config's validity-period length, in epochs.
pub const MAX_NUM_EPOCHS_VALID: u64 = 10;

/// Global configuration for the reward distribution program; a singleton
/// stored at a fixed derived address.
#[derive(Clone, Copy, Debug, PartialEq)]
pub struct RewardDistributionConfigAccount {
    /// Authorized updater of the config.
    pub authority: AccountKey,
    /// Number of epochs a collection account stays claimable.
    pub num_epochs_valid: u64,
    /// Max allowed commission (basis points).
    pub max_commission_bps: u16,
    /// Derived-address bump.
    pub bump: u8,
}

impl RewardDistributionConfigAccount {
    /// The config's invariant: a validity period between one epoch and the
    /// cap, and a commission ceiling of at most 100%.
    pub open spec fn spec_valid(self) -> bool {
        &&& 1 <= self.num_epochs_valid <= MAX_NUM_EPOCHS_VALID
        &&& self.max_commission_bps <= MAX_COMMISSION_BPS
    }

    /// Checks the config's invariant.
    pub fn validate(&self) -> (r: Result<(), ErrorCode>)
        ensures
            r is Ok <==> self.spec_valid(),
            r is Err ==> r == Err::<(), ErrorCode>(ErrorCode::AccountValidationFailure),
    {
        if self.num_epochs_valid == 0 || self.num_epochs_valid > MAX_NUM_EPOCHS_VALID {
            return Err(ErrorCode::AccountValidationFailure);
        }
        if self.max_commission_bps > MAX_COMMISSION_BPS {
            return Err(ErrorCode::AccountValidationFailure);
        }
        Ok(())
    }

    /// The fixed seed of the config's derived address
    /// (ASCII `RD_CONFIG_ACCOUNT`).
    pub open spec fn spec_seed() -> Seq<u8> {
        seq![
            82u8, 68u8, 95u8, 67u8, 79u8, 78u8, 70u8, 73u8, 71u8, 95u8, 65u8, 67u8, 67u8, 79u8,
            85u8, 78u8, 84u8,
        ]
    }

    /// The seed bytes of the config's derived address.
    pub fn seed() -> (r: Vec<u8>)
        ensures
            r@ == Self::spec_seed(),
    {
        let r: Vec<u8> = vec![
            82u8, 68u8, 95u8, 67u8, 79u8, 78u8, 70u8, 73u8, 71u8, 95u8, 65u8, 67u8, 67u8, 79u8,
            85u8, 78u8, 84u8,
        ];
        proof {
            assert(r@ =~= Self::spec_seed());
        }
        r
    }
}

/// The embedded record of an uploaded Merkle root and its claim budget.
#[derive(Clone, Copy, Debug, PartialEq)]
pub struct MerkleRoot {
    /// Merkle root digest.
    pub root: [u8; 32],
    /// Max total funds claimable against this root.
    pub max_total_claim: u64,
    /// Max number of leaves that may claim against this root.
    pub max_num_nodes: u64,
    /// Funds already claimed.
    pub total_funds_claimed: u64,
    /// Number of leaves that have claimed.
    pub num_nodes_claimed: u64,
}

impl MerkleRoot {
    /// The claim counters never exceed their declared maxima.
    pub open spec fn spec_within_budget(self) -> bool {
        &&& self.total_funds_claimed <= self.max_total_claim
        &&& self.num_nodes_claimed <= self.max_num_nodes
    }
}

/// Per-(validator, epoch) reward collection state.
#[derive(Clone, Copy, Debug, PartialEq)]
pub struct RewardCollectionAccount {
    /// The validator's vote account.
    pub validator_vote_account: AccountKey,
    /// Authorized uploader of the Merkle root.
    pub merkle_root_upload_authority: AccountKey,
    /// The uploaded Merkle root, once there is one.
    pub merkle_root: Option<MerkleRoot>,
    /// Epoch in which the account was initialized.
    pub creation_epoch: u64,
    /// Commission taken by the validator (basis points).
    pub validator_commission_bps: u16,
    /// Commission taken by the block builder (basis points).
    pub rakurai_commission_bps: u16,
    /// Account receiving the block-builder commission.
    pub rakurai_commission_account: AccountKey,
    /// Last epoch in which claims are honoured.
    pub expires_at: u64,
    /// Who initialized the account; receives the unclaimed sweep.
    pub initializer: AccountKey,
    /// Derived-address bump.
    pub bump: u8,
}

impl RewardCollectionAccount {
    /// The account's invariant: no stored address is the zero sentinel.
    pub open spec fn spec_valid(self) -> bool {
        &&& self.validator_vote_account@ != zero_key()
        &&& self.merkle_root_upload_authority@ != zero_key()
        &&& self.rakurai_commission_account@ != zero_key()
        &&& self.initializer@ != zero_key()
    }

    /// Checks that no stored address is the zero sentinel.
    pub fn validate(&self) -> (r: Result<(), ErrorCode>)
        ensures
            r is Ok <==> self.spec_valid(),
            r is Err ==> r == Err::<(), ErrorCode>(ErrorCode::AccountValidationFailure),
    {
        if self.validator_vote_account.is_zero() || self.merkle_root_upload_authority.is_zero()
            || self.rakurai_commission_account.is_zero() {
            return Err(ErrorCode::AccountValidationFailure);
        }
        if self.initializer.is_zero() {
            return Err(ErrorCode::AccountValidationFailure);
        }
        Ok(())
    }

    /// Sweeps everything above the rent-exempt minimum out of `from_lamports`
    /// into `to_lamports`, returning the swept amount. Errors, moving
    /// nothing, if the balance is below the minimum or the credit would
    /// overflow.
    pub fn claim_expired(
        from_lamports: &mut u64,
        to_lamports: &mut u64,
        min_rent_lamports: u64,
    ) -> (r: Result<u64, ErrorCode>)
        ensures
            r is Ok <==> (*old(from_lamports) >= min_rent_lamports && *old(to_lamports) + (*old(from_lamports) - min_rent_lamports) <= u64::MAX),
            r matches Ok(amount) ==> amount == *old(from_lamports) - min_rent_lamports && *final(from_lamports) == min_rent_lamports && *final(to_lamports) == *old(to_lamports) + amount,
            r is Err ==> r == Err::<u64, ErrorCode>(ErrorCode::ArithmeticError) && *final(from_lamports) == *old(from_lamports) && *final(to_lamports) == *old(to_lamports),
    {
        let amount = match from_lamports.checked_sub(min_rent_lamports) {
            Some(amount) => amount,
            None => {
                return Err(ErrorCode::ArithmeticError);
            },
        };
        Self::transfer_lamports(from_lamports, to_lamports, amount)?;
        Ok(amount)
    }

    /// Pays `amount` out of the collection account's balance.
    pub fn claim(from_lamports: &mut u64, to_lamports: &mut u64, amount: u64) -> (r: Result<
        (),
        ErrorCode,
    >)
        ensures
            r is Ok <==> (*old(from_lamports) >= amount && *old(to_lamports) + amount
                <= u64::MAX),
            r is Ok ==> *final(from_lamports) == *old(from_lamports) - amount && *final(to_lamports) == *old(to_lamports) + amount,
            r is Err ==> r == Err::<(), ErrorCode>(ErrorCode::ArithmeticError) && *final(from_lamports) == *old(from_lamports) && *final(to_lamports) == *old(to_lamports),
    {
        Self::transfer_lamports(from_lamports, to_lamports, amount)
    }

    /// Debits `from_lamports` and credits `to_lamports` by `amount`, as one
    /// atomic step: on under- or overflow nothing moves.
    pub fn transfer_lamports(from_lamports: &mut u64, to_lamports: &mut u64, amount: u64) -> (r:
        Result<(), ErrorCode>)
        ensures
            r is Ok <==> (*old(from_lamports) >= amount && *old(to_lamports) + amount
                <= u64::MAX),
            r is Ok ==> *final(from_lamports) == *old(from_lamports) - amount && *final(to_lamports) == *old(to_lamports) + amount,
            r is Err ==> r == Err::<(), ErrorCode>(ErrorCode::ArithmeticError) && *final(from_lamports) == *old(from_lamports) && *final(to_lamports) == *old(to_lamports),
    {
        let debited = match from_lamports.checked_sub(amount) {
            Some(v) => v,
            None => {
                return Err(ErrorCode::ArithmeticError);
            },
        };
        let credited = match to_lamports.checked_add(amount) {
            Some(v) => v,
            None => {
                return Err(ErrorCode::ArithmeticError);
            },
        };
        *from_lamports = debited;
        *to_lamports = credited;
        Ok(())
    }

    /// The fixed seed of a collection account's derived address
    /// (ASCII `REWARD_COLLECTION_ACCOUNT`).
    pub open spec fn spec_seed() -> Seq<u8> {
        seq![
            82u8, 69u8, 87u8, 65u8, 82u8, 68u8, 95u8, 67u8, 79u8, 76u8, 76u8, 69u8, 67u8, 84u8,
            73u8, 79u8, 78u8, 95u8, 65u8, 67u8, 67u8, 79u8, 85u8, 78u8, 84u8,
        ]
    }

    /// The seed bytes of a collection account's derived address.
    pub fn seed() -> (r: Vec<u8>)
        ensures
            r@ == Self::spec_seed(),
    {
        let r: Vec<u8> = vec![
            82u8, 69u8, 87u8, 65u8, 82u8, 68u8, 95u8, 67u8, 79u8, 76u8, 76u8, 69u8, 67u8, 84u8,
            73u8, 79u8, 78u8, 95u8, 65u8, 67u8, 67u8, 79u8, 85u8, 78u8, 84u8,
        ];
        proof {
            assert(r@ =~= Self::spec_seed());
        }
        r
    }
}

/// Per-(claimant, collection) claim record; its existence is the
/// anti-double-claim guard, and `is_claimed` is checked besides.
#[derive(Clone, Copy, Debug, PartialEq)]
pub struct ClaimStatus {
    /// Whether the claim was already paid.
    pub is_claimed: bool,
    /// Who the payout went to.
    pub claimant: AccountKey,
    /// Who funded the claim record's rent; refunded on closure.
    pub claim_status_payer: AccountKey,
    /// Slot at which the claim was paid.
    pub slot_claimed_at: u64,
    /// Amount paid.
    pub amount: u64,
    /// Expiry copied from the collection account at claim time.
    pub expires_at: u64,
    /// Derived-address bump.
    pub bump: u8,
}

impl ClaimStatus {
    /// The fixed seed of a claim record's derived address
    /// (ASCII `CLAIM_STATUS`).
    pub open spec fn spec_seed() -> Seq<u8> {
        seq![67u8, 76u8, 65u8, 73u8, 77u8, 95u8, 83u8, 84u8, 65u8, 84u8, 85u8, 83u8]
    }

    /// The seed bytes of a claim record's derived address.
    pub fn seed() -> (r: Vec<u8>)
        ensures
            r@ == Self::spec_seed(),
    {
        let r: Vec<u8> = vec![
            67u8, 76u8, 65u8, 73u8, 77u8, 95u8, 83u8, 84u8, 65u8, 84u8, 85u8, 83u8,
        ];
        proof {
            assert(r@ =~= Self::spec_seed());
        }
        r
    }
}

} // verus!
