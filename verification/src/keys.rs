//! Account addresses as plain 32-byte values.
//!
//! Every authority, account reference and program identity in this library
//! is an [`AccountKey`]: the raw bytes of an on-chain address. The runtime's
//! own address type never appears in the verified logic; the trusted
//! bindings convert at the boundary.

use vstd::prelude::*;

verus! {

/// A 32-byte on-chain address (a public key or a derived address).
#[derive(Clone, Copy, Debug)]
pub struct AccountKey {
    pub bytes: [u8; 32],
}

impl View for AccountKey {
    type V = Seq<u8>;

    open spec fn view(&self) -> Seq<u8> {
        self.bytes@
    }
}

/// The all-zero address, used by the programs as the "unset" sentinel.
pub open spec fn zero_key() -> Seq<u8> {
    Seq::new(32, |i: int| 0u8)
}

impl AccountKey {
    pub fn new(bytes: [u8; 32]) -> (r: Self)
        ensures
            r@ == bytes@,
    {
        AccountKey { bytes }
    }

    pub fn to_bytes(&self) -> (r: [u8; 32])
        ensures
            r@ == self@,
    {
        self.bytes
    }

    /// The sentinel address every byte of which is zero.
    pub fn zero() -> (r: Self)
        ensures
            r@ == zero_key(),
    {
        let bytes: [u8; 32] = [0u8; 32];
        let r = AccountKey { bytes };
        proof {
            assert(r@ =~= zero_key());
        }
        r
    }

    /// Whether this is the all-zero sentinel address.
    pub fn is_zero(&self) -> (r: bool)
        ensures
            r == (self@ == zero_key()),
    {
        let mut i: usize = 0;
        while i < 32
            invariant
                i <= 32,
                forall|j: int| 0 <= j < i ==> self@[j] == 0u8,
            decreases 32 - i,
        {
            if self.bytes[i] != 0u8 {
                proof {
                    assert(self@[i as int] != zero_key()[i as int]);
                }
                return false;
            }
            i += 1;
        }
        proof {
            assert(self@ =~= zero_key());
        }
        true
    }
}

impl PartialEq for AccountKey {
    fn eq(&self, other: &Self) -> (r: bool) {
        let mut i: usize = 0;
        while i < 32
            invariant
                i <= 32,
                forall|j: int| 0 <= j < i ==> self@[j] == other@[j],
            decreases 32 - i,
        {
            if self.bytes[i] != other.bytes[i] {
                proof {
                    assert(self@[i as int] != other@[i as int]);
                }
                return false;
            }
            i += 1;
        }
        proof {
            assert(self@ =~= other@);
        }
        true
    }
}

impl Eq for AccountKey {}

impl vstd::std_specs::cmp::PartialEqSpecImpl for AccountKey {
    open spec fn obeys_eq_spec() -> bool {
        true
    }

    open spec fn eq_spec(&self, other: &AccountKey) -> bool {
        self@ == other@
    }
}

/// The address of the network's vote program, which must own every vote
/// account accepted as proof of a validator's identity
/// (base58 `Vote111111111111111111111111111111111111111`).
pub fn vote_program_id() -> (r: AccountKey)
    ensures
        r@ == vote_program_key(),
{
    let bytes: [u8; 32] = [
        7u8, 97u8, 72u8, 29u8, 53u8, 116u8, 116u8, 187u8, 124u8, 77u8, 118u8, 36u8, 235u8, 211u8,
        189u8, 179u8, 216u8, 53u8, 94u8, 115u8, 209u8, 16u8, 67u8, 252u8, 13u8, 163u8, 83u8,
        128u8, 0u8, 0u8, 0u8, 0u8,
    ];
    let r = AccountKey { bytes };
    proof {
        assert(r@ =~= vote_program_key());
    }
    r
}

/// The 32 bytes of the vote program's address.
pub open spec fn vote_program_key() -> Seq<u8> {
    seq![
        7u8, 97u8, 72u8, 29u8, 53u8, 116u8, 116u8, 187u8, 124u8, 77u8, 118u8, 36u8, 235u8, 211u8,
        189u8, 179u8, 216u8, 53u8, 94u8, 115u8, 209u8, 16u8, 67u8, 252u8, 13u8, 163u8, 83u8,
        128u8, 0u8, 0u8, 0u8, 0u8,
    ]
}

/// What a validator's vote account proves about its operator: the account's
/// owner program and the node identity recorded in the vote state. The
/// surrounding runtime deserializes the on-chain vote account and hands the
/// two addresses in; the operations here only compare them.
#[derive(Clone, Copy, Debug)]
pub struct VoteAccountRecord {
    /// The vote account's own address.
    pub address: AccountKey,
    /// The program that owns the vote account on chain.
    pub owner: AccountKey,
    /// The validator identity (`node_pubkey`) stored in the vote state.
    pub node_pubkey: AccountKey,
}

} // verus!
