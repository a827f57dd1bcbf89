//! Trusted bindings to the two runtime primitives the verified logic needs:
//! the SHA-256 hash used by the Merkle claim engine, and program-derived
//! address lookup. Each outside result is given an uninterpreted name; all
//! reasoning above these bindings is in terms of those names.

use crate::keys::AccountKey;
use vstd::prelude::*;

verus! {

/// The SHA-256 digest (32 bytes) of the concatenation of `parts`, as
/// computed by `solana_program::hash::hashv`. A pure function of the input
/// bytes alone; its value is not specified here.
pub uninterp spec fn hashv_digest(parts: Seq<Seq<u8>>) -> Seq<u8>;

/// Relies on `solana_program::hash::hashv`: the SHA-256 digest of the
/// concatenated input slices, 32 bytes, depending on the input bytes alone.
#[verifier::external_body]
pub(crate) fn hashv_bytes(parts: &Vec<Vec<u8>>) -> (r: [u8; 32])
    ensures
        r@ == hashv_digest(parts.deep_view()),
{
    let refs: Vec<&[u8]> = parts.iter().map(|p| p.as_slice()).collect();
    solana_program::hash::hashv(&refs).to_bytes()
}

/// The program-derived address and bump for `seeds` under `program_id`, as
/// computed by `Pubkey::try_find_program_address`: a pure function of the
/// seed bytes and the program id, `None` in the statistically improbable
/// case that no bump yields a valid off-curve address (or when a seed is
/// over the runtime's length limits).
pub uninterp spec fn pda_derivation(seeds: Seq<Seq<u8>>, program_id: Seq<u8>) -> Option<
    (Seq<u8>, u8),
>;

/// Relies on `solana_program::pubkey::Pubkey::try_find_program_address`:
/// deterministic in the seeds and the program id, never panics.
#[verifier::external_body]
pub(crate) fn try_find_pda(seeds: &Vec<Vec<u8>>, program_id: &AccountKey) -> (r: Option<
    (AccountKey, u8),
>)
    ensures
        match r {
            Some(p) => pda_derivation(seeds.deep_view(), program_id@) == Some((p.0@, p.1)),
            None => pda_derivation(seeds.deep_view(), program_id@) is None,
        },
{
    let pid = solana_program::pubkey::Pubkey::new_from_array(program_id.bytes);
    let seed_refs: Vec<&[u8]> = seeds.iter().map(|s| s.as_slice()).collect();
    let found = solana_program::pubkey::Pubkey::try_find_program_address(&seed_refs, &pid);
    found.map(|(key, bump)| (AccountKey { bytes: key.to_bytes() }, bump))
}

} // verus!
