//! The Merkle proof verifier and the claim leaf construction.
//!
//! A claim leaf is a domain-separated double hash of the claimant's address
//! and the claimed amount; inclusion is checked by folding the leaf with
//! each proof sibling in canonical (lower-bytes-first) order and comparing
//! the result to the stored root. The hash itself is the runtime's SHA-256,
//! named by [`crate::solana::hashv_digest`]; everything around it is
//! verified exactly.

use crate::keys::AccountKey;
use crate::solana::{hashv_bytes, hashv_digest};
use vstd::prelude::*;

verus! {

/// Lexicographic order on byte strings: `a` is less than or equal to `b`.
pub open spec fn lex_le(a: Seq<u8>, b: Seq<u8>) -> bool
    decreases a.len(),
{
    if a.len() == 0 {
        true
    } else if b.len() == 0 {
        false
    } else if a.first() < b.first() {
        true
    } else if a.first() > b.first() {
        false
    } else {
        lex_le(a.drop_first(), b.drop_first())
    }
}

/// The parent digest of two sibling nodes: the hash of the pair in
/// canonical (lower-bytes-first) order.
pub open spec fn combined_digest(a: Seq<u8>, b: Seq<u8>) -> Seq<u8> {
    if lex_le(a, b) {
        hashv_digest(seq![a, b])
    } else {
        hashv_digest(seq![b, a])
    }
}

/// The root obtained by folding `leaf` with each sibling of `path` in turn.
pub open spec fn root_digest(leaf: Seq<u8>, path: Seq<Seq<u8>>) -> Seq<u8>
    decreases path.len(),
{
    if path.len() == 0 {
        leaf
    } else {
        root_digest(combined_digest(leaf, path.first()), path.drop_first())
    }
}

/// The digest committed for one claim: `H(0x00 ‖ H(claimant ‖ amount_le))`.
/// The zero prefix separates leaves from internal nodes.
pub open spec fn leaf_digest(claimant: Seq<u8>, amount: u64) -> Seq<u8> {
    hashv_digest(
        seq![seq![0u8], hashv_digest(seq![claimant, vstd::bytes::spec_u64_to_le_bytes(amount)])],
    )
}

/// Lexicographic comparison of two node digests.
pub fn le_bytes32(a: &[u8; 32], b: &[u8; 32]) -> (r: bool)
    ensures
        r == lex_le(a@, b@),
{
    let mut i: usize = 0;
    proof {
        assert(a@.skip(0) =~= a@);
        assert(b@.skip(0) =~= b@);
    }
    while i < 32
        invariant
            i <= 32,
            forall|j: int| 0 <= j < i ==> a@[j] == b@[j],
            lex_le(a@, b@) == lex_le(a@.skip(i as int), b@.skip(i as int)),
        decreases 32 - i,
    {
        proof {
            assert(a@.skip(i as int).first() == a@[i as int]);
            assert(b@.skip(i as int).first() == b@[i as int]);
        }
        if a[i] < b[i] {
            return true;
        }
        if a[i] > b[i] {
            return false;
        }
        proof {
            assert(a@.skip(i as int).drop_first() =~= a@.skip(i as int + 1));
            assert(b@.skip(i as int).drop_first() =~= b@.skip(i as int + 1));
        }
        i += 1;
    }
    proof {
        assert(a@.skip(32) =~= Seq::<u8>::empty());
    }
    true
}

/// Byte equality of two node digests.
pub fn eq_bytes32(a: &[u8; 32], b: &[u8; 32]) -> (r: bool)
    ensures
        r == (a@ == b@),
{
    let mut i: usize = 0;
    while i < 32
        invariant
            i <= 32,
            forall|j: int| 0 <= j < i ==> a@[j] == b@[j],
        decreases 32 - i,
    {
        if a[i] != b[i] {
            proof {
                assert(a@[i as int] != b@[i as int]);
            }
            return false;
        }
        i += 1;
    }
    proof {
        assert(a@ =~= b@);
    }
    true
}

/// The parent node of two siblings: hashes the pair in canonical
/// (lower-bytes-first) order.
pub fn combine_nodes(a: &[u8; 32], b: &[u8; 32]) -> (r: [u8; 32])
    ensures
        r@ == combined_digest(a@, b@),
{
    let mut parts: Vec<Vec<u8>> = Vec::new();
    if le_bytes32(a, b) {
        parts.push(vstd::slice::slice_to_vec(a.as_slice()));
        parts.push(vstd::slice::slice_to_vec(b.as_slice()));
        proof {
            assert(parts.deep_view() =~~= seq![a@, b@]);
        }
    } else {
        parts.push(vstd::slice::slice_to_vec(b.as_slice()));
        parts.push(vstd::slice::slice_to_vec(a.as_slice()));
        proof {
            assert(parts.deep_view() =~~= seq![b@, a@]);
        }
    }
    hashv_bytes(&parts)
}

/// The leaf node committed for `(claimant, amount)`:
/// `H(0x00 ‖ H(claimant ‖ amount_le))`.
pub fn claim_leaf_node(claimant: &AccountKey, amount: u64) -> (r: [u8; 32])
    ensures
        r@ == leaf_digest(claimant@, amount),
{
    let mut inner_parts: Vec<Vec<u8>> = Vec::new();
    inner_parts.push(vstd::slice::slice_to_vec(claimant.bytes.as_slice()));
    inner_parts.push(vstd::bytes::u64_to_le_bytes(amount));
    proof {
        assert(inner_parts.deep_view() =~~= seq![
            claimant@,
            vstd::bytes::spec_u64_to_le_bytes(amount),
        ]);
    }
    let inner = hashv_bytes(&inner_parts);

    let mut prefix: Vec<u8> = Vec::new();
    prefix.push(0u8);
    let mut outer_parts: Vec<Vec<u8>> = Vec::new();
    outer_parts.push(prefix);
    outer_parts.push(vstd::slice::slice_to_vec(inner.as_slice()));
    proof {
        assert(outer_parts.deep_view()[0] =~~= seq![0u8]);
        assert(outer_parts.deep_view() =~~= seq![
            seq![0u8],
            hashv_digest(seq![claimant@, vstd::bytes::spec_u64_to_le_bytes(amount)]),
        ]);
    }
    hashv_bytes(&outer_parts)
}

/// Checks a Merkle inclusion proof: folds `leaf` with each sibling of
/// `proof_path` in canonical order and compares the result to `root`.
/// Returns `true` exactly when the folded digest equals the root.
pub fn verify(proof_path: Vec<[u8; 32]>, root: [u8; 32], leaf: [u8; 32]) -> (r: bool)
    ensures
        r == (root@ == root_digest(leaf@, proof_path.deep_view())),
{
    let ghost path: Seq<Seq<u8>> = proof_path.deep_view();
    let mut computed: [u8; 32] = leaf;
    let mut i: usize = 0;
    proof {
        assert(path.skip(0) =~= path);
    }
    while i < proof_path.len()
        invariant
            i <= proof_path.len(),
            path == proof_path.deep_view(),
            path.len() == proof_path.len(),
            root_digest(leaf@, path) == root_digest(computed@, path.skip(i as int)),
        decreases proof_path.len() - i,
    {
        proof {
            assert(path.skip(i as int).first() == path[i as int]);
            assert(path.skip(i as int).drop_first() =~= path.skip(i as int + 1));
            assert(proof_path[i as int]@ == path[i as int]);
        }
        computed = combine_nodes(&computed, &proof_path[i]);
        i += 1;
    }
    proof {
        assert(path.skip(proof_path.len() as int) =~= Seq::<Seq<u8>>::empty());
    }
    eq_bytes32(&computed, &root)
}

} // verus!
