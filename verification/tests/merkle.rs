use rakurai_programs::keys::AccountKey;
use rakurai_programs::merkle_proof::{claim_leaf_node, combine_nodes, eq_bytes32, le_bytes32, verify};

fn key(n: u8) -> AccountKey {
    AccountKey::new([n; 32])
}

#[test]
fn leaf_node_matches_direct_hash() {
    // the trusted hash binding must agree with the runtime's own hasher
    let claimant = key(7);
    let amount: u64 = 123_456;
    let inner = solana_program::hash::hashv(&[&claimant.to_bytes(), &amount.to_le_bytes()]);
    let expected =
        solana_program::hash::hashv(&[&[0u8], &inner.to_bytes()]).to_bytes();
    assert_eq!(claim_leaf_node(&claimant, amount), expected);
}

#[test]
fn leaf_node_differs_from_inputs() {
    let claimant = key(9);
    let leaf = claim_leaf_node(&claimant, 1);
    assert_ne!(leaf, claimant.to_bytes());
    assert_ne!(claim_leaf_node(&claimant, 2), leaf);
}

#[test]
fn combine_is_order_insensitive() {
    let a = claim_leaf_node(&key(1), 10);
    let b = claim_leaf_node(&key(2), 20);
    assert_eq!(combine_nodes(&a, &b), combine_nodes(&b, &a));
    assert_ne!(combine_nodes(&a, &b), a);
}

#[test]
fn byte_comparisons() {
    let mut lo = [0u8; 32];
    let mut hi = [0u8; 32];
    hi[31] = 1;
    assert!(le_bytes32(&lo, &hi));
    assert!(!le_bytes32(&hi, &lo));
    assert!(le_bytes32(&lo, &lo));
    assert!(eq_bytes32(&lo, &lo));
    assert!(!eq_bytes32(&lo, &hi));
    lo[0] = 2;
    assert!(!le_bytes32(&lo, &hi));
    assert!(le_bytes32(&hi, &lo));
}

#[test]
fn empty_proof_verifies_leaf_as_root() {
    let leaf = claim_leaf_node(&key(3), 30);
    assert!(verify(vec![], leaf, leaf));
    let other = claim_leaf_node(&key(4), 40);
    assert!(!verify(vec![], other, leaf));
}

#[test]
fn four_leaf_tree_all_leaves_verify() {
    let leaves: Vec<[u8; 32]> = (0..4u8)
        .map(|i| claim_leaf_node(&key(i + 1), (i as u64 + 1) * 100))
        .collect();
    let n01 = combine_nodes(&leaves[0], &leaves[1]);
    let n23 = combine_nodes(&leaves[2], &leaves[3]);
    let root = combine_nodes(&n01, &n23);

    assert!(verify(vec![leaves[1], n23], root, leaves[0]));
    assert!(verify(vec![leaves[0], n23], root, leaves[1]));
    assert!(verify(vec![leaves[3], n01], root, leaves[2]));
    assert!(verify(vec![leaves[2], n01], root, leaves[3]));
}

#[test]
fn single_bit_mutations_fail_verification() {
    let leaves: Vec<[u8; 32]> = (0..4u8)
        .map(|i| claim_leaf_node(&key(i + 1), (i as u64 + 1) * 100))
        .collect();
    let n01 = combine_nodes(&leaves[0], &leaves[1]);
    let n23 = combine_nodes(&leaves[2], &leaves[3]);
    let root = combine_nodes(&n01, &n23);

    // flip one bit in the leaf
    let mut bad_leaf = leaves[0];
    bad_leaf[5] ^= 0x01;
    assert!(!verify(vec![leaves[1], n23], root, bad_leaf));

    // flip one bit in the proof
    let mut bad_sibling = leaves[1];
    bad_sibling[31] ^= 0x80;
    assert!(!verify(vec![bad_sibling, n23], root, leaves[0]));

    // flip one bit in the root
    let mut bad_root = root;
    bad_root[0] ^= 0x40;
    assert!(!verify(vec![leaves[1], n23], bad_root, leaves[0]));

    // wrong sibling order
    assert!(!verify(vec![n23, leaves[1]], root, leaves[0]));
}
