//! Merkle proof verification over a real 32-leaf tree.

use compliance_core::errors::DividendsErrorCode;
use compliance_core::merkle::{claim_leaf, hash_pair, verify_merkle_proof};

fn claimant(i: u8) -> Vec<u8> {
    vec![i.wrapping_mul(3).wrapping_add(1); 32]
}

fn amount(i: u64) -> u64 {
    100 + 7 * i
}

/// Builds a perfect sorted-pair tree over the given leaves; returns every
/// level, leaves first.
fn build_levels(leaves: Vec<Vec<u8>>) -> Vec<Vec<Vec<u8>>> {
    let mut levels = vec![leaves];
    while levels.last().unwrap().len() > 1 {
        let prev = levels.last().unwrap();
        let mut next = Vec::new();
        let mut i = 0;
        while i < prev.len() {
            next.push(hash_pair(&prev[i], &prev[i + 1]));
            i += 2;
        }
        levels.push(next);
    }
    levels
}

/// The proof path of the leaf at `index`: its sibling at every level.
fn proof_path(levels: &[Vec<Vec<u8>>], index: usize) -> Vec<Vec<u8>> {
    let mut path = Vec::new();
    let mut pos = index;
    for level in &levels[..levels.len() - 1] {
        path.push(level[pos ^ 1].clone());
        pos /= 2;
    }
    path
}

fn tree_of_32() -> (Vec<Vec<Vec<u8>>>, Vec<u8>) {
    let leaves: Vec<Vec<u8>> = (0..32u64)
        .map(|i| claim_leaf(i, &claimant(i as u8), amount(i)))
        .collect();
    let levels = build_levels(leaves);
    let root = levels.last().unwrap()[0].clone();
    (levels, root)
}

#[test]
fn accepts_every_leaf_of_a_32_node_tree() {
    let (levels, root) = tree_of_32();
    for i in 0..32u64 {
        let proof = proof_path(&levels, i as usize);
        assert_eq!(proof.len(), 5);
        assert_eq!(
            verify_merkle_proof(i, &claimant(i as u8), amount(i), &proof, &root),
            Ok(())
        );
    }
}

#[test]
fn rejects_a_flipped_bit_in_any_path_element() {
    let (levels, root) = tree_of_32();
    let index = 11u64;
    let proof = proof_path(&levels, index as usize);
    for elem in 0..proof.len() {
        for bit in [0u8, 7] {
            let mut bad = proof.clone();
            bad[elem][17] ^= 1 << bit;
            assert_eq!(
                verify_merkle_proof(index, &claimant(index as u8), amount(index), &bad, &root),
                Err(DividendsErrorCode::InvalidProof)
            );
        }
    }
}

#[test]
fn rejects_a_wrong_amount_claimant_or_index() {
    let (levels, root) = tree_of_32();
    let index = 5u64;
    let proof = proof_path(&levels, index as usize);
    assert_eq!(
        verify_merkle_proof(index, &claimant(5), amount(index) + 1, &proof, &root),
        Err(DividendsErrorCode::InvalidProof)
    );
    assert_eq!(
        verify_merkle_proof(index, &claimant(6), amount(index), &proof, &root),
        Err(DividendsErrorCode::InvalidProof)
    );
    assert_eq!(
        verify_merkle_proof(index + 1, &claimant(5), amount(index), &proof, &root),
        Err(DividendsErrorCode::InvalidProof)
    );
}

#[test]
fn pair_hash_is_order_insensitive_and_not_identity() {
    let a = vec![3u8; 32];
    let b = vec![200u8; 32];
    let h = hash_pair(&a, &b);
    assert_eq!(h, hash_pair(&b, &a));
    assert_eq!(h.len(), 32);
    assert_ne!(h, a);
    assert_ne!(h, b);
    let leaf = claim_leaf(0, &a, 1);
    assert_eq!(leaf.len(), 32);
    assert_ne!(leaf, a);
}
