//! Merkle inclusion proofs for dividend claims.
//!
//! A distribution commits to its entitlements with the root of a keccak-256
//! Merkle tree whose leaves hash `(index, claimant, amount)`.  Nodes are
//! combined under the sorted-pair convention: the two children are hashed in
//! lexicographic order, so a proof path needs no position bits.  The
//! verifier is pure: it recomputes the root from the leaf and the path and
//! compares.

use vstd::prelude::*;

use vstd::bytes::{spec_u64_to_le_bytes, u64_to_le_bytes};

use crate::errors::DividendsErrorCode;
use crate::keys::{bytes_le, extend_bytes, keys_equal, lex_le, Pubkey};

verus! {

/// What the keccak-256 digest of a byte string is: fixed by the bytes
/// alone; the value itself is the outside hasher's business.
pub uninterp spec fn keccak_of(data: Seq<u8>) -> Seq<u8>;

/// Relies on solana_keccak_hasher::hash: the keccak-256 digest of the given
/// bytes, 32 bytes long and a function of the bytes alone.
#[verifier::external_body]
fn keccak256(data: &Vec<u8>) -> (r: Vec<u8>)
    ensures
        r@ == keccak_of(data@),
        r@.len() == 32,
{
    solana_keccak_hasher::hash(data.as_slice()).to_bytes().to_vec()
}

/// The digest of two nodes combined in lexicographic order: the
/// node-combination step of the sorted-pair Merkle convention.
pub open spec fn spec_hash_pair(a: Seq<u8>, b: Seq<u8>) -> Seq<u8> {
    if lex_le(a, b) {
        keccak_of(a + b)
    } else {
        keccak_of(b + a)
    }
}

/// Combines a running hash with one proof-path sibling: the smaller of the
/// two (lexicographically) is hashed first.
pub fn hash_pair(a: &Vec<u8>, b: &Vec<u8>) -> (r: Vec<u8>)
    ensures
        r@ == spec_hash_pair(a@, b@),
        r@.len() == 32,
{
    let mut data: Vec<u8> = Vec::new();
    if bytes_le(a, b) {
        extend_bytes(&mut data, a);
        extend_bytes(&mut data, b);
        proof {
            assert(data@ =~= a@ + b@);
        }
    } else {
        extend_bytes(&mut data, b);
        extend_bytes(&mut data, a);
        proof {
            assert(data@ =~= b@ + a@);
        }
    }
    keccak256(&data)
}

/// The leaf digest of one entitlement: the index in little-endian bytes,
/// the claimant's address bytes, and the amount in little-endian bytes,
/// hashed together.
pub open spec fn spec_claim_leaf(index: u64, claimant: Seq<u8>, amount: u64) -> Seq<u8> {
    keccak_of(spec_u64_to_le_bytes(index) + claimant + spec_u64_to_le_bytes(amount))
}

/// Hashes one entitlement into its leaf digest.
pub fn claim_leaf(index: u64, claimant: &Pubkey, amount: u64) -> (r: Vec<u8>)
    ensures
        r@ == spec_claim_leaf(index, claimant@, amount),
        r@.len() == 32,
{
    let mut data = u64_to_le_bytes(index);
    extend_bytes(&mut data, claimant);
    let amount_bytes = u64_to_le_bytes(amount);
    extend_bytes(&mut data, &amount_bytes);
    keccak256(&data)
}

/// The byte strings of a proof path.
pub open spec fn seq_views(proof: Seq<Vec<u8>>) -> Seq<Seq<u8>> {
    proof.map_values(|v: Vec<u8>| v@)
}

/// The root recomputed from a leaf digest along a proof path, combining
/// with each sibling in turn under the sorted-pair convention.
pub open spec fn spec_merkle_root(leaf: Seq<u8>, proof: Seq<Seq<u8>>) -> Seq<u8>
    decreases proof.len(),
{
    if proof.len() == 0 {
        leaf
    } else {
        spec_merkle_root(spec_hash_pair(leaf, proof[0]), proof.skip(1))
    }
}

/// True exactly when recombining `leaf` with the path `proof` reproduces
/// `root`: the pure Merkle inclusion check.
pub fn verify(proof: &Vec<Vec<u8>>, root: &Vec<u8>, leaf: Vec<u8>) -> (r: bool)
    ensures
        r == (spec_merkle_root(leaf@, seq_views(proof@)) == root@),
{
    let ghost all = seq_views(proof@);
    let mut computed = leaf;
    let mut i: usize = 0;
    proof {
        assert(all.skip(0) =~= all);
    }
    while i < proof.len()
        invariant
            0 <= i <= proof.len(),
            all == seq_views(proof@),
            spec_merkle_root(computed@, all.skip(i as int)) == spec_merkle_root(leaf@, all),
        decreases proof.len() - i,
    {
        proof {
            assert(all.skip(i as int)[0] == proof@[i as int]@);
            assert(all.skip(i as int).skip(1) =~= all.skip(i + 1));
        }
        computed = hash_pair(&computed, &proof[i]);
        i = i + 1;
    }
    proof {
        assert(all.skip(proof@.len() as int).len() == 0);
    }
    keys_equal(&computed, root)
}

/// Verifies that the entitlement `(index, claimant, amount)` is committed
/// under `root`: hashes the leaf and recombines it along `proof`, failing
/// `InvalidProof` when the recomputed root differs.
pub fn verify_merkle_proof(
    index: u64,
    claimant: &Pubkey,
    amount: u64,
    proof: &Vec<Vec<u8>>,
    root: &Vec<u8>,
) -> (result: Result<(), DividendsErrorCode>)
    ensures
        result is Ok <==> spec_merkle_root(
            spec_claim_leaf(index, claimant@, amount),
            seq_views(proof@),
        ) == root@,
        result is Err ==> result->Err_0 == DividendsErrorCode::InvalidProof,
{
    let node = claim_leaf(index, claimant, amount);
    if !verify(proof, root, node) {
        return Err(DividendsErrorCode::InvalidProof);
    }
    Ok(())
}

} // verus!
