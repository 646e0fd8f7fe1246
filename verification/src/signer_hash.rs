//! Signer-hash derivation for escrow authorities.
//!
//! A lockup escrow identifies its signing authority by the first twenty
//! bytes of the SHA-256 digest of an account key followed by a 16-byte
//! nonce.

use vstd::prelude::*;

use sha2::Digest;

use crate::keys::{clone_key, extend_bytes, Pubkey};

verus! {

/// What the SHA-256 digest of a byte string is: fixed by the bytes alone;
/// the value itself is the outside hasher's business.
pub uninterp spec fn sha256_of(data: Seq<u8>) -> Seq<u8>;

/// Relies on sha2::Sha256::digest: the SHA-256 digest of the given bytes,
/// 32 bytes long and a function of the bytes alone.
#[verifier::external_body]
fn sha256(data: &Vec<u8>) -> (r: Vec<u8>)
    ensures
        r@ == sha256_of(data@),
        r@.len() == 32,
{
    sha2::Sha256::digest(data.as_slice()).to_vec()
}

/// The first twenty bytes of the SHA-256 digest of `key` followed by
/// `bump`: the escrow signer hash.
pub fn calc_signer_hash(key: &Pubkey, bump: &Vec<u8>) -> (r: Vec<u8>)
    ensures
        r@ == sha256_of(key@ + bump@).take(20),
        r@.len() == 20,
{
    let mut data = clone_key(key);
    extend_bytes(&mut data, bump);
    let digest = sha256(&data);
    let mut res: Vec<u8> = Vec::new();
    let mut i: usize = 0;
    while i < 20
        invariant
            0 <= i <= 20,
            digest@.len() == 32,
            digest@ == sha256_of(key@ + bump@),
            res@ == digest@.take(i as int),
        decreases 20 - i,
    {
        res.push(digest[i]);
        proof {
            assert(res@ =~= digest@.take(i + 1));
        }
        i = i + 1;
    }
    res
}

} // verus!
