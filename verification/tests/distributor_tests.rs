//! Claim and reclaim accounting against a real two-leaf tree.

use compliance_core::distributor::{
    claim, mark_claim_status, reclaim_dividends, update_distributor_after_claim, ClaimStatus,
    MerkleDistributor,
};
use compliance_core::errors::DividendsErrorCode;
use compliance_core::merkle::{claim_leaf, hash_pair};
use compliance_core::reclaimer::Reclaimer;
use compliance_core::roles::WalletRole;

fn key(n: u8) -> Vec<u8> {
    vec![n; 32]
}

/// A two-leaf distribution: claimant A (key 50) gets 100 at index 0,
/// claimant B (key 51) gets 250 at index 1.
fn two_leaf_tree() -> (Vec<u8>, Vec<Vec<u8>>, Vec<Vec<u8>>) {
    let leaf0 = claim_leaf(0, &key(50), 100);
    let leaf1 = claim_leaf(1, &key(51), 250);
    let root = hash_pair(&leaf0, &leaf1);
    (root, vec![leaf1], vec![leaf0])
}

fn distributor(root: Vec<u8>, total: u64, nodes: u64) -> MerkleDistributor {
    MerkleDistributor {
        base: key(60),
        root,
        total_claim_amount: total,
        total_amount_claimed: 0,
        num_nodes: nodes,
        num_nodes_claimed: 0,
        ready_to_claim: true,
        paused: false,
    }
}

fn unclaimed() -> ClaimStatus {
    ClaimStatus { claimant: Vec::new(), amount: 0, claimed: false, claimed_at: 0 }
}

#[test]
fn a_claim_pays_once_and_a_replay_fails() {
    let (root, proof0, proof1) = two_leaf_tree();
    let mut d = distributor(root, 300, 2);
    let mut cs0 = unclaimed();
    assert_eq!(
        claim(&mut d, &mut cs0, &key(70), &key(71), &key(50), &key(50), true, 1111, 0, 100, &proof0),
        Ok(())
    );
    assert_eq!(d.num_nodes_claimed, 1);
    assert_eq!(d.total_amount_claimed, 100);
    assert!(cs0.claimed);
    assert_eq!(cs0.amount, 100);
    assert_eq!(cs0.claimed_at, 1111);
    assert_eq!(cs0.claimant, key(50));

    assert_eq!(
        claim(&mut d, &mut cs0, &key(70), &key(71), &key(50), &key(50), true, 2222, 0, 100, &proof0),
        Err(DividendsErrorCode::DropAlreadyClaimed)
    );
    assert_eq!(d.num_nodes_claimed, 1);
    assert_eq!(d.total_amount_claimed, 100);

    let mut cs1 = unclaimed();
    assert_eq!(
        claim(&mut d, &mut cs1, &key(70), &key(72), &key(51), &key(51), true, 3333, 1, 250, &proof1),
        Err(DividendsErrorCode::ExceededMaxClaim)
    );
    assert_eq!(d.total_amount_claimed, 100);
    assert_eq!(d.num_nodes_claimed, 1);
    assert!(!cs1.claimed);
}

#[test]
fn claim_guards_fire_in_order() {
    let (root, proof0, _) = two_leaf_tree();
    let mut d = distributor(root, 300, 2);
    let mut cs = unclaimed();
    assert_eq!(
        claim(&mut d, &mut cs, &key(70), &key(70), &key(50), &key(50), true, 1, 0, 100, &proof0),
        Err(DividendsErrorCode::KeysMustNotMatch)
    );
    assert_eq!(
        claim(&mut d, &mut cs, &key(70), &key(71), &key(50), &key(50), false, 1, 0, 100, &proof0),
        Err(DividendsErrorCode::Unauthorized)
    );
    assert_eq!(
        claim(&mut d, &mut cs, &key(70), &key(71), &key(52), &key(50), true, 1, 0, 100, &proof0),
        Err(DividendsErrorCode::OwnerMismatch)
    );
    d.ready_to_claim = false;
    assert_eq!(
        claim(&mut d, &mut cs, &key(70), &key(71), &key(50), &key(50), true, 1, 0, 100, &proof0),
        Err(DividendsErrorCode::DistributorNotReadyToClaim)
    );
    d.ready_to_claim = true;
    d.paused = true;
    assert_eq!(
        claim(&mut d, &mut cs, &key(70), &key(71), &key(50), &key(50), true, 1, 0, 100, &proof0),
        Err(DividendsErrorCode::DistributionPaused)
    );
    d.paused = false;
    assert_eq!(
        claim(&mut d, &mut cs, &key(70), &key(71), &key(50), &key(50), true, 1, 0, 99, &proof0),
        Err(DividendsErrorCode::InvalidProof)
    );
    assert_eq!(d.total_amount_claimed, 0);
    assert!(!cs.claimed);
}

#[test]
fn more_claims_than_leaves_are_rejected() {
    let (root, proof0, proof1) = two_leaf_tree();
    let mut d = distributor(root, 1000, 1);
    let mut cs0 = unclaimed();
    assert_eq!(
        claim(&mut d, &mut cs0, &key(70), &key(71), &key(50), &key(50), true, 1, 0, 100, &proof0),
        Ok(())
    );
    let mut cs1 = unclaimed();
    assert_eq!(
        claim(&mut d, &mut cs1, &key(70), &key(72), &key(51), &key(51), true, 2, 1, 250, &proof1),
        Err(DividendsErrorCode::ExceededNumNodes)
    );
    assert_eq!(d.num_nodes_claimed, 1);
    assert_eq!(d.total_amount_claimed, 100);
}

#[test]
fn totals_update_is_exact_and_atomic() {
    let mut d = distributor(key(0), 100, 5);
    assert_eq!(update_distributor_after_claim(&mut d, 60), Ok(()));
    assert_eq!(d.total_amount_claimed, 60);
    assert_eq!(d.num_nodes_claimed, 1);
    assert_eq!(
        update_distributor_after_claim(&mut d, 41),
        Err(DividendsErrorCode::ExceededMaxClaim)
    );
    assert_eq!(d.total_amount_claimed, 60);
    assert_eq!(d.num_nodes_claimed, 1);
    assert_eq!(update_distributor_after_claim(&mut d, 40), Ok(()));
    assert_eq!(d.total_amount_claimed, 100);
    assert_eq!(d.num_nodes_claimed, 2);
}

#[test]
fn mark_claim_status_records_the_payout() {
    let mut cs = unclaimed();
    mark_claim_status(&mut cs, 42, &key(50), 99);
    assert!(cs.claimed);
    assert_eq!(cs.amount, 42);
    assert_eq!(cs.claimed_at, 99);
    assert_eq!(cs.claimant, key(50));
}

#[test]
fn reclaim_records_the_authority_as_claimant() {
    let (root, _, proof1) = two_leaf_tree();
    let mut d = distributor(root, 300, 2);
    let mut cs = unclaimed();
    let transfer_admin = WalletRole { owner: key(1), access_control: key(9), role: 8 };
    let reclaimer = Reclaimer { wallet_address: key(80), proposed_wallet_address: None };
    assert_eq!(
        reclaim_dividends(
            &transfer_admin, &reclaimer, &mut d, &mut cs, &key(70), &key(73), &key(80), &key(51),
            &key(1), 555, 1, 250, &proof1
        ),
        Ok(())
    );
    assert!(cs.claimed);
    assert_eq!(cs.claimant, key(1));
    assert_eq!(cs.amount, 250);
    assert_eq!(d.total_amount_claimed, 250);
    assert_eq!(d.num_nodes_claimed, 1);
}

#[test]
fn reclaim_is_gated_on_role_and_reclaimer_wallet() {
    let (root, _, proof1) = two_leaf_tree();
    let mut d = distributor(root, 300, 2);
    let mut cs = unclaimed();
    let reclaimer = Reclaimer { wallet_address: key(80), proposed_wallet_address: None };
    let wallets_admin = WalletRole { owner: key(1), access_control: key(9), role: 4 };
    assert_eq!(
        reclaim_dividends(
            &wallets_admin, &reclaimer, &mut d, &mut cs, &key(70), &key(73), &key(80), &key(51),
            &key(1), 555, 1, 250, &proof1
        ),
        Err(DividendsErrorCode::Unauthorized)
    );
    let transfer_admin = WalletRole { owner: key(1), access_control: key(9), role: 8 };
    assert_eq!(
        reclaim_dividends(
            &transfer_admin, &reclaimer, &mut d, &mut cs, &key(70), &key(73), &key(81), &key(51),
            &key(1), 555, 1, 250, &proof1
        ),
        Err(DividendsErrorCode::OwnerMismatch)
    );
    assert_eq!(
        reclaim_dividends(
            &transfer_admin, &reclaimer, &mut d, &mut cs, &key(70), &key(73), &key(80), &key(51),
            &key(2), 555, 1, 250, &proof1
        ),
        Err(DividendsErrorCode::Unauthorized)
    );
    assert!(!cs.claimed);
    assert_eq!(d.total_amount_claimed, 0);
}
