//! The dividend distributor: a funded, Merkle-committed claim ledger.
//!
//! A distributor commits to a set of entitlements with a Merkle root, is
//! funded with `total_claim_amount` over `num_nodes` leaves, and then pays
//! each leaf at most once.  A claim-status record exists per (distributor,
//! leaf index); its existence is the host's primary replay guard and its
//! `claimed` flag is checked here besides.  Claims only verify and account:
//! the tokens themselves are moved by the host after a claim returns
//! successfully, and the two running totals bound what can ever be paid.
//!
//! Every operation applies all of its updates or none: an operation that
//! returns an error leaves every account exactly as it was.

use vstd::prelude::*;

use crate::errors::DividendsErrorCode;
use crate::keys::{clone_key, keys_equal, Pubkey};
use crate::merkle::{seq_views, spec_claim_leaf, spec_merkle_root, verify_merkle_proof};
use crate::reclaimer::Reclaimer;
use crate::roles::{Roles, WalletRole};

verus! {

/// One distribution round: its Merkle commitment, its funding and its
/// running totals.
pub struct MerkleDistributor {
    /// The key the distributor's address is derived from.
    pub base: Pubkey,
    /// The root of the entitlement tree.
    pub root: Vec<u8>,
    /// The total amount funded for this round.
    pub total_claim_amount: u64,
    /// The amount already paid out over all claims and reclaims.
    pub total_amount_claimed: u64,
    /// How many leaves the entitlement tree has.
    pub num_nodes: u64,
    /// How many leaves were already claimed or reclaimed.
    pub num_nodes_claimed: u64,
    /// Whether funding completed and claims are open.
    pub ready_to_claim: bool,
    /// Whether claims are paused.
    pub paused: bool,
}

/// The claim record of one leaf of one distributor.
pub struct ClaimStatus {
    /// Who was paid: the claimant, or the reclaim authority.
    pub claimant: Pubkey,
    /// The amount paid.
    pub amount: u64,
    /// Whether the leaf was paid; set exactly once.
    pub claimed: bool,
    /// When the leaf was paid (unix seconds); 0 while unclaimed.
    pub claimed_at: i64,
}

/// Marks a claim-status record paid: the amount, the receiving wallet and
/// the time, with the `claimed` flag set.
pub fn mark_claim_status(claim_status: &mut ClaimStatus, amount: u64, claimant: &Pubkey, now: i64)
    ensures
        final(claim_status).amount == amount,
        final(claim_status).claimed == true,
        final(claim_status).claimed_at == now,
        final(claim_status).claimant@ == claimant@,
{
    claim_status.amount = amount;
    claim_status.claimed = true;
    claim_status.claimed_at = now;
    claim_status.claimant = clone_key(claimant);
}

/// The error the totals update returns, or `None` when both running totals
/// stay within their funded bounds (in mathematical arithmetic, so an
/// addition that would not even fit the counter is over the bound too).
pub open spec fn totals_err(d: MerkleDistributor, amount: u64) -> Option<DividendsErrorCode> {
    if d.total_amount_claimed + amount > d.total_claim_amount {
        Some(DividendsErrorCode::ExceededMaxClaim)
    } else if d.num_nodes_claimed + 1 > d.num_nodes {
        Some(DividendsErrorCode::ExceededNumNodes)
    } else {
        None
    }
}

/// The distributor after one successful claim of `amount`.
pub open spec fn distributor_after_claim(d: MerkleDistributor, amount: u64) -> MerkleDistributor {
    MerkleDistributor {
        total_amount_claimed: (d.total_amount_claimed + amount) as u64,
        num_nodes_claimed: (d.num_nodes_claimed + 1) as u64,
        ..d
    }
}

/// Counts one claim of `amount` into the distributor's running totals,
/// failing `ExceededMaxClaim` when the claimed total would pass the funded
/// total and `ExceededNumNodes` when more leaves would be counted than the
/// tree has.  On error the distributor is unchanged.
pub fn update_distributor_after_claim(
    distributor: &mut MerkleDistributor,
    amount: u64,
) -> (result: Result<(), DividendsErrorCode>)
    ensures
        match result {
            Ok(()) => {
                &&& totals_err(*old(distributor), amount) is None
                &&& *final(distributor) == distributor_after_claim(*old(distributor), amount)
            },
            Err(e) => {
                &&& totals_err(*old(distributor), amount) == Some(e)
                &&& *final(distributor) == *old(distributor)
            },
        },
{
    let new_total = match distributor.total_amount_claimed.checked_add(amount) {
        Some(t) => t,
        None => {
            return Err(DividendsErrorCode::ExceededMaxClaim);
        },
    };
    if new_total > distributor.total_claim_amount {
        return Err(DividendsErrorCode::ExceededMaxClaim);
    }
    let new_nodes = match distributor.num_nodes_claimed.checked_add(1) {
        Some(n) => n,
        None => {
            return Err(DividendsErrorCode::ExceededNumNodes);
        },
    };
    if new_nodes > distributor.num_nodes {
        return Err(DividendsErrorCode::ExceededNumNodes);
    }
    distributor.total_amount_claimed = new_total;
    distributor.num_nodes_claimed = new_nodes;
    Ok(())
}

/// The error `claim` returns, or `None` when the claim goes through, with
/// the checks in the order they are made.
pub open spec fn claim_err(
    d: MerkleDistributor,
    cs: ClaimStatus,
    from: Seq<u8>,
    to: Seq<u8>,
    to_owner: Seq<u8>,
    claimant: Seq<u8>,
    claimant_is_signer: bool,
    index: u64,
    amount: u64,
    proof: Seq<Seq<u8>>,
) -> Option<DividendsErrorCode> {
    if from == to {
        Some(DividendsErrorCode::KeysMustNotMatch)
    } else if cs.claimed || cs.claimed_at != 0 {
        Some(DividendsErrorCode::DropAlreadyClaimed)
    } else if !claimant_is_signer {
        Some(DividendsErrorCode::Unauthorized)
    } else if to_owner != claimant {
        Some(DividendsErrorCode::OwnerMismatch)
    } else if !d.ready_to_claim {
        Some(DividendsErrorCode::DistributorNotReadyToClaim)
    } else if d.paused {
        Some(DividendsErrorCode::DistributionPaused)
    } else if spec_merkle_root(spec_claim_leaf(index, claimant, amount), proof) != d.root@ {
        Some(DividendsErrorCode::InvalidProof)
    } else {
        totals_err(d, amount)
    }
}

/// Claims the entitlement `(index, claimant, amount)` from the distributor:
/// verifies the request (distinct source and destination, an unclaimed
/// status record, the claimant's signature and ownership of the
/// destination, an open and unpaused distributor, the Merkle proof), counts
/// the amount into the running totals, and marks the status record paid to
/// the claimant at `now`.  The host moves the tokens after a successful
/// return.  On any error nothing is changed.
pub fn claim(
    distributor: &mut MerkleDistributor,
    claim_status: &mut ClaimStatus,
    from: &Pubkey,
    to: &Pubkey,
    to_owner: &Pubkey,
    claimant: &Pubkey,
    claimant_is_signer: bool,
    now: i64,
    index: u64,
    amount: u64,
    proof: &Vec<Vec<u8>>,
) -> (result: Result<(), DividendsErrorCode>)
    ensures
        match result {
            Ok(()) => {
                &&& claim_err(
                    *old(distributor),
                    *old(claim_status),
                    from@,
                    to@,
                    to_owner@,
                    claimant@,
                    claimant_is_signer,
                    index,
                    amount,
                    seq_views(proof@),
                ) is None
                &&& *final(distributor) == distributor_after_claim(*old(distributor), amount)
                &&& final(claim_status).claimed == true
                &&& final(claim_status).amount == amount
                &&& final(claim_status).claimed_at == now
                &&& final(claim_status).claimant@ == claimant@
            },
            Err(e) => {
                &&& claim_err(
                    *old(distributor),
                    *old(claim_status),
                    from@,
                    to@,
                    to_owner@,
                    claimant@,
                    claimant_is_signer,
                    index,
                    amount,
                    seq_views(proof@),
                ) == Some(e)
                &&& *final(distributor) == *old(distributor)
                &&& *final(claim_status) == *old(claim_status)
            },
        },
{
    if keys_equal(from, to) {
        return Err(DividendsErrorCode::KeysMustNotMatch);
    }
    if claim_status.claimed || claim_status.claimed_at != 0 {
        return Err(DividendsErrorCode::DropAlreadyClaimed);
    }
    if !claimant_is_signer {
        return Err(DividendsErrorCode::Unauthorized);
    }
    if !keys_equal(to_owner, claimant) {
        return Err(DividendsErrorCode::OwnerMismatch);
    }
    if !distributor.ready_to_claim {
        return Err(DividendsErrorCode::DistributorNotReadyToClaim);
    }
    if distributor.paused {
        return Err(DividendsErrorCode::DistributionPaused);
    }
    verify_merkle_proof(index, claimant, amount, proof, &distributor.root)?;
    update_distributor_after_claim(distributor, amount)?;
    mark_claim_status(claim_status, amount, claimant, now);
    Ok(())
}

/// The error `reclaim_dividends` returns, or `None` when the reclaim goes
/// through, with the checks in the order they are made.  The authority must
/// own its role record and hold `TransferAdmin`, and the destination must
/// belong to the registered reclaimer wallet; the proof speaks for the
/// unclaimed `target` entitlement while the payout is recorded against the
/// authority.
pub open spec fn reclaim_err(
    authority_role: WalletRole,
    authority: Seq<u8>,
    reclaimer_wallet: Seq<u8>,
    d: MerkleDistributor,
    cs: ClaimStatus,
    from: Seq<u8>,
    to: Seq<u8>,
    to_owner: Seq<u8>,
    target: Seq<u8>,
    index: u64,
    amount: u64,
    proof: Seq<Seq<u8>>,
) -> Option<DividendsErrorCode> {
    if authority_role.owner@ != authority || authority_role.role
        & Roles::TransferAdmin.spec_value() == 0 {
        Some(DividendsErrorCode::Unauthorized)
    } else if to_owner != reclaimer_wallet {
        Some(DividendsErrorCode::OwnerMismatch)
    } else if from == to {
        Some(DividendsErrorCode::KeysMustNotMatch)
    } else if cs.claimed || cs.claimed_at != 0 {
        Some(DividendsErrorCode::DropAlreadyClaimed)
    } else if !d.ready_to_claim {
        Some(DividendsErrorCode::DistributorNotReadyToClaim)
    } else if spec_merkle_root(spec_claim_leaf(index, target, amount), proof) != d.root@ {
        Some(DividendsErrorCode::InvalidProof)
    } else {
        totals_err(d, amount)
    }
}

/// Reclaims the unclaimed entitlement `(index, target, amount)` and records
/// the payout against the reclaiming authority: the caller must own its
/// role record and hold `TransferAdmin`, and the destination must belong to
/// the registered reclaimer wallet; otherwise the checks, the totals and
/// the status marking are those of `claim`.  The host moves the tokens
/// after a successful return.  On any error nothing is changed.
pub fn reclaim_dividends(
    authority_wallet_role: &WalletRole,
    reclaimer: &Reclaimer,
    distributor: &mut MerkleDistributor,
    claim_status: &mut ClaimStatus,
    from: &Pubkey,
    to: &Pubkey,
    to_owner: &Pubkey,
    target: &Pubkey,
    authority: &Pubkey,
    now: i64,
    index: u64,
    amount: u64,
    proof: &Vec<Vec<u8>>,
) -> (result: Result<(), DividendsErrorCode>)
    ensures
        match result {
            Ok(()) => {
                &&& reclaim_err(
                    *authority_wallet_role,
                    authority@,
                    reclaimer.wallet_address@,
                    *old(distributor),
                    *old(claim_status),
                    from@,
                    to@,
                    to_owner@,
                    target@,
                    index,
                    amount,
                    seq_views(proof@),
                ) is None
                &&& *final(distributor) == distributor_after_claim(*old(distributor), amount)
                &&& final(claim_status).claimed == true
                &&& final(claim_status).amount == amount
                &&& final(claim_status).claimed_at == now
                &&& final(claim_status).claimant@ == authority@
            },
            Err(e) => {
                &&& reclaim_err(
                    *authority_wallet_role,
                    authority@,
                    reclaimer.wallet_address@,
                    *old(distributor),
                    *old(claim_status),
                    from@,
                    to@,
                    to_owner@,
                    target@,
                    index,
                    amount,
                    seq_views(proof@),
                ) == Some(e)
                &&& *final(distributor) == *old(distributor)
                &&& *final(claim_status) == *old(claim_status)
            },
        },
{
    if !keys_equal(&authority_wallet_role.owner, authority) || !authority_wallet_role.has_any_role(
        Roles::TransferAdmin.value(),
    ) {
        return Err(DividendsErrorCode::Unauthorized);
    }
    if !keys_equal(to_owner, &reclaimer.wallet_address) {
        return Err(DividendsErrorCode::OwnerMismatch);
    }
    if keys_equal(from, to) {
        return Err(DividendsErrorCode::KeysMustNotMatch);
    }
    if claim_status.claimed || claim_status.claimed_at != 0 {
        return Err(DividendsErrorCode::DropAlreadyClaimed);
    }
    if !distributor.ready_to_claim {
        return Err(DividendsErrorCode::DistributorNotReadyToClaim);
    }
    verify_merkle_proof(index, target, amount, proof, &distributor.root)?;
    update_distributor_after_claim(distributor, amount)?;
    mark_claim_status(claim_status, amount, authority, now);
    Ok(())
}

/// Law: a claim that goes through keeps the distributor within its
/// funding: the claimed total stays at or below the funded total, and no
/// more leaves are counted than the tree has.
pub proof fn lemma_distributor_totals_invariant(d: MerkleDistributor, amount: u64)
    requires
        totals_err(d, amount) is None,
    ensures
        distributor_after_claim(d, amount).total_amount_claimed <= d.total_claim_amount,
        distributor_after_claim(d, amount).num_nodes_claimed <= d.num_nodes,
{
}

/// Law: a paid leaf stays paid.  Once a claim went through and its status
/// record is marked, any further claim presented with that record — under
/// any later distributor state, amount or proof — fails `DropAlreadyClaimed`,
/// as long as the request is not already rejected for equal source and
/// destination accounts.
pub proof fn lemma_claim_replay(
    d: MerkleDistributor,
    cs: ClaimStatus,
    from: Seq<u8>,
    to: Seq<u8>,
    to_owner: Seq<u8>,
    claimant: Seq<u8>,
    claimant_is_signer: bool,
    index: u64,
    amount: u64,
    proof: Seq<Seq<u8>>,
    cs_marked: ClaimStatus,
    d2: MerkleDistributor,
    from2: Seq<u8>,
    to2: Seq<u8>,
    to_owner2: Seq<u8>,
    claimant2: Seq<u8>,
    claimant_is_signer2: bool,
    amount2: u64,
    proof2: Seq<Seq<u8>>,
)
    requires
        claim_err(d, cs, from, to, to_owner, claimant, claimant_is_signer, index, amount, proof)
            is None,
        cs_marked.claimed == true,
        from2 != to2,
    ensures
        claim_err(
            d2,
            cs_marked,
            from2,
            to2,
            to_owner2,
            claimant2,
            claimant_is_signer2,
            index,
            amount2,
            proof2,
        ) == Some(DividendsErrorCode::DropAlreadyClaimed),
{
}

/// The distributor after a sequence of attempted claims, each counted only
/// when its totals check passes.
pub open spec fn apply_claim_amounts(d: MerkleDistributor, amounts: Seq<u64>) -> MerkleDistributor
    decreases amounts.len(),
{
    if amounts.len() == 0 {
        d
    } else {
        let d1 = if totals_err(d, amounts[0]) is None {
            distributor_after_claim(d, amounts[0])
        } else {
            d
        };
        apply_claim_amounts(d1, amounts.skip(1))
    }
}

/// The sum of the amounts of the attempts in `amounts` whose totals check
/// passes, attempted in order against `d`.
pub open spec fn successful_claim_sum(d: MerkleDistributor, amounts: Seq<u64>) -> int
    decreases amounts.len(),
{
    if amounts.len() == 0 {
        0
    } else if totals_err(d, amounts[0]) is None {
        amounts[0] + successful_claim_sum(distributor_after_claim(d, amounts[0]), amounts.skip(1))
    } else {
        successful_claim_sum(d, amounts.skip(1))
    }
}

/// Law: the running totals bound every payout.  Over any sequence of
/// attempted claims and reclaims, the amounts of the successful ones add up
/// to exactly the growth of `total_amount_claimed`, and that total never
/// passes the funded `total_claim_amount` — an attempt that would pass it
/// fails and changes nothing.
pub proof fn lemma_totals_bound(d: MerkleDistributor, amounts: Seq<u64>)
    requires
        d.total_amount_claimed <= d.total_claim_amount,
    ensures
        apply_claim_amounts(d, amounts).total_amount_claimed == d.total_amount_claimed
            + successful_claim_sum(d, amounts),
        d.total_amount_claimed + successful_claim_sum(d, amounts) <= d.total_claim_amount,
        apply_claim_amounts(d, amounts).total_claim_amount == d.total_claim_amount,
    decreases amounts.len(),
{
    if amounts.len() > 0 {
        if totals_err(d, amounts[0]) is None {
            lemma_totals_bound(distributor_after_claim(d, amounts[0]), amounts.skip(1));
        } else {
            lemma_totals_bound(d, amounts.skip(1));
        }
    }
}

} // verus!
