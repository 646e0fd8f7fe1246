//! Error codes returned by the library's operations.
//!
//! Every error is reported synchronously and an operation that errs leaves
//! all of its accounts unchanged; the contracts of the operations say, input
//! by input, which code comes back.

use vstd::prelude::*;

verus! {

/// Errors of the access-control operations (role grants, revocations and
/// mint authorization).
#[derive(Clone, Copy, Debug, PartialEq, Eq, Structural)]
pub enum AccessControlError {
    /// The acting wallet lacks the role the operation demands.
    Unauthorized,
    /// A role mask above the union of the four defined bits.
    InvalidRole,
    /// The wallet-role record belongs to another access-control scope.
    InvalidAccessControl,
    /// The wallet-role record belongs to another wallet.
    InvalidWalletRoleAccountOwner,
    /// Every requested role bit is already held.
    AlreadyHasRole,
    /// A requested role bit is not held, so it cannot be revoked.
    CannotRevokeRole,
    /// Minting would push the supply above the configured maximum.
    MintExceedsMaxTotalSupply,
    /// The mint's transfer hook is not configured.
    TransferHookNotConfigured,
    /// The provided security associated account is not the expected one.
    InvalidSecurityAssociatedAccount,
    /// The security associated account exists but holds no data yet.
    SecurityAssociatedAccountNotInitialized,
    /// A security associated account is required for this destination.
    SecurityAssociatedAccountRequired,
}

/// Errors of the holder / group / wallet bookkeeping operations.
#[derive(Clone, Copy, Debug, PartialEq, Eq, Structural)]
pub enum TransferRestrictionsError {
    /// The acting wallet holds none of the admitted roles.
    Unauthorized,
    /// A holder id beyond the scope's next unassigned id.
    InvalidHolderIndex,
    /// The scope already has as many holders as it admits.
    MaxHoldersReached,
    /// The target group already has as many holders as it admits.
    MaxHoldersReachedInsideTheGroup,
    /// The holder-group record is already bound to another holder.
    HolderGroupAlreadyInitialized,
    /// An existing wallet's move needs its current group accounts.
    CurrentGroupRequiredForExistingWallet,
    /// An account does not belong to the entity it was presented for.
    InvalidPDA,
    /// The requested change would change nothing.
    ValueUnchanged,
    /// The requested group equals the wallet's current group.
    NewGroupIsTheSameAsTheCurrentGroup,
}

/// Errors of the dividend distributor and its reclaimer handover.
#[derive(Clone, Copy, Debug, PartialEq, Eq, Structural)]
pub enum DividendsErrorCode {
    /// The Merkle proof does not recombine to the committed root.
    InvalidProof,
    /// This leaf of the distribution was already claimed.
    DropAlreadyClaimed,
    /// Source and destination token accounts must differ.
    KeysMustNotMatch,
    /// The request lacks the signature or role it needs.
    Unauthorized,
    /// The destination account's owner is not the admitted wallet.
    OwnerMismatch,
    /// The distributor has not been funded and released for claims.
    DistributorNotReadyToClaim,
    /// Claims are paused.
    DistributionPaused,
    /// The claim would push the claimed total above the funded total.
    ExceededMaxClaim,
    /// The claim would mark more leaves than the tree has.
    ExceededNumNodes,
    /// The requested change would change nothing.
    ValueUnchanged,
    /// No reclaimer handover is pending.
    NoPendingOwnershipTransfer,
    /// Only the proposed wallet itself may accept the handover.
    UnauthorizedOwnershipTransfer,
}

} // verus!
