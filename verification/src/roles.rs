//! Role-based access control.
//!
//! Each wallet holds, per access-control scope, a bitmask of up to four
//! granted roles.  The mask makes "holds all of these roles" and "holds any
//! of these roles" single bitwise tests, and multi-role grants a single OR.
//! `All` is the union of the four defined bits; it serves as the upper bound
//! a requested mask is validated against and is never a fifth role.

use vstd::prelude::*;

use crate::errors::AccessControlError;
use crate::keys::{clone_key, Pubkey};

verus! {

/// The named roles, each standing for one bit of the mask, and `All` for
/// the union of the four.
#[derive(Clone, Copy, Debug, PartialEq, Eq, Structural)]
pub enum Roles {
    ContractAdmin,
    ReserveAdmin,
    WalletsAdmin,
    TransferAdmin,
    All,
}

impl Roles {
    /// The bit (or, for `All`, the union of bits) this role stands for.
    pub open spec fn spec_value(self) -> u8 {
        match self {
            Roles::ContractAdmin => 1,
            Roles::ReserveAdmin => 2,
            Roles::WalletsAdmin => 4,
            Roles::TransferAdmin => 8,
            Roles::All => 15,
        }
    }

    /// Returns the role's bitmask value.
    pub fn value(&self) -> (r: u8)
        ensures
            r == self.spec_value(),
    {
        match self {
            Roles::ContractAdmin => 1,
            Roles::ReserveAdmin => 2,
            Roles::WalletsAdmin => 4,
            Roles::TransferAdmin => 8,
            Roles::All => 15,
        }
    }
}

/// The union of the four defined role bits.
pub const ADMIN_ROLES: u8 = 15;

/// The mask admitting any of `ReserveAdmin`, `TransferAdmin` and
/// `WalletsAdmin`: the roles that may create default security accounts.
pub const SECURITY_ADMIN_ROLES: u8 = 14;

/// The mask admitting either of `TransferAdmin` and `WalletsAdmin`: the
/// roles that may create holders and wallet records and move wallets
/// between groups.
pub const WALLET_GROUP_ADMIN_ROLES: u8 = 12;

/// The combined masks are exactly the unions of the named bits they are
/// documented as.
pub proof fn lemma_role_mask_composition()
    by (bit_vector)
    ensures
        ADMIN_ROLES == 1u8 | 2u8 | 4u8 | 8u8,
        SECURITY_ADMIN_ROLES == 2u8 | 8u8 | 4u8,
        WALLET_GROUP_ADMIN_ROLES == 8u8 | 4u8,
{
}

/// One wallet's granted roles within one access-control scope.
pub struct WalletRole {
    /// The wallet the roles belong to.
    pub owner: Pubkey,
    /// The access-control scope the roles are granted under; empty while
    /// the record is not yet initialised.
    pub access_control: Pubkey,
    /// The granted bitmask; always at most `ADMIN_ROLES`.
    pub role: u8,
}

impl WalletRole {
    /// True when every bit of `role` is granted.
    pub fn has_role(&self, role: Roles) -> (r: bool)
        ensures
            r == (self.role & role.spec_value() == role.spec_value()),
    {
        let bits = role.value();
        self.role & bits == bits
    }

    /// True when at least one bit of `roles` is granted.
    pub fn has_any_role(&self, roles: u8) -> (r: bool)
        ensures
            r == (self.role & roles != 0),
    {
        self.role & roles != 0
    }
}

/// True while the record was never granted anything: it is bound to no
/// access-control scope yet.
pub open spec fn is_new_record(wr: WalletRole) -> bool {
    wr.access_control@.len() == 0
}

/// The roles a record effectively holds: a record not yet initialised
/// holds none, whatever its storage says.
pub open spec fn effective_roles(wr: WalletRole) -> u8 {
    if is_new_record(wr) {
        0
    } else {
        wr.role
    }
}

/// The error `grant_role` returns, or `None` when the grant goes through,
/// with the checks in the order they are made.
pub open spec fn grant_role_err(
    authority: WalletRole,
    wr: WalletRole,
    user_wallet: Seq<u8>,
    access_control: Seq<u8>,
    role: u8,
) -> Option<AccessControlError> {
    if authority.role & Roles::ContractAdmin.spec_value() != Roles::ContractAdmin.spec_value() {
        Some(AccessControlError::Unauthorized)
    } else if role > Roles::All.spec_value() {
        Some(AccessControlError::InvalidRole)
    } else if !is_new_record(wr) && wr.access_control@ != access_control {
        Some(AccessControlError::InvalidAccessControl)
    } else if !is_new_record(wr) && wr.owner@ != user_wallet {
        Some(AccessControlError::InvalidWalletRoleAccountOwner)
    } else if effective_roles(wr) & role == role {
        Some(AccessControlError::AlreadyHasRole)
    } else {
        None
    }
}

/// Grants `role` (a bitmask) to `wallet_role`, on the authority of a
/// `ContractAdmin`.  A record never granted anything is bound to
/// `user_wallet` and `access_control` first; an existing record must
/// already be bound to exactly them.  The grant is strict: if every
/// requested bit is already held the call fails `AlreadyHasRole`.  On any
/// error the record is unchanged.
pub fn grant_role(
    authority_wallet_role: &WalletRole,
    wallet_role: &mut WalletRole,
    user_wallet: &Pubkey,
    access_control: &Pubkey,
    role: u8,
) -> (result: Result<(), AccessControlError>)
    ensures
        match result {
            Ok(()) => {
                &&& grant_role_err(
                    *authority_wallet_role,
                    *old(wallet_role),
                    user_wallet@,
                    access_control@,
                    role,
                ) is None
                &&& final(wallet_role).role == effective_roles(*old(wallet_role)) | role
                &&& final(wallet_role).owner@ == if is_new_record(*old(wallet_role)) {
                    user_wallet@
                } else {
                    old(wallet_role).owner@
                }
                &&& final(wallet_role).access_control@ == if is_new_record(*old(wallet_role)) {
                    access_control@
                } else {
                    old(wallet_role).access_control@
                }
            },
            Err(e) => {
                &&& grant_role_err(
                    *authority_wallet_role,
                    *old(wallet_role),
                    user_wallet@,
                    access_control@,
                    role,
                ) == Some(e)
                &&& *final(wallet_role) == *old(wallet_role)
            },
        },
{
    if !authority_wallet_role.has_role(Roles::ContractAdmin) {
        return Err(AccessControlError::Unauthorized);
    }
    if role > Roles::All.value() {
        return Err(AccessControlError::InvalidRole);
    }
    let is_new = wallet_role.access_control.len() == 0;
    if !is_new {
        if !crate::keys::keys_equal(&wallet_role.access_control, access_control) {
            return Err(AccessControlError::InvalidAccessControl);
        }
        if !crate::keys::keys_equal(&wallet_role.owner, user_wallet) {
            return Err(AccessControlError::InvalidWalletRoleAccountOwner);
        }
    }
    let current: u8 = if is_new { 0 } else { wallet_role.role };
    if current & role == role {
        return Err(AccessControlError::AlreadyHasRole);
    }
    if is_new {
        wallet_role.owner = clone_key(user_wallet);
        wallet_role.access_control = clone_key(access_control);
    }
    wallet_role.role = current | role;
    Ok(())
}

/// The error `revoke_role` returns, or `None` when the revocation goes
/// through, with the checks in the order they are made.
pub open spec fn revoke_role_err(
    authority: WalletRole,
    wr: WalletRole,
    role: u8,
) -> Option<AccessControlError> {
    if authority.role & Roles::ContractAdmin.spec_value() != Roles::ContractAdmin.spec_value() {
        Some(AccessControlError::Unauthorized)
    } else if role > Roles::All.spec_value() {
        Some(AccessControlError::InvalidRole)
    } else if wr.role & role != role {
        Some(AccessControlError::CannotRevokeRole)
    } else {
        None
    }
}

/// Revokes `role` (a bitmask) from `wallet_role`, on the authority of a
/// `ContractAdmin`.  Every requested bit must be held, which makes the XOR
/// clear exactly the requested bits.  On any error the record is unchanged.
pub fn revoke_role(
    authority_wallet_role: &WalletRole,
    wallet_role: &mut WalletRole,
    role: u8,
) -> (result: Result<(), AccessControlError>)
    ensures
        match result {
            Ok(()) => {
                &&& revoke_role_err(*authority_wallet_role, *old(wallet_role), role) is None
                &&& final(wallet_role).role == old(wallet_role).role ^ role
                &&& final(wallet_role).owner@ == old(wallet_role).owner@
                &&& final(wallet_role).access_control@ == old(wallet_role).access_control@
            },
            Err(e) => {
                &&& revoke_role_err(*authority_wallet_role, *old(wallet_role), role) == Some(e)
                &&& *final(wallet_role) == *old(wallet_role)
            },
        },
{
    if !authority_wallet_role.has_role(Roles::ContractAdmin) {
        return Err(AccessControlError::Unauthorized);
    }
    if role > Roles::All.value() {
        return Err(AccessControlError::InvalidRole);
    }
    if wallet_role.role & role != role {
        return Err(AccessControlError::CannotRevokeRole);
    }
    wallet_role.role = wallet_role.role ^ role;
    Ok(())
}

/// Law: the granted mask never leaves the defined bits.  A record whose
/// mask is within `ADMIN_ROLES` keeps that invariant through every
/// successful grant and revocation.
pub proof fn lemma_role_mask_bounded(wr: WalletRole, role: u8)
    requires
        wr.role <= ADMIN_ROLES,
        role <= ADMIN_ROLES,
    ensures
        wr.role | role <= ADMIN_ROLES,
        wr.role ^ role <= ADMIN_ROLES,
        0 | role <= ADMIN_ROLES,
{
    let r = wr.role;
    assert(r | role <= 15 && r ^ role <= 15 && 0 | role <= 15) by (bit_vector)
        requires
            r <= 15u8,
            role <= 15u8,
    ;
}

/// Law: for any two non-empty, disjoint role masks whose union stays within
/// the defined bits, an admin may grant them one after the other to a record
/// that holds neither, and both grants go through; re-granting a mask that
/// is already held fails `AlreadyHasRole`, and revoking a mask that is not
/// held fails `CannotRevokeRole`.
pub proof fn lemma_grant_revoke_roles(authority: WalletRole, wr: WalletRole, r1: u8, r2: u8)
    requires
        authority.role & Roles::ContractAdmin.spec_value() == Roles::ContractAdmin.spec_value(),
        !is_new_record(wr),
        wr.role & (r1 | r2) == 0,
        r1 & r2 == 0,
        r1 | r2 <= Roles::All.spec_value(),
        r1 != 0,
        r2 != 0,
    ensures
        grant_role_err(authority, wr, wr.owner@, wr.access_control@, r1) is None,
        ({
            let wr1 = WalletRole { role: wr.role | r1, ..wr };
            &&& grant_role_err(authority, wr1, wr1.owner@, wr1.access_control@, r2) is None
            &&& grant_role_err(authority, wr1, wr1.owner@, wr1.access_control@, r1) == Some(
                AccessControlError::AlreadyHasRole,
            )
            &&& revoke_role_err(authority, wr1, r2) == Some(AccessControlError::CannotRevokeRole)
        }),
{
    let role = wr.role;
    assert(r1 <= 15 && r2 <= 15) by (bit_vector)
        requires
            r1 | r2 <= 15u8,
    ;
    assert(role & r1 != r1 && (role | r1) & r2 != r2 && (role | r1) & r1 == r1 && (role | r1) & r2
        != r2) by (bit_vector)
        requires
            role & (r1 | r2) == 0u8,
            r1 & r2 == 0u8,
            r1 != 0u8,
            r2 != 0u8,
    ;
}

} // verus!
