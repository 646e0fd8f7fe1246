//! The reclaimer: the wallet entitled to sweep unclaimed dividends.
//!
//! An admin may assign the wallet directly, but the safe path is a two-phase
//! handover: the admin proposes a wallet, and only a request attested by
//! that very wallet completes the transfer.  A privileged role therefore
//! cannot unilaterally redirect funds to a wallet nobody controls.

use vstd::prelude::*;

use crate::errors::DividendsErrorCode;
use crate::keys::{clone_key, keys_equal, Pubkey};
use crate::roles::{Roles, WalletRole};

verus! {

/// The reclaimer record of one access-control scope.
pub struct Reclaimer {
    /// The wallet that receives reclaimed dividends.
    pub wallet_address: Pubkey,
    /// A proposed new wallet, set by an admin and cleared when the wallet
    /// itself accepts the handover.
    pub proposed_wallet_address: Option<Pubkey>,
}

/// The error `set_reclaimer` returns, or `None` when the assignment goes
/// through.
pub open spec fn set_reclaimer_err(
    authority: WalletRole,
    reclaimer: Reclaimer,
    reclaimer_wallet: Seq<u8>,
) -> Option<DividendsErrorCode> {
    if authority.role & Roles::ContractAdmin.spec_value() == 0 {
        Some(DividendsErrorCode::Unauthorized)
    } else if reclaimer.wallet_address@ == reclaimer_wallet {
        Some(DividendsErrorCode::ValueUnchanged)
    } else {
        None
    }
}

/// Directly assigns the reclaimer wallet; gated on `ContractAdmin` and
/// rejected as `ValueUnchanged` when the wallet is already the assigned
/// one.  On error the record is unchanged.
pub fn set_reclaimer(
    authority_wallet_role: &WalletRole,
    reclaimer: &mut Reclaimer,
    reclaimer_wallet: &Pubkey,
) -> (result: Result<(), DividendsErrorCode>)
    ensures
        match result {
            Ok(()) => {
                &&& set_reclaimer_err(
                    *authority_wallet_role,
                    *old(reclaimer),
                    reclaimer_wallet@,
                ) is None
                &&& final(reclaimer).wallet_address@ == reclaimer_wallet@
                &&& final(reclaimer).proposed_wallet_address == old(
                    reclaimer,
                ).proposed_wallet_address
            },
            Err(e) => {
                &&& set_reclaimer_err(*authority_wallet_role, *old(reclaimer), reclaimer_wallet@)
                    == Some(e)
                &&& *final(reclaimer) == *old(reclaimer)
            },
        },
{
    if !authority_wallet_role.has_any_role(Roles::ContractAdmin.value()) {
        return Err(DividendsErrorCode::Unauthorized);
    }
    if keys_equal(&reclaimer.wallet_address, reclaimer_wallet) {
        return Err(DividendsErrorCode::ValueUnchanged);
    }
    reclaimer.wallet_address = clone_key(reclaimer_wallet);
    Ok(())
}

/// The error `propose_reclaimer` returns, or `None` when the proposal goes
/// through.
pub open spec fn propose_reclaimer_err(
    authority: WalletRole,
    reclaimer: Reclaimer,
    new_reclaimer_wallet: Seq<u8>,
) -> Option<DividendsErrorCode> {
    if authority.role & Roles::ContractAdmin.spec_value() == 0 {
        Some(DividendsErrorCode::Unauthorized)
    } else if reclaimer.wallet_address@ == new_reclaimer_wallet {
        Some(DividendsErrorCode::ValueUnchanged)
    } else {
        None
    }
}

/// Proposes a new reclaimer wallet, to take effect only once that wallet
/// accepts; gated on `ContractAdmin` and rejected as `ValueUnchanged` when
/// the proposed wallet is already the assigned one.  On error the record is
/// unchanged.
pub fn propose_reclaimer(
    authority_wallet_role: &WalletRole,
    reclaimer: &mut Reclaimer,
    new_reclaimer_wallet: &Pubkey,
) -> (result: Result<(), DividendsErrorCode>)
    ensures
        match result {
            Ok(()) => {
                &&& propose_reclaimer_err(
                    *authority_wallet_role,
                    *old(reclaimer),
                    new_reclaimer_wallet@,
                ) is None
                &&& final(reclaimer).wallet_address@ == old(reclaimer).wallet_address@
                &&& final(reclaimer).proposed_wallet_address is Some
                &&& final(reclaimer).proposed_wallet_address->0@ == new_reclaimer_wallet@
            },
            Err(e) => {
                &&& propose_reclaimer_err(
                    *authority_wallet_role,
                    *old(reclaimer),
                    new_reclaimer_wallet@,
                ) == Some(e)
                &&& *final(reclaimer) == *old(reclaimer)
            },
        },
{
    if !authority_wallet_role.has_any_role(Roles::ContractAdmin.value()) {
        return Err(DividendsErrorCode::Unauthorized);
    }
    if keys_equal(&reclaimer.wallet_address, new_reclaimer_wallet) {
        return Err(DividendsErrorCode::ValueUnchanged);
    }
    reclaimer.proposed_wallet_address = Some(clone_key(new_reclaimer_wallet));
    Ok(())
}

/// The error `accept_reclaimer_ownership` returns, or `None` when the
/// handover completes.
pub open spec fn accept_reclaimer_err(reclaimer: Reclaimer, new_owner: Seq<u8>) -> Option<
    DividendsErrorCode,
> {
    if reclaimer.proposed_wallet_address is None {
        Some(DividendsErrorCode::NoPendingOwnershipTransfer)
    } else if new_owner != reclaimer.proposed_wallet_address->0@ {
        Some(DividendsErrorCode::UnauthorizedOwnershipTransfer)
    } else {
        None
    }
}

/// Completes a proposed handover: only a request attested by exactly the
/// proposed wallet may turn it into the reclaimer, and the pending proposal
/// is cleared.  On error the record is unchanged.
pub fn accept_reclaimer_ownership(reclaimer: &mut Reclaimer, new_owner: &Pubkey) -> (result: Result<
    (),
    DividendsErrorCode,
>)
    ensures
        match result {
            Ok(()) => {
                &&& accept_reclaimer_err(*old(reclaimer), new_owner@) is None
                &&& final(reclaimer).wallet_address@ == old(
                    reclaimer,
                ).proposed_wallet_address->0@
                &&& final(reclaimer).proposed_wallet_address is None
            },
            Err(e) => {
                &&& accept_reclaimer_err(*old(reclaimer), new_owner@) == Some(e)
                &&& *final(reclaimer) == *old(reclaimer)
            },
        },
{
    match reclaimer.proposed_wallet_address.take() {
        None => Err(DividendsErrorCode::NoPendingOwnershipTransfer),
        Some(proposed) => {
            if !keys_equal(new_owner, &proposed) {
                reclaimer.proposed_wallet_address = Some(proposed);
                return Err(DividendsErrorCode::UnauthorizedOwnershipTransfer);
            }
            reclaimer.wallet_address = proposed;
            Ok(())
        },
    }
}

} // verus!
