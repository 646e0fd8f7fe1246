//! Mint authorization for the regulated asset.
//!
//! Minting is gated on the `ReserveAdmin` role and on the configured
//! maximum total supply, and the destination must carry an initialised
//! security-associated account — unless it is the lockup escrow, which is
//! exempt.  The mint itself, like the address derivation behind
//! `expected_security_associated_account`, is the host's business.

use vstd::prelude::*;

use crate::errors::AccessControlError;
use crate::keys::{keys_equal, Pubkey};
use crate::roles::{Roles, WalletRole};

verus! {

/// The error `mint_securities` returns, or `None` when the mint is
/// authorized (in mathematical arithmetic, so a supply that would not even
/// fit the counter is over the maximum too).
pub open spec fn mint_err(
    authority: WalletRole,
    supply: u64,
    max_total_supply: u64,
    amount: u64,
) -> Option<AccessControlError> {
    if authority.role & Roles::ReserveAdmin.spec_value() != Roles::ReserveAdmin.spec_value() {
        Some(AccessControlError::Unauthorized)
    } else if supply + amount > max_total_supply {
        Some(AccessControlError::MintExceedsMaxTotalSupply)
    } else {
        None
    }
}

/// Authorizes minting `amount` onto a supply of `supply`: the caller must
/// hold `ReserveAdmin` and the new supply must stay within
/// `max_total_supply`.  Returns the new supply for the host to mint to.
pub fn mint_securities(
    authority_wallet_role: &WalletRole,
    supply: u64,
    max_total_supply: u64,
    amount: u64,
) -> (result: Result<u64, AccessControlError>)
    ensures
        match result {
            Ok(new_supply) => {
                &&& mint_err(*authority_wallet_role, supply, max_total_supply, amount) is None
                &&& new_supply == supply + amount
            },
            Err(e) => mint_err(*authority_wallet_role, supply, max_total_supply, amount) == Some(
                e,
            ),
        },
{
    if !authority_wallet_role.has_role(Roles::ReserveAdmin) {
        return Err(AccessControlError::Unauthorized);
    }
    let new_supply = match supply.checked_add(amount) {
        Some(s) => s,
        None => {
            return Err(AccessControlError::MintExceedsMaxTotalSupply);
        },
    };
    if new_supply > max_total_supply {
        return Err(AccessControlError::MintExceedsMaxTotalSupply);
    }
    Ok(new_supply)
}

/// The error `validate_security_associated_account` returns, or `None`
/// when the destination may receive minted securities.
pub open spec fn saa_validation_err(
    lockup_escrow_account: Option<Seq<u8>>,
    destination_account: Seq<u8>,
    security_associated_account: Option<Seq<u8>>,
    expected_security_associated_account: Seq<u8>,
    transfer_hook_configured: bool,
    saa_has_data: bool,
) -> Option<AccessControlError> {
    if lockup_escrow_account is Some && lockup_escrow_account->0 == destination_account {
        None
    } else if security_associated_account is None {
        Some(AccessControlError::SecurityAssociatedAccountRequired)
    } else if !transfer_hook_configured {
        Some(AccessControlError::TransferHookNotConfigured)
    } else if security_associated_account->0 != expected_security_associated_account {
        Some(AccessControlError::InvalidSecurityAssociatedAccount)
    } else if !saa_has_data {
        Some(AccessControlError::SecurityAssociatedAccountNotInitialized)
    } else {
        None
    }
}

/// Validates that a mint destination carries the expected, initialised
/// security-associated account: the lockup escrow is exempt; any other
/// destination must present the account at the address the host derived
/// (`expected_security_associated_account`), under a mint whose transfer
/// hook is configured, and the account must hold data.
pub fn validate_security_associated_account(
    lockup_escrow_account: &Option<Pubkey>,
    destination_account: &Pubkey,
    security_associated_account: &Option<Pubkey>,
    expected_security_associated_account: &Pubkey,
    transfer_hook_configured: bool,
    saa_has_data: bool,
) -> (result: Result<(), AccessControlError>)
    ensures
        ({
            let err = saa_validation_err(
                match *lockup_escrow_account {
                    Some(ref k) => Some(k@),
                    None => None,
                },
                destination_account@,
                match *security_associated_account {
                    Some(ref k) => Some(k@),
                    None => None,
                },
                expected_security_associated_account@,
                transfer_hook_configured,
                saa_has_data,
            );
            match result {
                Ok(()) => err is None,
                Err(e) => err == Some(e),
            }
        }),
{
    match lockup_escrow_account {
        Some(escrow) => {
            if keys_equal(escrow, destination_account) {
                return Ok(());
            }
        },
        None => {},
    }
    match security_associated_account {
        Some(saa_key) => {
            if !transfer_hook_configured {
                return Err(AccessControlError::TransferHookNotConfigured);
            }
            if !keys_equal(saa_key, expected_security_associated_account) {
                return Err(AccessControlError::InvalidSecurityAssociatedAccount);
            }
            if !saa_has_data {
                return Err(AccessControlError::SecurityAssociatedAccountNotInitialized);
            }
            Ok(())
        },
        None => Err(AccessControlError::SecurityAssociatedAccountRequired),
    }
}

} // verus!
