//! Mint authorization and destination validation.

use compliance_core::asset::{mint_securities, validate_security_associated_account};
use compliance_core::errors::AccessControlError;
use compliance_core::roles::WalletRole;

fn key(n: u8) -> Vec<u8> {
    vec![n; 32]
}

fn reserve_admin() -> WalletRole {
    WalletRole { owner: key(1), access_control: key(9), role: 2 }
}

#[test]
fn mint_is_gated_and_bounded() {
    assert_eq!(mint_securities(&reserve_admin(), 400, 1000, 600), Ok(1000));
    assert_eq!(
        mint_securities(&reserve_admin(), 400, 1000, 601),
        Err(AccessControlError::MintExceedsMaxTotalSupply)
    );
    assert_eq!(
        mint_securities(&reserve_admin(), u64::MAX, u64::MAX, 1),
        Err(AccessControlError::MintExceedsMaxTotalSupply)
    );
    let transfer_admin = WalletRole { owner: key(1), access_control: key(9), role: 8 };
    assert_eq!(
        mint_securities(&transfer_admin, 0, 1000, 1),
        Err(AccessControlError::Unauthorized)
    );
}

#[test]
fn destination_validation_walks_its_checks_in_order() {
    assert_eq!(
        validate_security_associated_account(&Some(key(7)), &key(7), &None, &key(3), false, false),
        Ok(())
    );
    assert_eq!(
        validate_security_associated_account(&Some(key(7)), &key(8), &None, &key(3), true, true),
        Err(AccessControlError::SecurityAssociatedAccountRequired)
    );
    assert_eq!(
        validate_security_associated_account(&None, &key(8), &Some(key(3)), &key(3), false, true),
        Err(AccessControlError::TransferHookNotConfigured)
    );
    assert_eq!(
        validate_security_associated_account(&None, &key(8), &Some(key(4)), &key(3), true, true),
        Err(AccessControlError::InvalidSecurityAssociatedAccount)
    );
    assert_eq!(
        validate_security_associated_account(&None, &key(8), &Some(key(3)), &key(3), true, false),
        Err(AccessControlError::SecurityAssociatedAccountNotInitialized)
    );
    assert_eq!(
        validate_security_associated_account(&None, &key(8), &Some(key(3)), &key(3), true, true),
        Ok(())
    );
}
