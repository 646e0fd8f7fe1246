//! Holder, group and wallet bookkeeping behaviour.

use compliance_core::errors::TransferRestrictionsError;
use compliance_core::restrictions::{
    check_authorization, check_if_group_will_change, initialize_default_security_accounts,
    initialize_holder, initialize_holder_group, initialize_security_associated_account,
    initialize_transfer_rule, set_address_permission, update_wallet_group, HolderGroup,
    SecurityAssociatedAccount, TransferRestrictionData, TransferRestrictionGroup,
    TransferRestrictionHolder, TransferRule,
};
use compliance_core::roles::WalletRole;

fn key(n: u8) -> Vec<u8> {
    vec![n; 32]
}

fn wallets_admin() -> WalletRole {
    WalletRole { owner: key(1), access_control: key(9), role: 4 }
}

fn outsider() -> WalletRole {
    WalletRole { owner: key(1), access_control: key(9), role: 1 }
}

fn scope(max_holders: u64) -> TransferRestrictionData {
    TransferRestrictionData {
        security_token_mint: key(10),
        access_control_account: key(9),
        current_holders_count: 0,
        max_holders,
        holder_ids: 0,
    }
}

fn group(id: u64, max_holders: u32) -> TransferRestrictionGroup {
    TransferRestrictionGroup {
        transfer_restriction_data: key(11),
        id,
        current_holders_count: 0,
        max_holders,
    }
}

fn blank_holder() -> TransferRestrictionHolder {
    TransferRestrictionHolder {
        transfer_restriction_data: Vec::new(),
        id: 0,
        current_wallets_count: 0,
        current_holder_group_count: 0,
        active: false,
    }
}

fn blank_holder_group() -> HolderGroup {
    HolderGroup { holder: Vec::new(), group: 0, current_wallets_count: 0 }
}

fn blank_saa() -> SecurityAssociatedAccount {
    SecurityAssociatedAccount { group: 0, holder: None }
}

#[test]
fn scope_with_room_for_one_holder_rejects_a_second() {
    let admin = wallets_admin();
    let mut data = scope(1);
    let mut h0 = blank_holder();
    assert_eq!(initialize_holder(&admin, &mut data, &mut h0, &key(11), 0), Ok(()));
    assert!(h0.active);
    assert_eq!(data.current_holders_count, 1);
    assert_eq!(data.holder_ids, 1);
    let mut h1 = blank_holder();
    assert_eq!(
        initialize_holder(&admin, &mut data, &mut h1, &key(11), 1),
        Err(TransferRestrictionsError::MaxHoldersReached)
    );
    assert_eq!(data.current_holders_count, 1);
    assert!(!h1.active);
}

#[test]
fn holder_id_must_not_skip_ahead() {
    let admin = wallets_admin();
    let mut data = scope(10);
    let mut holder = blank_holder();
    assert_eq!(
        initialize_holder(&admin, &mut data, &mut holder, &key(11), 3),
        Err(TransferRestrictionsError::InvalidHolderIndex)
    );
}

#[test]
fn recreating_a_reserved_id_does_not_advance_the_counter() {
    let admin = wallets_admin();
    let mut data = scope(10);
    let mut h0 = blank_holder();
    assert_eq!(initialize_holder(&admin, &mut data, &mut h0, &key(11), 0), Ok(()));
    assert_eq!(data.holder_ids, 1);
    let mut h0_again = blank_holder();
    assert_eq!(initialize_holder(&admin, &mut data, &mut h0_again, &key(11), 0), Ok(()));
    assert_eq!(data.holder_ids, 1);
    assert_eq!(data.current_holders_count, 2);
}

#[test]
fn holder_creation_is_gated_on_wallet_roles() {
    let mut data = scope(10);
    let mut holder = blank_holder();
    assert_eq!(
        initialize_holder(&outsider(), &mut data, &mut holder, &key(11), 0),
        Err(TransferRestrictionsError::Unauthorized)
    );
    assert_eq!(check_authorization(&outsider(), 12), Err(TransferRestrictionsError::Unauthorized));
    assert_eq!(check_authorization(&wallets_admin(), 12), Ok(()));
}

#[test]
fn linking_wallets_updates_all_counters() {
    let admin = wallets_admin();
    let mut data = scope(10);
    let mut holder = blank_holder();
    initialize_holder(&admin, &mut data, &mut holder, &key(11), 0).unwrap();
    let mut g = group(2, 0);
    let mut hg = blank_holder_group();
    assert_eq!(
        initialize_holder_group(&admin, &mut hg, &g, &mut holder, &key(20)),
        Ok(())
    );
    assert_eq!(hg.group, 2);
    assert_eq!(hg.holder, key(20));
    assert_eq!(holder.current_holder_group_count, 1);

    let mut saa = blank_saa();
    assert_eq!(
        initialize_security_associated_account(
            &admin, &mut saa, &mut g, &mut hg, &mut holder, &key(20), 2, 0
        ),
        Ok(())
    );
    assert_eq!(saa.group, 2);
    assert_eq!(saa.holder, Some(key(20)));
    assert_eq!(hg.current_wallets_count, 1);
    assert_eq!(g.current_holders_count, 1);
    assert_eq!(holder.current_wallets_count, 1);

    let mut saa2 = blank_saa();
    assert_eq!(
        initialize_security_associated_account(
            &admin, &mut saa2, &mut g, &mut hg, &mut holder, &key(20), 2, 0
        ),
        Ok(())
    );
    assert_eq!(hg.current_wallets_count, 2);
    assert_eq!(g.current_holders_count, 1);
    assert_eq!(holder.current_wallets_count, 2);
}

#[test]
fn a_full_group_rejects_a_new_holder() {
    let admin = wallets_admin();
    let mut g = group(2, 1);
    g.current_holders_count = 1;
    let mut hg = HolderGroup { holder: key(21), group: 2, current_wallets_count: 0 };
    let mut holder = TransferRestrictionHolder {
        transfer_restriction_data: key(11),
        id: 1,
        current_wallets_count: 0,
        current_holder_group_count: 1,
        active: true,
    };
    let mut saa = blank_saa();
    assert_eq!(
        initialize_security_associated_account(
            &admin, &mut saa, &mut g, &mut hg, &mut holder, &key(21), 2, 1
        ),
        Err(TransferRestrictionsError::MaxHoldersReachedInsideTheGroup)
    );
    assert_eq!(g.current_holders_count, 1);
    assert_eq!(hg.current_wallets_count, 0);
    assert_eq!(holder.current_wallets_count, 0);
    assert_eq!(saa.holder, None);
}

#[test]
fn moving_a_wallet_shifts_one_wallet_between_groups() {
    let admin = wallets_admin();
    let mut g1 = group(1, 0);
    g1.current_holders_count = 1;
    let mut g2 = group(2, 0);
    let mut hg1 = HolderGroup { holder: key(20), group: 1, current_wallets_count: 2 };
    let mut hg2 = HolderGroup { holder: key(20), group: 2, current_wallets_count: 0 };
    let mut saa = SecurityAssociatedAccount { group: 1, holder: Some(key(20)) };
    assert_eq!(
        update_wallet_group(
            &admin, &mut g1, &mut g2, &mut hg1, &mut hg2, &mut saa, &key(31), &key(32), &key(41),
            &key(42), 2
        ),
        Ok(())
    );
    assert_eq!(hg1.current_wallets_count, 1);
    assert_eq!(hg2.current_wallets_count, 1);
    assert_eq!(g1.current_holders_count, 1);
    assert_eq!(g2.current_holders_count, 1);
    assert_eq!(saa.group, 2);
    assert_eq!(hg1.current_wallets_count + hg2.current_wallets_count, 2);
}

#[test]
fn moving_the_last_wallet_moves_the_holder() {
    let admin = wallets_admin();
    let mut g1 = group(1, 0);
    g1.current_holders_count = 1;
    let mut g2 = group(2, 0);
    let mut hg1 = HolderGroup { holder: key(20), group: 1, current_wallets_count: 1 };
    let mut hg2 = HolderGroup { holder: key(20), group: 2, current_wallets_count: 0 };
    let mut saa = SecurityAssociatedAccount { group: 1, holder: Some(key(20)) };
    assert_eq!(
        update_wallet_group(
            &admin, &mut g1, &mut g2, &mut hg1, &mut hg2, &mut saa, &key(31), &key(32), &key(41),
            &key(42), 2
        ),
        Ok(())
    );
    assert_eq!(g1.current_holders_count, 0);
    assert_eq!(g2.current_holders_count, 1);
}

#[test]
fn a_move_that_changes_nothing_is_rejected() {
    let admin = wallets_admin();
    let mut g1 = group(1, 0);
    let mut g2 = group(1, 0);
    let mut hg1 = HolderGroup { holder: key(20), group: 1, current_wallets_count: 1 };
    let mut hg2 = HolderGroup { holder: key(20), group: 1, current_wallets_count: 1 };
    assert!(!check_if_group_will_change(&key(31), &key(31), &key(41), &key(41), 1, 1));
    let mut saa = SecurityAssociatedAccount { group: 1, holder: Some(key(20)) };
    assert_eq!(
        update_wallet_group(
            &admin, &mut g1, &mut g2, &mut hg1, &mut hg2, &mut saa, &key(31), &key(31), &key(41),
            &key(41), 1
        ),
        Err(TransferRestrictionsError::NewGroupIsTheSameAsTheCurrentGroup)
    );
}

#[test]
fn default_accounts_creates_holder_record_and_link_in_one_step() {
    let admin = WalletRole { owner: key(1), access_control: key(9), role: 2 };
    let mut data = scope(10);
    let mut holder = blank_holder();
    let mut hg = blank_holder_group();
    let mut g0 = group(0, 0);
    let mut saa = blank_saa();
    assert_eq!(
        initialize_default_security_accounts(
            &admin, &mut data, &mut holder, &mut hg, &mut g0, &mut saa, &key(11), &key(20), 0
        ),
        Ok(())
    );
    assert!(holder.active);
    assert_eq!(data.current_holders_count, 1);
    assert_eq!(holder.current_wallets_count, 1);
    assert_eq!(holder.current_holder_group_count, 1);
    assert_eq!(hg.holder, key(20));
    assert_eq!(hg.current_wallets_count, 1);
    assert_eq!(g0.current_holders_count, 1);
    assert_eq!(saa.group, 0);
    assert_eq!(saa.holder, Some(key(20)));
}

#[test]
fn default_accounts_rejects_a_foreign_holder_group() {
    let admin = WalletRole { owner: key(1), access_control: key(9), role: 2 };
    let mut data = scope(10);
    let mut holder = blank_holder();
    let mut hg = HolderGroup { holder: key(99), group: 0, current_wallets_count: 1 };
    let mut g0 = group(0, 0);
    let mut saa = blank_saa();
    assert_eq!(
        initialize_default_security_accounts(
            &admin, &mut data, &mut holder, &mut hg, &mut g0, &mut saa, &key(11), &key(20), 0
        ),
        Err(TransferRestrictionsError::HolderGroupAlreadyInitialized)
    );
    assert!(!holder.active);
    assert_eq!(data.current_holders_count, 0);
}

#[test]
fn transfer_rule_is_gated_on_transfer_admin() {
    let transfer_admin = WalletRole { owner: key(1), access_control: key(9), role: 8 };
    let mut rule = TransferRule {
        transfer_restriction_data: Vec::new(),
        transfer_group_id_from: 0,
        transfer_group_id_to: 0,
        locked_until: 0,
    };
    assert_eq!(
        initialize_transfer_rule(&transfer_admin, &mut rule, &key(11), 1, 2, 1700000000),
        Ok(())
    );
    assert_eq!(rule.transfer_group_id_from, 1);
    assert_eq!(rule.transfer_group_id_to, 2);
    assert_eq!(rule.locked_until, 1700000000);
    let wallets_only = wallets_admin();
    assert_eq!(
        initialize_transfer_rule(&wallets_only, &mut rule, &key(11), 2, 3, 0),
        Err(TransferRestrictionsError::Unauthorized)
    );
    assert_eq!(rule.transfer_group_id_from, 1);
}

#[test]
fn permission_change_links_a_new_wallet_and_reports_the_freeze_action() {
    let admin = wallets_admin();
    let mut saa = blank_saa();
    let mut holder = TransferRestrictionHolder {
        transfer_restriction_data: key(11),
        id: 0,
        current_wallets_count: 0,
        current_holder_group_count: 1,
        active: true,
    };
    let mut g_new = group(3, 0);
    let mut hg_new = HolderGroup { holder: key(20), group: 3, current_wallets_count: 0 };
    let mut g_cur: Option<TransferRestrictionGroup> = None;
    let mut hg_cur: Option<HolderGroup> = None;
    let action = set_address_permission(
        &admin, &mut saa, &mut holder, &mut g_new, &mut hg_new, &mut g_cur, &mut hg_cur, &key(20),
        &key(30), &key(33), &key(40), &key(43), 3, true, false,
    );
    assert_eq!(action, Ok(Some(true)));
    assert_eq!(saa.group, 3);
    assert_eq!(saa.holder, Some(key(20)));
    assert_eq!(hg_new.current_wallets_count, 1);
    assert_eq!(g_new.current_holders_count, 1);
    assert_eq!(holder.current_wallets_count, 1);
}

#[test]
fn permission_change_on_an_existing_wallet_needs_its_current_group() {
    let admin = wallets_admin();
    let mut saa = SecurityAssociatedAccount { group: 1, holder: Some(key(20)) };
    let mut holder = TransferRestrictionHolder {
        transfer_restriction_data: key(11),
        id: 0,
        current_wallets_count: 1,
        current_holder_group_count: 1,
        active: true,
    };
    let mut g_new = group(3, 0);
    let mut hg_new = HolderGroup { holder: key(20), group: 3, current_wallets_count: 0 };
    let mut g_cur: Option<TransferRestrictionGroup> = None;
    let mut hg_cur: Option<HolderGroup> = None;
    assert_eq!(
        set_address_permission(
            &admin, &mut saa, &mut holder, &mut g_new, &mut hg_new, &mut g_cur, &mut hg_cur,
            &key(20), &key(30), &key(33), &key(40), &key(43), 3, false, false,
        ),
        Err(TransferRestrictionsError::CurrentGroupRequiredForExistingWallet)
    );
}

#[test]
fn permission_change_that_changes_nothing_is_rejected() {
    let admin = wallets_admin();
    let mut saa = SecurityAssociatedAccount { group: 1, holder: Some(key(20)) };
    let mut holder = TransferRestrictionHolder {
        transfer_restriction_data: key(11),
        id: 0,
        current_wallets_count: 1,
        current_holder_group_count: 1,
        active: true,
    };
    let mut g_new = group(1, 0);
    g_new.current_holders_count = 1;
    let mut hg_new = HolderGroup { holder: key(20), group: 1, current_wallets_count: 1 };
    let mut g_cur = Some(TransferRestrictionGroup {
        transfer_restriction_data: key(11),
        id: 1,
        current_holders_count: 1,
        max_holders: 0,
    });
    let mut hg_cur = Some(HolderGroup { holder: key(20), group: 1, current_wallets_count: 1 });
    assert_eq!(
        set_address_permission(
            &admin, &mut saa, &mut holder, &mut g_new, &mut hg_new, &mut g_cur, &mut hg_cur,
            &key(20), &key(30), &key(30), &key(40), &key(40), 1, false, false,
        ),
        Err(TransferRestrictionsError::ValueUnchanged)
    );
}

#[test]
fn permission_change_moves_an_existing_wallet() {
    let admin = wallets_admin();
    let mut saa = SecurityAssociatedAccount { group: 1, holder: Some(key(20)) };
    let mut holder = TransferRestrictionHolder {
        transfer_restriction_data: key(11),
        id: 0,
        current_wallets_count: 1,
        current_holder_group_count: 2,
        active: true,
    };
    let mut g_new = group(3, 0);
    let mut hg_new = HolderGroup { holder: key(20), group: 3, current_wallets_count: 0 };
    let mut g_cur = Some(TransferRestrictionGroup {
        transfer_restriction_data: key(11),
        id: 1,
        current_holders_count: 1,
        max_holders: 0,
    });
    let mut hg_cur = Some(HolderGroup { holder: key(20), group: 1, current_wallets_count: 1 });
    let action = set_address_permission(
        &admin, &mut saa, &mut holder, &mut g_new, &mut hg_new, &mut g_cur, &mut hg_cur, &key(20),
        &key(31), &key(33), &key(41), &key(43), 3, false, false,
    );
    assert_eq!(action, Ok(None));
    assert_eq!(saa.group, 3);
    assert_eq!(hg_new.current_wallets_count, 1);
    assert_eq!(g_new.current_holders_count, 1);
    assert_eq!(hg_cur.as_ref().unwrap().current_wallets_count, 0);
    assert_eq!(g_cur.as_ref().unwrap().current_holders_count, 0);
}

#[test]
fn permission_change_rejects_a_mismatched_holder() {
    let admin = wallets_admin();
    let mut saa = SecurityAssociatedAccount { group: 1, holder: Some(key(20)) };
    let mut holder = TransferRestrictionHolder {
        transfer_restriction_data: key(11),
        id: 0,
        current_wallets_count: 1,
        current_holder_group_count: 1,
        active: true,
    };
    let mut g_new = group(3, 0);
    let mut hg_new = HolderGroup { holder: key(20), group: 3, current_wallets_count: 0 };
    let mut g_cur = Some(group(1, 0));
    let mut hg_cur = Some(HolderGroup { holder: key(20), group: 1, current_wallets_count: 1 });
    assert_eq!(
        set_address_permission(
            &admin, &mut saa, &mut holder, &mut g_new, &mut hg_new, &mut g_cur, &mut hg_cur,
            &key(77), &key(31), &key(33), &key(41), &key(43), 3, false, false,
        ),
        Err(TransferRestrictionsError::InvalidPDA)
    );
}
