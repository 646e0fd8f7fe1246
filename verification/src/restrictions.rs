//! The holder / group / holder-group / security-associated-account graph.
//!
//! A transfer-restriction scope (one regulated asset) owns a set of holders
//! and a set of compliance groups.  A holder-group record counts how many of
//! one holder's wallets sit in one group, and each token account carries a
//! security-associated-account record linking it to its holder and group.
//! The scope, the groups and the holders carry denormalized counters, kept
//! consistent with every mutation; `crate::graph_laws` states and proves the
//! consistency laws the contracts here imply.
//!
//! Every operation applies all of its updates or none: an operation that
//! returns an error leaves every account exactly as it was.

use vstd::prelude::*;

use crate::errors::TransferRestrictionsError;
use crate::keys::{clone_key, keys_equal, Pubkey};
use crate::roles::{Roles, WalletRole, SECURITY_ADMIN_ROLES, WALLET_GROUP_ADMIN_ROLES};

verus! {

/// One transfer-restriction scope: the per-asset record that counts its
/// holders and hands out holder ids.
pub struct TransferRestrictionData {
    /// The mint of the regulated asset.
    pub security_token_mint: Pubkey,
    /// The access-control scope whose roles gate mutations here.
    pub access_control_account: Pubkey,
    /// How many holders currently exist in the scope.
    pub current_holders_count: u64,
    /// How many holders the scope admits.
    pub max_holders: u64,
    /// The next unassigned holder id; ids at or below it may be (re)used.
    pub holder_ids: u64,
}

/// One compliance group of a scope.
pub struct TransferRestrictionGroup {
    /// The scope the group belongs to.
    pub transfer_restriction_data: Pubkey,
    /// The group's id; group 0 is the default, unrestricted group.
    pub id: u64,
    /// How many holders currently have a wallet in the group.
    pub current_holders_count: u32,
    /// How many holders the group admits; 0 means unlimited.
    pub max_holders: u32,
}

/// One legal owner within a scope, potentially controlling several wallets.
pub struct TransferRestrictionHolder {
    /// The scope the holder belongs to.
    pub transfer_restriction_data: Pubkey,
    /// The holder's scope-assigned id.
    pub id: u64,
    /// How many wallets the holder currently has, over all groups.
    pub current_wallets_count: u32,
    /// How many holder-group records the holder currently has.
    pub current_holder_group_count: u32,
    /// Whether the holder was created; a holder is never deactivated.
    pub active: bool,
}

/// The join record of one holder and one group: counts the holder's
/// wallets currently sitting in that group.
pub struct HolderGroup {
    /// The holder the record belongs to (its account address).
    pub holder: Pubkey,
    /// The group's id.
    pub group: u64,
    /// How many of the holder's wallets sit in the group.
    pub current_wallets_count: u32,
}

/// The per-token-account compliance record: which group the account's
/// balance sits in, and which holder it belongs to.  `holder == None`
/// denotes a wallet not yet linked to any holder.
pub struct SecurityAssociatedAccount {
    /// The group the account currently sits in.
    pub group: u64,
    /// The holder the account belongs to, once linked.
    pub holder: Option<Pubkey>,
}

/// A time gate on transfers from one group to another.
pub struct TransferRule {
    /// The scope the rule belongs to.
    pub transfer_restriction_data: Pubkey,
    /// The group a transfer leaves.
    pub transfer_group_id_from: u64,
    /// The group a transfer enters.
    pub transfer_group_id_to: u64,
    /// Transfers are permitted only at or after this unix time.
    pub locked_until: u64,
}

/// Fails `Unauthorized` unless the wallet holds at least one of the
/// admitted roles.
pub fn check_authorization(wallet_role: &WalletRole, allowed_roles: u8) -> (result: Result<
    (),
    TransferRestrictionsError,
>)
    ensures
        result is Ok <==> wallet_role.role & allowed_roles != 0,
        result is Err ==> result->Err_0 == TransferRestrictionsError::Unauthorized,
{
    if !wallet_role.has_any_role(allowed_roles) {
        return Err(TransferRestrictionsError::Unauthorized);
    }
    Ok(())
}

/// The error a holder creation returns, or `None` when it goes through:
/// the id must not skip ahead of the scope's next id, and the scope must
/// have room for one more holder.
pub open spec fn new_holder_err(data: TransferRestrictionData, holder_id: u64) -> Option<
    TransferRestrictionsError,
> {
    if data.holder_ids < holder_id {
        Some(TransferRestrictionsError::InvalidHolderIndex)
    } else if data.current_holders_count >= data.max_holders {
        Some(TransferRestrictionsError::MaxHoldersReached)
    } else {
        None
    }
}

/// Law: a full scope admits no further holder.  Whatever the rest of the
/// scope's state, a holder creation with an admissible id fails
/// `MaxHoldersReached` whenever as many holders exist as the scope admits.
pub proof fn lemma_holder_capacity(data: TransferRestrictionData, holder_id: u64)
    requires
        data.current_holders_count >= data.max_holders,
        holder_id <= data.holder_ids,
    ensures
        new_holder_err(data, holder_id) == Some(TransferRestrictionsError::MaxHoldersReached),
{
}

/// Law: the scope's holder count never passes its bound.  A creation that
/// goes through starts from a scope below its bound, so the scope stays at
/// or below it afterwards.
pub proof fn lemma_scope_capacity_invariant(data: TransferRestrictionData, holder_id: u64)
    requires
        new_holder_err(data, holder_id) is None,
    ensures
        data_after_holder_creation(data, holder_id).current_holders_count <= data.max_holders,
{
}

/// The scope record after a holder was created: one more holder, and the
/// next-id counter advanced only when the new holder took exactly that id,
/// so re-creating an already reserved id never advances it twice.
pub open spec fn data_after_holder_creation(
    data: TransferRestrictionData,
    holder_id: u64,
) -> TransferRestrictionData {
    TransferRestrictionData {
        current_holders_count: (data.current_holders_count + 1) as u64,
        holder_ids: if data.holder_ids == holder_id {
            (data.holder_ids + 1) as u64
        } else {
            data.holder_ids
        },
        ..data
    }
}

/// True when `holder` is the freshly created holder record of `data_key`
/// with id `holder_id`: active, with no wallets and no holder-group
/// records yet.
pub open spec fn is_fresh_holder(
    holder: TransferRestrictionHolder,
    data_key: Seq<u8>,
    holder_id: u64,
) -> bool {
    &&& holder.transfer_restriction_data@ == data_key
    &&& holder.id == holder_id
    &&& holder.current_wallets_count == 0
    &&& holder.current_holder_group_count == 0
    &&& holder.active == true
}

/// Writes the fields of a freshly created holder, after checking that the
/// requested id does not skip ahead of the scope's next id.  On error the
/// holder record is unchanged.
pub fn initialize_holder_fields(
    holder: &mut TransferRestrictionHolder,
    transfer_restriction_data: &TransferRestrictionData,
    transfer_restriction_data_key: &Pubkey,
    holder_id: u64,
) -> (result: Result<(), TransferRestrictionsError>)
    ensures
        match result {
            Ok(()) => {
                &&& transfer_restriction_data.holder_ids >= holder_id
                &&& is_fresh_holder(
                    *final(holder),
                    transfer_restriction_data_key@,
                    holder_id,
                )
            },
            Err(e) => {
                &&& transfer_restriction_data.holder_ids < holder_id
                &&& e == TransferRestrictionsError::InvalidHolderIndex
                &&& *final(holder) == *old(holder)
            },
        },
{
    if transfer_restriction_data.holder_ids < holder_id {
        return Err(TransferRestrictionsError::InvalidHolderIndex);
    }
    holder.transfer_restriction_data = clone_key(transfer_restriction_data_key);
    holder.id = holder_id;
    holder.current_wallets_count = 0;
    holder.current_holder_group_count = 0;
    holder.active = true;
    Ok(())
}

/// Counts the new holder into the scope: fails `MaxHoldersReached` when the
/// scope is full, otherwise increments the holder count and advances the
/// next-id counter only if `holder_id` equals it.  On error the scope
/// record is unchanged.
pub fn update_transfer_restriction_data_after_holder_creation(
    transfer_restriction_data: &mut TransferRestrictionData,
    holder_id: u64,
) -> (result: Result<(), TransferRestrictionsError>)
    requires
        (old(transfer_restriction_data).current_holders_count < old(
            transfer_restriction_data,
        ).max_holders && old(transfer_restriction_data).holder_ids == holder_id) ==> holder_id
            < u64::MAX,
    ensures
        match result {
            Ok(()) => {
                &&& old(transfer_restriction_data).current_holders_count < old(
                    transfer_restriction_data,
                ).max_holders
                &&& *final(transfer_restriction_data) == data_after_holder_creation(
                    *old(transfer_restriction_data),
                    holder_id,
                )
            },
            Err(e) => {
                &&& old(transfer_restriction_data).current_holders_count >= old(
                    transfer_restriction_data,
                ).max_holders
                &&& e == TransferRestrictionsError::MaxHoldersReached
                &&& *final(transfer_restriction_data) == *old(transfer_restriction_data)
            },
        },
{
    if transfer_restriction_data.current_holders_count >= transfer_restriction_data.max_holders {
        return Err(TransferRestrictionsError::MaxHoldersReached);
    }
    transfer_restriction_data.current_holders_count = transfer_restriction_data.current_holders_count
        + 1;
    if transfer_restriction_data.holder_ids == holder_id {
        transfer_restriction_data.holder_ids = transfer_restriction_data.holder_ids + 1;
    }
    Ok(())
}

/// Creates a holder: checks the id, counts it into the scope and writes the
/// holder record.  On any error both records are unchanged.
pub fn initialize_new_holder(
    holder: &mut TransferRestrictionHolder,
    transfer_restriction_data: &mut TransferRestrictionData,
    transfer_restriction_data_key: &Pubkey,
    holder_id: u64,
) -> (result: Result<(), TransferRestrictionsError>)
    requires
        new_holder_err(*old(transfer_restriction_data), holder_id) is None ==> (old(
            transfer_restriction_data,
        ).holder_ids == holder_id ==> holder_id < u64::MAX),
    ensures
        match result {
            Ok(()) => {
                &&& new_holder_err(*old(transfer_restriction_data), holder_id) is None
                &&& *final(transfer_restriction_data) == data_after_holder_creation(
                    *old(transfer_restriction_data),
                    holder_id,
                )
                &&& is_fresh_holder(
                    *final(holder),
                    transfer_restriction_data_key@,
                    holder_id,
                )
            },
            Err(e) => {
                &&& new_holder_err(*old(transfer_restriction_data), holder_id) == Some(e)
                &&& *final(transfer_restriction_data) == *old(transfer_restriction_data)
                &&& *final(holder) == *old(holder)
            },
        },
{
    if transfer_restriction_data.holder_ids < holder_id {
        return Err(TransferRestrictionsError::InvalidHolderIndex);
    }
    update_transfer_restriction_data_after_holder_creation(transfer_restriction_data, holder_id)?;
    initialize_holder_fields(
        holder,
        transfer_restriction_data,
        transfer_restriction_data_key,
        holder_id,
    )?;
    Ok(())
}

/// Writes the fields of a freshly created holder-group record for `group`:
/// it belongs to the holder at `holder_key` and counts no wallets yet.
pub fn initialize_holder_group_fields(
    holder_group: &mut HolderGroup,
    group: &TransferRestrictionGroup,
    holder_key: &Pubkey,
)
    ensures
        final(holder_group).group == group.id,
        final(holder_group).holder@ == holder_key@,
        final(holder_group).current_wallets_count == 0,
{
    holder_group.group = group.id;
    holder_group.holder = clone_key(holder_key);
    holder_group.current_wallets_count = 0;
}

/// Counts one more holder-group record onto the holder.
pub fn increment_holder_group_count(holder: &mut TransferRestrictionHolder)
    requires
        old(holder).current_holder_group_count < u32::MAX,
    ensures
        *final(holder) == (TransferRestrictionHolder {
            current_holder_group_count: (old(holder).current_holder_group_count + 1) as u32,
            ..*old(holder)
        }),
{
    holder.current_holder_group_count = holder.current_holder_group_count + 1;
}

/// The group's holder count once one more wallet lands in `hg`: the holder
/// joins the group exactly when this is its first wallet there.
pub open spec fn group_count_after_link(group: TransferRestrictionGroup, hg: HolderGroup) -> int {
    if hg.current_wallets_count == 0 {
        group.current_holders_count + 1
    } else {
        group.current_holders_count as int
    }
}

/// The error a link returns, or `None` when it goes through: the group's
/// holder count, after the holder joined if it did, must not pass the
/// group's bound (0 meaning unlimited).
pub open spec fn link_err(group: TransferRestrictionGroup, hg: HolderGroup) -> Option<
    TransferRestrictionsError,
> {
    if group_count_after_link(group, hg) > group.max_holders && group.max_holders != 0 {
        Some(TransferRestrictionsError::MaxHoldersReachedInsideTheGroup)
    } else {
        None
    }
}

/// Links a wallet's security-associated account to `holder` inside group
/// `group_id`: the account is bound to the holder and the group, the
/// holder-group's and holder's wallet counts rise by one, and the group's
/// holder count rises by one exactly when this is the holder's first wallet
/// in the group — validated against the group's bound.  On error nothing
/// is changed.
pub fn initialize_security_associated_account_fields(
    security_associated_account: &mut SecurityAssociatedAccount,
    group: &mut TransferRestrictionGroup,
    holder_group: &mut HolderGroup,
    holder: &mut TransferRestrictionHolder,
    holder_key: &Pubkey,
    group_id: u64,
) -> (result: Result<(), TransferRestrictionsError>)
    requires
        old(holder_group).current_wallets_count == 0 ==> old(group).current_holders_count
            < u32::MAX,
        link_err(*old(group), *old(holder_group)) is None ==> {
            &&& old(holder_group).current_wallets_count < u32::MAX
            &&& old(holder).current_wallets_count < u32::MAX
        },
    ensures
        match result {
            Ok(()) => {
                &&& link_err(*old(group), *old(holder_group)) is None
                &&& final(security_associated_account).group == group_id
                &&& final(security_associated_account).holder is Some
                &&& final(security_associated_account).holder->0@ == holder_key@
                &&& *final(holder_group) == HolderGroup {
                    current_wallets_count: (old(holder_group).current_wallets_count + 1) as u32,
                    ..*old(holder_group)
                }
                &&& *final(group) == TransferRestrictionGroup {
                    current_holders_count: group_count_after_link(
                        *old(group),
                        *old(holder_group),
                    ) as u32,
                    ..*old(group)
                }
                &&& *final(holder) == TransferRestrictionHolder {
                    current_wallets_count: (old(holder).current_wallets_count + 1) as u32,
                    ..*old(holder)
                }
            },
            Err(e) => {
                &&& link_err(*old(group), *old(holder_group)) == Some(e)
                &&& *final(security_associated_account) == *old(security_associated_account)
                &&& *final(group) == *old(group)
                &&& *final(holder_group) == *old(holder_group)
                &&& *final(holder) == *old(holder)
            },
        },
{
    let new_group_count: u32 = if holder_group.current_wallets_count == 0 {
        group.current_holders_count + 1
    } else {
        group.current_holders_count
    };
    if new_group_count > group.max_holders && group.max_holders != 0 {
        return Err(TransferRestrictionsError::MaxHoldersReachedInsideTheGroup);
    }
    security_associated_account.group = group_id;
    security_associated_account.holder = Some(clone_key(holder_key));
    holder_group.current_wallets_count = holder_group.current_wallets_count + 1;
    group.current_holders_count = new_group_count;
    holder.current_wallets_count = holder.current_wallets_count + 1;
    Ok(())
}

/// True when the identity of (group, holder-group, holder-group's group)
/// differs between the wallet's current location and the requested one: the
/// test a group move is gated on.
pub open spec fn group_will_change(
    group_current_key: Seq<u8>,
    group_new_key: Seq<u8>,
    holder_group_current_key: Seq<u8>,
    holder_group_new_key: Seq<u8>,
    holder_group_current_group: u64,
    holder_group_new_group: u64,
) -> bool {
    ||| group_current_key != group_new_key
    ||| holder_group_current_key != holder_group_new_key
    ||| holder_group_current_group != holder_group_new_group
}

/// True when a wallet's group would change, judged by the account addresses
/// of the two groups and two holder-group records and by the two records'
/// group ids.
pub fn check_if_group_will_change(
    group_current_key: &Pubkey,
    group_new_key: &Pubkey,
    holder_group_current_key: &Pubkey,
    holder_group_new_key: &Pubkey,
    holder_group_current_group: u64,
    holder_group_new_group: u64,
) -> (r: bool)
    ensures
        r == group_will_change(
            group_current_key@,
            group_new_key@,
            holder_group_current_key@,
            holder_group_new_key@,
            holder_group_current_group,
            holder_group_new_group,
        ),
{
    !keys_equal(group_current_key, group_new_key) || !keys_equal(
        holder_group_current_key,
        holder_group_new_key,
    ) || holder_group_current_group != holder_group_new_group
}

/// Moves one wallet of a holder from its current group to a new one,
/// updating all four counters: the holder joins the new group when this is
/// its first wallet there (bound-checked), leaves the current group when it
/// was its last wallet there, and the wallet counts of the two holder-group
/// records shift by one each.  On error nothing is changed.
pub fn transfer_wallet_between_groups(
    group_new: &mut TransferRestrictionGroup,
    group_current: &mut TransferRestrictionGroup,
    holder_group_current: &mut HolderGroup,
    holder_group_new: &mut HolderGroup,
    security_associated_account: &mut SecurityAssociatedAccount,
    new_group_id: u64,
) -> (result: Result<(), TransferRestrictionsError>)
    requires
        old(holder_group_new).current_wallets_count == 0 ==> old(group_new).current_holders_count
            < u32::MAX,
        link_err(*old(group_new), *old(holder_group_new)) is None ==> {
            &&& old(holder_group_current).current_wallets_count >= 1
            &&& old(holder_group_new).current_wallets_count < u32::MAX
            &&& (old(holder_group_current).current_wallets_count == 1 ==> old(
                group_current,
            ).current_holders_count >= 1)
        },
    ensures
        match result {
            Ok(()) => {
                &&& link_err(*old(group_new), *old(holder_group_new)) is None
                &&& *final(holder_group_current) == HolderGroup {
                    current_wallets_count: (old(holder_group_current).current_wallets_count
                        - 1) as u32,
                    ..*old(holder_group_current)
                }
                &&& *final(holder_group_new) == HolderGroup {
                    current_wallets_count: (old(holder_group_new).current_wallets_count + 1) as u32,
                    ..*old(holder_group_new)
                }
                &&& *final(group_new) == TransferRestrictionGroup {
                    current_holders_count: group_count_after_link(
                        *old(group_new),
                        *old(holder_group_new),
                    ) as u32,
                    ..*old(group_new)
                }
                &&& *final(group_current) == TransferRestrictionGroup {
                    current_holders_count: if old(holder_group_current).current_wallets_count == 1 {
                        (old(group_current).current_holders_count - 1) as u32
                    } else {
                        old(group_current).current_holders_count
                    },
                    ..*old(group_current)
                }
                &&& *final(security_associated_account) == SecurityAssociatedAccount {
                    group: new_group_id,
                    ..*old(security_associated_account)
                }
            },
            Err(e) => {
                &&& link_err(*old(group_new), *old(holder_group_new)) == Some(e)
                &&& *final(group_new) == *old(group_new)
                &&& *final(group_current) == *old(group_current)
                &&& *final(holder_group_current) == *old(holder_group_current)
                &&& *final(holder_group_new) == *old(holder_group_new)
                &&& *final(security_associated_account) == *old(security_associated_account)
            },
        },
{
    let new_group_count: u32 = if holder_group_new.current_wallets_count == 0 {
        group_new.current_holders_count + 1
    } else {
        group_new.current_holders_count
    };
    if new_group_count > group_new.max_holders && group_new.max_holders != 0 {
        return Err(TransferRestrictionsError::MaxHoldersReachedInsideTheGroup);
    }
    group_new.current_holders_count = new_group_count;
    holder_group_current.current_wallets_count = holder_group_current.current_wallets_count - 1;
    holder_group_new.current_wallets_count = holder_group_new.current_wallets_count + 1;
    if holder_group_current.current_wallets_count == 0 {
        group_current.current_holders_count = group_current.current_holders_count - 1;
    }
    security_associated_account.group = new_group_id;
    Ok(())
}

/// The error `initialize_holder` returns, or `None` when it goes through.
pub open spec fn initialize_holder_err(
    authority: WalletRole,
    data: TransferRestrictionData,
    holder_id: u64,
) -> Option<TransferRestrictionsError> {
    if authority.role & WALLET_GROUP_ADMIN_ROLES == 0 {
        Some(TransferRestrictionsError::Unauthorized)
    } else {
        new_holder_err(data, holder_id)
    }
}

/// Creates a holder with the given id, on the authority of a wallet holding
/// `TransferAdmin` or `WalletsAdmin`.  On any error both records are
/// unchanged.
pub fn initialize_holder(
    authority_wallet_role: &WalletRole,
    transfer_restriction_data: &mut TransferRestrictionData,
    transfer_restriction_holder: &mut TransferRestrictionHolder,
    transfer_restriction_data_key: &Pubkey,
    id: u64,
) -> (result: Result<(), TransferRestrictionsError>)
    requires
        initialize_holder_err(*authority_wallet_role, *old(transfer_restriction_data), id)
            is None ==> (old(transfer_restriction_data).holder_ids == id ==> id < u64::MAX),
    ensures
        match result {
            Ok(()) => {
                &&& initialize_holder_err(
                    *authority_wallet_role,
                    *old(transfer_restriction_data),
                    id,
                ) is None
                &&& *final(transfer_restriction_data) == data_after_holder_creation(
                    *old(transfer_restriction_data),
                    id,
                )
                &&& is_fresh_holder(
                    *final(transfer_restriction_holder),
                    transfer_restriction_data_key@,
                    id,
                )
            },
            Err(e) => {
                &&& initialize_holder_err(
                    *authority_wallet_role,
                    *old(transfer_restriction_data),
                    id,
                ) == Some(e)
                &&& *final(transfer_restriction_data) == *old(transfer_restriction_data)
                &&& *final(transfer_restriction_holder) == *old(transfer_restriction_holder)
            },
        },
{
    check_authorization(authority_wallet_role, WALLET_GROUP_ADMIN_ROLES)?;
    initialize_new_holder(
        transfer_restriction_holder,
        transfer_restriction_data,
        transfer_restriction_data_key,
        id,
    )
}

/// Creates the holder-group record binding `holder` to `group`, with no
/// wallets counted yet, and counts the record onto the holder; gated on
/// `TransferAdmin` or `WalletsAdmin`.  On error both records are unchanged.
pub fn initialize_holder_group(
    authority_wallet_role: &WalletRole,
    holder_group: &mut HolderGroup,
    group: &TransferRestrictionGroup,
    holder: &mut TransferRestrictionHolder,
    holder_key: &Pubkey,
) -> (result: Result<(), TransferRestrictionsError>)
    requires
        authority_wallet_role.role & WALLET_GROUP_ADMIN_ROLES != 0 ==> old(
            holder,
        ).current_holder_group_count < u32::MAX,
    ensures
        match result {
            Ok(()) => {
                &&& authority_wallet_role.role & WALLET_GROUP_ADMIN_ROLES != 0
                &&& final(holder_group).group == group.id
                &&& final(holder_group).holder@ == holder_key@
                &&& final(holder_group).current_wallets_count == 0
                &&& *final(holder) == (TransferRestrictionHolder {
                    current_holder_group_count: (old(holder).current_holder_group_count + 1) as u32,
                    ..*old(holder)
                })
            },
            Err(e) => {
                &&& authority_wallet_role.role & WALLET_GROUP_ADMIN_ROLES == 0
                &&& e == TransferRestrictionsError::Unauthorized
                &&& *final(holder_group) == *old(holder_group)
                &&& *final(holder) == *old(holder)
            },
        },
{
    check_authorization(authority_wallet_role, WALLET_GROUP_ADMIN_ROLES)?;
    initialize_holder_group_fields(holder_group, group, holder_key);
    increment_holder_group_count(holder);
    Ok(())
}

/// The error `initialize_security_associated_account` returns, or `None`
/// when the link goes through.
pub open spec fn initialize_saa_err(
    authority: WalletRole,
    group: TransferRestrictionGroup,
    hg: HolderGroup,
) -> Option<TransferRestrictionsError> {
    if authority.role & WALLET_GROUP_ADMIN_ROLES == 0 {
        Some(TransferRestrictionsError::Unauthorized)
    } else {
        link_err(group, hg)
    }
}

/// Links a wallet's security-associated account to an existing holder and
/// group, updating the wallet and holder counters; gated on `TransferAdmin`
/// or `WalletsAdmin`.  On any error nothing is changed.
pub fn initialize_security_associated_account(
    authority_wallet_role: &WalletRole,
    security_associated_account: &mut SecurityAssociatedAccount,
    group: &mut TransferRestrictionGroup,
    holder_group: &mut HolderGroup,
    holder: &mut TransferRestrictionHolder,
    holder_key: &Pubkey,
    group_id: u64,
    _holder_id: u64,
) -> (result: Result<(), TransferRestrictionsError>)
    requires
        authority_wallet_role.role & WALLET_GROUP_ADMIN_ROLES != 0 ==> (old(
            holder_group,
        ).current_wallets_count == 0 ==> old(group).current_holders_count < u32::MAX),
        initialize_saa_err(*authority_wallet_role, *old(group), *old(holder_group)) is None ==> {
            &&& old(holder_group).current_wallets_count < u32::MAX
            &&& old(holder).current_wallets_count < u32::MAX
        },
    ensures
        match result {
            Ok(()) => {
                &&& initialize_saa_err(*authority_wallet_role, *old(group), *old(holder_group))
                    is None
                &&& final(security_associated_account).group == group_id
                &&& final(security_associated_account).holder is Some
                &&& final(security_associated_account).holder->0@ == holder_key@
                &&& *final(holder_group) == (HolderGroup {
                    current_wallets_count: (old(holder_group).current_wallets_count + 1) as u32,
                    ..*old(holder_group)
                })
                &&& *final(group) == (TransferRestrictionGroup {
                    current_holders_count: group_count_after_link(
                        *old(group),
                        *old(holder_group),
                    ) as u32,
                    ..*old(group)
                })
                &&& *final(holder) == (TransferRestrictionHolder {
                    current_wallets_count: (old(holder).current_wallets_count + 1) as u32,
                    ..*old(holder)
                })
            },
            Err(e) => {
                &&& initialize_saa_err(*authority_wallet_role, *old(group), *old(holder_group))
                    == Some(e)
                &&& *final(security_associated_account) == *old(security_associated_account)
                &&& *final(group) == *old(group)
                &&& *final(holder_group) == *old(holder_group)
                &&& *final(holder) == *old(holder)
            },
        },
{
    check_authorization(authority_wallet_role, WALLET_GROUP_ADMIN_ROLES)?;
    initialize_security_associated_account_fields(
        security_associated_account,
        group,
        holder_group,
        holder,
        holder_key,
        group_id,
    )
}

/// Creates a time-gated transfer rule between two groups of a scope; gated
/// on `TransferAdmin` exactly.  On error the rule record is unchanged.
pub fn initialize_transfer_rule(
    authority_wallet_role: &WalletRole,
    transfer_rule: &mut TransferRule,
    transfer_restriction_data_key: &Pubkey,
    group_id_from: u64,
    group_id_to: u64,
    locked_until: u64,
) -> (result: Result<(), TransferRestrictionsError>)
    ensures
        match result {
            Ok(()) => {
                &&& authority_wallet_role.role & Roles::TransferAdmin.spec_value()
                    == Roles::TransferAdmin.spec_value()
                &&& final(transfer_rule).transfer_restriction_data@
                    == transfer_restriction_data_key@
                &&& final(transfer_rule).transfer_group_id_from == group_id_from
                &&& final(transfer_rule).transfer_group_id_to == group_id_to
                &&& final(transfer_rule).locked_until == locked_until
            },
            Err(e) => {
                &&& authority_wallet_role.role & Roles::TransferAdmin.spec_value()
                    != Roles::TransferAdmin.spec_value()
                &&& e == TransferRestrictionsError::Unauthorized
                &&& *final(transfer_rule) == *old(transfer_rule)
            },
        },
{
    if !authority_wallet_role.has_role(Roles::TransferAdmin) {
        return Err(TransferRestrictionsError::Unauthorized);
    }
    transfer_rule.transfer_restriction_data = clone_key(transfer_restriction_data_key);
    transfer_rule.transfer_group_id_from = group_id_from;
    transfer_rule.transfer_group_id_to = group_id_to;
    transfer_rule.locked_until = locked_until;
    Ok(())
}

/// The error `update_wallet_group` returns, or `None` when the move goes
/// through: the caller must be authorized, the move must actually change
/// the wallet's group, and the new group must have room.
pub open spec fn update_wallet_group_err(
    authority: WalletRole,
    group_new: TransferRestrictionGroup,
    hg_current: HolderGroup,
    hg_new: HolderGroup,
    group_current_key: Seq<u8>,
    group_new_key: Seq<u8>,
    holder_group_current_key: Seq<u8>,
    holder_group_new_key: Seq<u8>,
) -> Option<TransferRestrictionsError> {
    if authority.role & WALLET_GROUP_ADMIN_ROLES == 0 {
        Some(TransferRestrictionsError::Unauthorized)
    } else if !group_will_change(
        group_current_key,
        group_new_key,
        holder_group_current_key,
        holder_group_new_key,
        hg_current.group,
        hg_new.group,
    ) {
        Some(TransferRestrictionsError::NewGroupIsTheSameAsTheCurrentGroup)
    } else {
        link_err(group_new, hg_new)
    }
}

/// Moves a wallet to another group: rejects a move that would change
/// nothing, then shifts the wallet and holder counters as
/// `transfer_wallet_between_groups` does; gated on `TransferAdmin` or
/// `WalletsAdmin`.  On any error nothing is changed.
pub fn update_wallet_group(
    authority_wallet_role: &WalletRole,
    transfer_restriction_group_current: &mut TransferRestrictionGroup,
    transfer_restriction_group_new: &mut TransferRestrictionGroup,
    holder_group_current: &mut HolderGroup,
    holder_group_new: &mut HolderGroup,
    security_associated_account: &mut SecurityAssociatedAccount,
    group_current_key: &Pubkey,
    group_new_key: &Pubkey,
    holder_group_current_key: &Pubkey,
    holder_group_new_key: &Pubkey,
    new_group_id: u64,
) -> (result: Result<(), TransferRestrictionsError>)
    requires
        ({
            let will_change = group_will_change(
                group_current_key@,
                group_new_key@,
                holder_group_current_key@,
                holder_group_new_key@,
                old(holder_group_current).group,
                old(holder_group_new).group,
            );
            authority_wallet_role.role & WALLET_GROUP_ADMIN_ROLES != 0 && will_change ==> (old(
                holder_group_new,
            ).current_wallets_count == 0 ==> old(
                transfer_restriction_group_new,
            ).current_holders_count < u32::MAX)
        }),
        update_wallet_group_err(
            *authority_wallet_role,
            *old(transfer_restriction_group_new),
            *old(holder_group_current),
            *old(holder_group_new),
            group_current_key@,
            group_new_key@,
            holder_group_current_key@,
            holder_group_new_key@,
        ) is None ==> {
            &&& old(holder_group_current).current_wallets_count >= 1
            &&& old(holder_group_new).current_wallets_count < u32::MAX
            &&& (old(holder_group_current).current_wallets_count == 1 ==> old(
                transfer_restriction_group_current,
            ).current_holders_count >= 1)
        },
    ensures
        match result {
            Ok(()) => {
                &&& update_wallet_group_err(
                    *authority_wallet_role,
                    *old(transfer_restriction_group_new),
                    *old(holder_group_current),
                    *old(holder_group_new),
                    group_current_key@,
                    group_new_key@,
                    holder_group_current_key@,
                    holder_group_new_key@,
                ) is None
                &&& *final(holder_group_current) == (HolderGroup {
                    current_wallets_count: (old(holder_group_current).current_wallets_count
                        - 1) as u32,
                    ..*old(holder_group_current)
                })
                &&& *final(holder_group_new) == (HolderGroup {
                    current_wallets_count: (old(holder_group_new).current_wallets_count + 1) as u32,
                    ..*old(holder_group_new)
                })
                &&& *final(transfer_restriction_group_new) == (TransferRestrictionGroup {
                    current_holders_count: group_count_after_link(
                        *old(transfer_restriction_group_new),
                        *old(holder_group_new),
                    ) as u32,
                    ..*old(transfer_restriction_group_new)
                })
                &&& *final(transfer_restriction_group_current) == (TransferRestrictionGroup {
                    current_holders_count: if old(
                        holder_group_current,
                    ).current_wallets_count == 1 {
                        (old(transfer_restriction_group_current).current_holders_count - 1) as u32
                    } else {
                        old(transfer_restriction_group_current).current_holders_count
                    },
                    ..*old(transfer_restriction_group_current)
                })
                &&& *final(security_associated_account) == (SecurityAssociatedAccount {
                    group: new_group_id,
                    ..*old(security_associated_account)
                })
            },
            Err(e) => {
                &&& update_wallet_group_err(
                    *authority_wallet_role,
                    *old(transfer_restriction_group_new),
                    *old(holder_group_current),
                    *old(holder_group_new),
                    group_current_key@,
                    group_new_key@,
                    holder_group_current_key@,
                    holder_group_new_key@,
                ) == Some(e)
                &&& *final(transfer_restriction_group_current) == *old(
                    transfer_restriction_group_current,
                )
                &&& *final(transfer_restriction_group_new) == *old(transfer_restriction_group_new)
                &&& *final(holder_group_current) == *old(holder_group_current)
                &&& *final(holder_group_new) == *old(holder_group_new)
                &&& *final(security_associated_account) == *old(security_associated_account)
            },
        },
{
    check_authorization(authority_wallet_role, WALLET_GROUP_ADMIN_ROLES)?;
    let groups_will_change = check_if_group_will_change(
        group_current_key,
        group_new_key,
        holder_group_current_key,
        holder_group_new_key,
        holder_group_current.group,
        holder_group_new.group,
    );
    if !groups_will_change {
        return Err(TransferRestrictionsError::NewGroupIsTheSameAsTheCurrentGroup);
    }
    transfer_wallet_between_groups(
        transfer_restriction_group_new,
        transfer_restriction_group_current,
        holder_group_current,
        holder_group_new,
        security_associated_account,
        new_group_id,
    )
}

/// How many wallets the default-group holder-group record effectively
/// counts before a default initialization: none when the record is yet to
/// be bound to this holder.
pub open spec fn default_accounts_effective_wallets(hg: HolderGroup, holder_key: Seq<u8>) -> u32 {
    if hg.holder@ != holder_key {
        0
    } else {
        hg.current_wallets_count
    }
}

/// The errors of `initialize_default_security_accounts` that come before
/// the group bound is consulted, or `None`.
pub open spec fn default_accounts_setup_err(
    authority: WalletRole,
    data: TransferRestrictionData,
    holder: TransferRestrictionHolder,
    hg: HolderGroup,
    holder_key: Seq<u8>,
    holder_id: u64,
) -> Option<TransferRestrictionsError> {
    if authority.role & SECURITY_ADMIN_ROLES == 0 {
        Some(TransferRestrictionsError::Unauthorized)
    } else if !holder.active && new_holder_err(data, holder_id) is Some {
        new_holder_err(data, holder_id)
    } else if hg.holder@ != holder_key && hg.holder@.len() != 0 {
        Some(TransferRestrictionsError::HolderGroupAlreadyInitialized)
    } else {
        None
    }
}

/// The error `initialize_default_security_accounts` returns, or `None`
/// when it goes through.
pub open spec fn default_accounts_err(
    authority: WalletRole,
    data: TransferRestrictionData,
    holder: TransferRestrictionHolder,
    hg: HolderGroup,
    group: TransferRestrictionGroup,
    holder_key: Seq<u8>,
    holder_id: u64,
) -> Option<TransferRestrictionsError> {
    if default_accounts_setup_err(authority, data, holder, hg, holder_key, holder_id) is Some {
        default_accounts_setup_err(authority, data, holder, hg, holder_key, holder_id)
    } else {
        let eff = default_accounts_effective_wallets(hg, holder_key);
        let new_count: int = if eff == 0 {
            group.current_holders_count + 1
        } else {
            group.current_holders_count as int
        };
        if new_count > group.max_holders && group.max_holders != 0 {
            Some(TransferRestrictionsError::MaxHoldersReachedInsideTheGroup)
        } else {
            None
        }
    }
}

/// Places a wallet into the default group (group 0) in one step, creating
/// whatever is missing along the way: the holder (when not yet active), the
/// holder's default-group record (when not yet bound to this holder — a
/// record bound to another holder fails `HolderGroupAlreadyInitialized`),
/// and the wallet's security-associated account, with all counters updated
/// as in the single-step operations.  Gated on any of `ReserveAdmin`,
/// `TransferAdmin` and `WalletsAdmin`.  On any error nothing is changed.
pub fn initialize_default_security_accounts(
    authority_wallet_role: &WalletRole,
    transfer_restriction_data: &mut TransferRestrictionData,
    transfer_restriction_holder: &mut TransferRestrictionHolder,
    holder_group: &mut HolderGroup,
    group: &mut TransferRestrictionGroup,
    security_associated_account: &mut SecurityAssociatedAccount,
    transfer_restriction_data_key: &Pubkey,
    transfer_restriction_holder_key: &Pubkey,
    holder_id: u64,
) -> (result: Result<(), TransferRestrictionsError>)
    requires
        group.id == 0,
        default_accounts_setup_err(
            *authority_wallet_role,
            *old(transfer_restriction_data),
            *old(transfer_restriction_holder),
            *old(holder_group),
            transfer_restriction_holder_key@,
            holder_id,
        ) is None ==> {
            &&& (!old(transfer_restriction_holder).active && old(
                transfer_restriction_data,
            ).holder_ids == holder_id ==> holder_id < u64::MAX)
            &&& (default_accounts_effective_wallets(
                *old(holder_group),
                transfer_restriction_holder_key@,
            ) == 0 ==> old(group).current_holders_count < u32::MAX)
        },
        default_accounts_err(
            *authority_wallet_role,
            *old(transfer_restriction_data),
            *old(transfer_restriction_holder),
            *old(holder_group),
            *old(group),
            transfer_restriction_holder_key@,
            holder_id,
        ) is None ==> {
            &&& default_accounts_effective_wallets(
                *old(holder_group),
                transfer_restriction_holder_key@,
            ) < u32::MAX
            &&& (old(transfer_restriction_holder).active ==> {
                &&& old(transfer_restriction_holder).current_wallets_count < u32::MAX
                &&& old(transfer_restriction_holder).current_holder_group_count < u32::MAX
            })
        },
    ensures
        match result {
            Ok(()) => {
                let created = !old(transfer_restriction_holder).active;
                let inited_hg = old(holder_group).holder@ != transfer_restriction_holder_key@;
                let eff = default_accounts_effective_wallets(
                    *old(holder_group),
                    transfer_restriction_holder_key@,
                );
                &&& default_accounts_err(
                    *authority_wallet_role,
                    *old(transfer_restriction_data),
                    *old(transfer_restriction_holder),
                    *old(holder_group),
                    *old(group),
                    transfer_restriction_holder_key@,
                    holder_id,
                ) is None
                &&& *final(transfer_restriction_data) == if created {
                    data_after_holder_creation(*old(transfer_restriction_data), holder_id)
                } else {
                    *old(transfer_restriction_data)
                }
                &&& final(transfer_restriction_holder).active == true
                &&& final(transfer_restriction_holder).id == if created {
                    holder_id
                } else {
                    old(transfer_restriction_holder).id
                }
                &&& final(transfer_restriction_holder).transfer_restriction_data@ == if created {
                    transfer_restriction_data_key@
                } else {
                    old(transfer_restriction_holder).transfer_restriction_data@
                }
                &&& final(transfer_restriction_holder).current_wallets_count == (if created {
                    0int
                } else {
                    old(transfer_restriction_holder).current_wallets_count as int
                }) + 1
                &&& final(transfer_restriction_holder).current_holder_group_count == (if created {
                    0int
                } else {
                    old(transfer_restriction_holder).current_holder_group_count as int
                }) + (if inited_hg {
                    1int
                } else {
                    0int
                })
                &&& final(holder_group).holder@ == transfer_restriction_holder_key@
                &&& final(holder_group).group == if inited_hg {
                    old(group).id
                } else {
                    old(holder_group).group
                }
                &&& final(holder_group).current_wallets_count == eff + 1
                &&& *final(group) == (TransferRestrictionGroup {
                    current_holders_count: if eff == 0 {
                        (old(group).current_holders_count + 1) as u32
                    } else {
                        old(group).current_holders_count
                    },
                    ..*old(group)
                })
                &&& final(security_associated_account).group == 0
                &&& final(security_associated_account).holder is Some
                &&& final(security_associated_account).holder->0@
                    == transfer_restriction_holder_key@
            },
            Err(e) => {
                &&& default_accounts_err(
                    *authority_wallet_role,
                    *old(transfer_restriction_data),
                    *old(transfer_restriction_holder),
                    *old(holder_group),
                    *old(group),
                    transfer_restriction_holder_key@,
                    holder_id,
                ) == Some(e)
                &&& *final(transfer_restriction_data) == *old(transfer_restriction_data)
                &&& *final(transfer_restriction_holder) == *old(transfer_restriction_holder)
                &&& *final(holder_group) == *old(holder_group)
                &&& *final(group) == *old(group)
                &&& *final(security_associated_account) == *old(security_associated_account)
            },
        },
{
    check_authorization(authority_wallet_role, SECURITY_ADMIN_ROLES)?;
    let will_create_holder = !transfer_restriction_holder.active;
    if will_create_holder {
        if transfer_restriction_data.holder_ids < holder_id {
            return Err(TransferRestrictionsError::InvalidHolderIndex);
        }
        if transfer_restriction_data.current_holders_count
            >= transfer_restriction_data.max_holders {
            return Err(TransferRestrictionsError::MaxHoldersReached);
        }
    }
    let will_init_hg = !keys_equal(&holder_group.holder, transfer_restriction_holder_key);
    if will_init_hg && holder_group.holder.len() != 0 {
        return Err(TransferRestrictionsError::HolderGroupAlreadyInitialized);
    }
    let effective_wallets: u32 = if will_init_hg {
        0
    } else {
        holder_group.current_wallets_count
    };
    let new_group_count: u32 = if effective_wallets == 0 {
        group.current_holders_count + 1
    } else {
        group.current_holders_count
    };
    if new_group_count > group.max_holders && group.max_holders != 0 {
        return Err(TransferRestrictionsError::MaxHoldersReachedInsideTheGroup);
    }
    if will_create_holder {
        initialize_new_holder(
            transfer_restriction_holder,
            transfer_restriction_data,
            transfer_restriction_data_key,
            holder_id,
        )?;
    }
    if will_init_hg {
        initialize_holder_group_fields(holder_group, group, transfer_restriction_holder_key);
        increment_holder_group_count(transfer_restriction_holder);
    }
    initialize_security_associated_account_fields(
        security_associated_account,
        group,
        holder_group,
        transfer_restriction_holder,
        transfer_restriction_holder_key,
        0,
    )
}

/// The error `set_address_permission` returns, or `None` when it goes
/// through.  A wallet not yet linked to a holder is linked into the
/// requested group; a linked wallet needs its current group accounts, must
/// present the holder it is linked to, and at least one of its group and
/// its frozen state must actually change.
pub open spec fn set_address_permission_err(
    authority: WalletRole,
    saa: SecurityAssociatedAccount,
    holder: TransferRestrictionHolder,
    group_new: TransferRestrictionGroup,
    hg_new: HolderGroup,
    group_current: Option<TransferRestrictionGroup>,
    hg_current: Option<HolderGroup>,
    holder_key: Seq<u8>,
    group_current_key: Seq<u8>,
    group_new_key: Seq<u8>,
    hg_current_key: Seq<u8>,
    hg_new_key: Seq<u8>,
    frozen: bool,
    is_currently_frozen: bool,
) -> Option<TransferRestrictionsError> {
    if authority.role & WALLET_GROUP_ADMIN_ROLES == 0 {
        Some(TransferRestrictionsError::Unauthorized)
    } else if saa.holder is None {
        if !holder.active {
            Some(TransferRestrictionsError::InvalidHolderIndex)
        } else {
            link_err(group_new, hg_new)
        }
    } else if hg_current is None || group_current is None {
        Some(TransferRestrictionsError::CurrentGroupRequiredForExistingWallet)
    } else if holder_key != saa.holder->0@ {
        Some(TransferRestrictionsError::InvalidPDA)
    } else if hg_new.holder@ != saa.holder->0@ {
        Some(TransferRestrictionsError::InvalidPDA)
    } else {
        let changes = group_will_change(
            group_current_key,
            group_new_key,
            hg_current_key,
            hg_new_key,
            hg_current->0.group,
            hg_new.group,
        );
        if !changes && frozen == is_currently_frozen {
            Some(TransferRestrictionsError::ValueUnchanged)
        } else if changes {
            link_err(group_new, hg_new)
        } else {
            None
        }
    }
}

/// Sets a wallet's compliance permission: its group and its frozen state in
/// one call.  A wallet without a holder link is linked into `group_id`
/// under the presented holder; a linked wallet is moved between groups when
/// the group identity changes.  The group move and the freeze change are
/// independent, but a call that would change neither fails `ValueUnchanged`.
/// The returned action says what the caller must do to the underlying token
/// account: `Some(f)` to set its frozen state to `f`, `None` to leave it.
/// Gated on `TransferAdmin` or `WalletsAdmin`.  On any error nothing is
/// changed.
pub fn set_address_permission(
    authority_wallet_role: &WalletRole,
    security_associated_account: &mut SecurityAssociatedAccount,
    transfer_restriction_holder: &mut TransferRestrictionHolder,
    transfer_restriction_group_new: &mut TransferRestrictionGroup,
    holder_group_new: &mut HolderGroup,
    transfer_restriction_group_current: &mut Option<TransferRestrictionGroup>,
    holder_group_current: &mut Option<HolderGroup>,
    transfer_restriction_holder_key: &Pubkey,
    group_current_key: &Pubkey,
    group_new_key: &Pubkey,
    holder_group_current_key: &Pubkey,
    holder_group_new_key: &Pubkey,
    group_id: u64,
    frozen: bool,
    is_currently_frozen: bool,
) -> (result: Result<Option<bool>, TransferRestrictionsError>)
    requires
        ({
            let err = set_address_permission_err(
                *authority_wallet_role,
                *old(security_associated_account),
                *old(transfer_restriction_holder),
                *old(transfer_restriction_group_new),
                *old(holder_group_new),
                *old(transfer_restriction_group_current),
                *old(holder_group_current),
                transfer_restriction_holder_key@,
                group_current_key@,
                group_new_key@,
                holder_group_current_key@,
                holder_group_new_key@,
                frozen,
                is_currently_frozen,
            );
            let auth_ok = authority_wallet_role.role & WALLET_GROUP_ADMIN_ROLES != 0;
            let changes = *old(holder_group_current) is Some && group_will_change(
                group_current_key@,
                group_new_key@,
                holder_group_current_key@,
                holder_group_new_key@,
                (*old(holder_group_current))->0.group,
                old(holder_group_new).group,
            );
            &&& (auth_ok && old(security_associated_account).holder is None && old(
                transfer_restriction_holder,
            ).active ==> (old(holder_group_new).current_wallets_count == 0 ==> old(
                transfer_restriction_group_new,
            ).current_holders_count < u32::MAX))
            &&& (auth_ok && old(security_associated_account).holder is Some && changes ==> (old(
                holder_group_new,
            ).current_wallets_count == 0 ==> old(
                transfer_restriction_group_new,
            ).current_holders_count < u32::MAX))
            &&& (err is None && old(security_associated_account).holder is None ==> {
                &&& old(holder_group_new).current_wallets_count < u32::MAX
                &&& old(transfer_restriction_holder).current_wallets_count < u32::MAX
            })
            &&& (err is None && old(security_associated_account).holder is Some && changes ==> {
                &&& (*old(holder_group_current))->0.current_wallets_count >= 1
                &&& old(holder_group_new).current_wallets_count < u32::MAX
                &&& ((*old(holder_group_current))->0.current_wallets_count == 1 ==> old(
                    transfer_restriction_group_current,
                )->0.current_holders_count >= 1)
            })
        }),
    ensures
        match result {
            Ok(action) => {
                let is_new_wallet = old(security_associated_account).holder is None;
                let changes = !is_new_wallet && group_will_change(
                    group_current_key@,
                    group_new_key@,
                    holder_group_current_key@,
                    holder_group_new_key@,
                    (*old(holder_group_current))->0.group,
                    old(holder_group_new).group,
                );
                &&& set_address_permission_err(
                    *authority_wallet_role,
                    *old(security_associated_account),
                    *old(transfer_restriction_holder),
                    *old(transfer_restriction_group_new),
                    *old(holder_group_new),
                    *old(transfer_restriction_group_current),
                    *old(holder_group_current),
                    transfer_restriction_holder_key@,
                    group_current_key@,
                    group_new_key@,
                    holder_group_current_key@,
                    holder_group_new_key@,
                    frozen,
                    is_currently_frozen,
                ) is None
                &&& action == if frozen != is_currently_frozen {
                    Some(frozen)
                } else {
                    None::<bool>
                }
                &&& (is_new_wallet ==> {
                    &&& final(security_associated_account).group == group_id
                    &&& final(security_associated_account).holder is Some
                    &&& final(security_associated_account).holder->0@
                        == transfer_restriction_holder_key@
                    &&& *final(holder_group_new) == (HolderGroup {
                        current_wallets_count: (old(holder_group_new).current_wallets_count
                            + 1) as u32,
                        ..*old(holder_group_new)
                    })
                    &&& *final(transfer_restriction_group_new) == (TransferRestrictionGroup {
                        current_holders_count: group_count_after_link(
                            *old(transfer_restriction_group_new),
                            *old(holder_group_new),
                        ) as u32,
                        ..*old(transfer_restriction_group_new)
                    })
                    &&& *final(transfer_restriction_holder) == (TransferRestrictionHolder {
                        current_wallets_count: (old(
                            transfer_restriction_holder,
                        ).current_wallets_count + 1) as u32,
                        ..*old(transfer_restriction_holder)
                    })
                    &&& *final(transfer_restriction_group_current) == *old(
                        transfer_restriction_group_current,
                    )
                    &&& *final(holder_group_current) == *old(holder_group_current)
                })
                &&& (!is_new_wallet && changes ==> {
                    &&& *final(security_associated_account) == (SecurityAssociatedAccount {
                        group: group_id,
                        ..*old(security_associated_account)
                    })
                    &&& *final(holder_group_current) == Some(
                        HolderGroup {
                            current_wallets_count: (old(
                                holder_group_current,
                            )->0.current_wallets_count - 1) as u32,
                            ..(*old(holder_group_current))->0
                        },
                    )
                    &&& *final(holder_group_new) == (HolderGroup {
                        current_wallets_count: (old(holder_group_new).current_wallets_count
                            + 1) as u32,
                        ..*old(holder_group_new)
                    })
                    &&& *final(transfer_restriction_group_new) == (TransferRestrictionGroup {
                        current_holders_count: group_count_after_link(
                            *old(transfer_restriction_group_new),
                            *old(holder_group_new),
                        ) as u32,
                        ..*old(transfer_restriction_group_new)
                    })
                    &&& *final(transfer_restriction_group_current) == Some(
                        TransferRestrictionGroup {
                            current_holders_count: if old(
                                holder_group_current,
                            )->0.current_wallets_count == 1 {
                                ((*old(transfer_restriction_group_current))->0.current_holders_count
                                    - 1) as u32
                            } else {
                                (*old(transfer_restriction_group_current))->0.current_holders_count
                            },
                            ..(*old(transfer_restriction_group_current))->0
                        },
                    )
                    &&& *final(transfer_restriction_holder) == *old(transfer_restriction_holder)
                })
                &&& (!is_new_wallet && !changes ==> {
                    &&& *final(security_associated_account) == *old(security_associated_account)
                    &&& *final(transfer_restriction_holder) == *old(transfer_restriction_holder)
                    &&& *final(transfer_restriction_group_new) == *old(
                        transfer_restriction_group_new,
                    )
                    &&& *final(holder_group_new) == *old(holder_group_new)
                    &&& *final(transfer_restriction_group_current) == *old(
                        transfer_restriction_group_current,
                    )
                    &&& *final(holder_group_current) == *old(holder_group_current)
                })
            },
            Err(e) => {
                &&& set_address_permission_err(
                    *authority_wallet_role,
                    *old(security_associated_account),
                    *old(transfer_restriction_holder),
                    *old(transfer_restriction_group_new),
                    *old(holder_group_new),
                    *old(transfer_restriction_group_current),
                    *old(holder_group_current),
                    transfer_restriction_holder_key@,
                    group_current_key@,
                    group_new_key@,
                    holder_group_current_key@,
                    holder_group_new_key@,
                    frozen,
                    is_currently_frozen,
                ) == Some(e)
                &&& *final(security_associated_account) == *old(security_associated_account)
                &&& *final(transfer_restriction_holder) == *old(transfer_restriction_holder)
                &&& *final(transfer_restriction_group_new) == *old(transfer_restriction_group_new)
                &&& *final(holder_group_new) == *old(holder_group_new)
                &&& *final(transfer_restriction_group_current) == *old(
                    transfer_restriction_group_current,
                )
                &&& *final(holder_group_current) == *old(holder_group_current)
            },
        },
{
    check_authorization(authority_wallet_role, WALLET_GROUP_ADMIN_ROLES)?;
    let is_new_wallet = security_associated_account.holder.is_none();
    if is_new_wallet {
        if !transfer_restriction_holder.active {
            return Err(TransferRestrictionsError::InvalidHolderIndex);
        }
        initialize_security_associated_account_fields(
            security_associated_account,
            transfer_restriction_group_new,
            holder_group_new,
            transfer_restriction_holder,
            transfer_restriction_holder_key,
            group_id,
        )?;
    } else {
        if holder_group_current.is_none() || transfer_restriction_group_current.is_none() {
            return Err(TransferRestrictionsError::CurrentGroupRequiredForExistingWallet);
        }
        let holder_matches = match &security_associated_account.holder {
            Some(existing) => keys_equal(transfer_restriction_holder_key, existing),
            None => false,
        };
        if !holder_matches {
            return Err(TransferRestrictionsError::InvalidPDA);
        }
        let hg_new_matches = match &security_associated_account.holder {
            Some(existing) => keys_equal(&holder_group_new.holder, existing),
            None => false,
        };
        if !hg_new_matches {
            return Err(TransferRestrictionsError::InvalidPDA);
        }
        let freeze_status_will_change = frozen != is_currently_frozen;
        let hg_current_group: u64 = match &*holder_group_current {
            Some(h) => h.group,
            None => 0,
        };
        let changes = check_if_group_will_change(
            group_current_key,
            group_new_key,
            holder_group_current_key,
            holder_group_new_key,
            hg_current_group,
            holder_group_new.group,
        );
        if !changes && !freeze_status_will_change {
            return Err(TransferRestrictionsError::ValueUnchanged);
        }
        if changes {
            let gc_opt = transfer_restriction_group_current.take();
            let hgc_opt = holder_group_current.take();
            match (gc_opt, hgc_opt) {
                (Some(mut gc), Some(mut hgc)) => {
                    let moved = transfer_wallet_between_groups(
                        transfer_restriction_group_new,
                        &mut gc,
                        &mut hgc,
                        holder_group_new,
                        security_associated_account,
                        group_id,
                    );
                    *transfer_restriction_group_current = Some(gc);
                    *holder_group_current = Some(hgc);
                    match moved {
                        Ok(()) => {},
                        Err(e) => {
                            return Err(e);
                        },
                    }
                },
                _ => {
                    return Err(TransferRestrictionsError::CurrentGroupRequiredForExistingWallet);
                },
            }
        }
    }
    if frozen != is_currently_frozen {
        Ok(Some(frozen))
    } else {
        Ok(None)
    }
}

} // verus!
