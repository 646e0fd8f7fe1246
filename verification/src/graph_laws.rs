//! Consistency laws of the compliance-graph counters.
//!
//! The graph denormalizes its counts: each group stores how many holders
//! currently have a wallet in it, and each holder stores how many wallets it
//! has over all groups.  This module gives those counters their meaning over
//! a model of the whole population of holder-group records — a sequence,
//! since each record is one account — and proves that the updates the
//! operations of `crate::restrictions` promise in their contracts keep the
//! stored counters equal to the modelled ones:
//!
//! * a group's holder count always equals the number of holder-group
//!   records of that group with at least one wallet, and a holder's wallet
//!   count equals the sum of wallet counts over its records;
//! * moving a wallet between groups shifts exactly one wallet out of one
//!   record and into another, and leaves every holder's total unchanged.

use vstd::prelude::*;

use crate::restrictions::{
    group_count_after_link, HolderGroup, TransferRestrictionGroup, TransferRestrictionHolder,
};

verus! {

/// What one holder-group record contributes to its group's holder count:
/// one holder, when at least one wallet of the holder sits in the group.
pub open spec fn group_contrib(hg: HolderGroup, g: u64) -> int {
    if hg.group == g && hg.current_wallets_count > 0 {
        1
    } else {
        0
    }
}

/// How many holder-group records of `hgs` count at least one wallet in
/// group `g`: the number of holders present in the group.
pub open spec fn holders_in_group(hgs: Seq<HolderGroup>, g: u64) -> int
    decreases hgs.len(),
{
    if hgs.len() == 0 {
        0
    } else {
        holders_in_group(hgs.drop_last(), g) + group_contrib(hgs.last(), g)
    }
}

/// What one holder-group record contributes to the wallet total of the
/// holder at address `holder`.
pub open spec fn wallets_contrib(hg: HolderGroup, holder: Seq<u8>) -> int {
    if hg.holder@ == holder {
        hg.current_wallets_count as int
    } else {
        0
    }
}

/// The total number of wallets the holder at address `holder` has over all
/// its holder-group records.
pub open spec fn holder_wallets_total(hgs: Seq<HolderGroup>, holder: Seq<u8>) -> int
    decreases hgs.len(),
{
    if hgs.len() == 0 {
        0
    } else {
        holder_wallets_total(hgs.drop_last(), holder) + wallets_contrib(hgs.last(), holder)
    }
}

/// Replacing one record changes a group's modelled holder count by the
/// difference of the old and new record's contributions.
pub proof fn lemma_holders_in_group_update(hgs: Seq<HolderGroup>, i: int, hg: HolderGroup, g: u64)
    requires
        0 <= i < hgs.len(),
    ensures
        holders_in_group(hgs.update(i, hg), g) == holders_in_group(hgs, g) - group_contrib(
            hgs[i],
            g,
        ) + group_contrib(hg, g),
    decreases hgs.len(),
{
    let upd = hgs.update(i, hg);
    if i == hgs.len() - 1 {
        assert(upd.drop_last() =~= hgs.drop_last());
        assert(upd.last() == hg);
    } else {
        assert(upd.drop_last() =~= hgs.drop_last().update(i, hg));
        assert(upd.last() == hgs.last());
        lemma_holders_in_group_update(hgs.drop_last(), i, hg, g);
    }
}

/// Replacing one record changes a holder's modelled wallet total by the
/// difference of the old and new record's contributions.
pub proof fn lemma_holder_wallets_update(
    hgs: Seq<HolderGroup>,
    i: int,
    hg: HolderGroup,
    holder: Seq<u8>,
)
    requires
        0 <= i < hgs.len(),
    ensures
        holder_wallets_total(hgs.update(i, hg), holder) == holder_wallets_total(hgs, holder)
            - wallets_contrib(hgs[i], holder) + wallets_contrib(hg, holder),
    decreases hgs.len(),
{
    let upd = hgs.update(i, hg);
    if i == hgs.len() - 1 {
        assert(upd.drop_last() =~= hgs.drop_last());
        assert(upd.last() == hg);
    } else {
        assert(upd.drop_last() =~= hgs.drop_last().update(i, hg));
        assert(upd.last() == hgs.last());
        lemma_holder_wallets_update(hgs.drop_last(), i, hg, holder);
    }
}

/// A record appended to the population adds exactly its own contributions.
pub proof fn lemma_counts_push(hgs: Seq<HolderGroup>, hg: HolderGroup, g: u64, holder: Seq<u8>)
    ensures
        holders_in_group(hgs.push(hg), g) == holders_in_group(hgs, g) + group_contrib(hg, g),
        holder_wallets_total(hgs.push(hg), holder) == holder_wallets_total(hgs, holder)
            + wallets_contrib(hg, holder),
{
    assert(hgs.push(hg).drop_last() =~= hgs);
    assert(hgs.push(hg).last() == hg);
}

/// Law: a freshly initialised holder-group record, counting no wallets yet,
/// leaves every group's holder count and every holder's wallet total as
/// they were.
pub proof fn lemma_new_holder_group_neutral(
    hgs: Seq<HolderGroup>,
    hg: HolderGroup,
    g: u64,
    holder: Seq<u8>,
)
    requires
        hg.current_wallets_count == 0,
    ensures
        holders_in_group(hgs.push(hg), g) == holders_in_group(hgs, g),
        holder_wallets_total(hgs.push(hg), holder) == holder_wallets_total(hgs, holder),
{
    lemma_counts_push(hgs, hg, g, holder);
}

/// Law: linking one more wallet into the holder-group record at `i` keeps a
/// group's stored holder count equal to the modelled one.  The stored count
/// moves to `group_count_after_link` — up by one exactly when the record
/// held no wallet — and the modelled count over the updated population
/// equals it.
pub proof fn lemma_link_preserves_group_count(
    hgs: Seq<HolderGroup>,
    i: int,
    group: TransferRestrictionGroup,
)
    requires
        0 <= i < hgs.len(),
        hgs[i].group == group.id,
        hgs[i].current_wallets_count < u32::MAX,
        group.current_holders_count == holders_in_group(hgs, group.id),
    ensures
        group_count_after_link(group, hgs[i]) == holders_in_group(
            hgs.update(
                i,
                HolderGroup {
                    current_wallets_count: (hgs[i].current_wallets_count + 1) as u32,
                    ..hgs[i]
                },
            ),
            group.id,
        ),
{
    let hg = HolderGroup {
        current_wallets_count: (hgs[i].current_wallets_count + 1) as u32,
        ..hgs[i]
    };
    lemma_holders_in_group_update(hgs, i, hg, group.id);
}

/// Law: linking one more wallet into the holder-group record at `i` keeps
/// the holder's stored wallet count equal to the modelled total: both rise
/// by exactly one.
pub proof fn lemma_link_preserves_holder_total(
    hgs: Seq<HolderGroup>,
    i: int,
    holder: TransferRestrictionHolder,
    holder_key: Seq<u8>,
)
    requires
        0 <= i < hgs.len(),
        hgs[i].holder@ == holder_key,
        hgs[i].current_wallets_count < u32::MAX,
        holder.current_wallets_count == holder_wallets_total(hgs, holder_key),
    ensures
        holder.current_wallets_count + 1 == holder_wallets_total(
            hgs.update(
                i,
                HolderGroup {
                    current_wallets_count: (hgs[i].current_wallets_count + 1) as u32,
                    ..hgs[i]
                },
            ),
            holder_key,
        ),
{
    let hg = HolderGroup {
        current_wallets_count: (hgs[i].current_wallets_count + 1) as u32,
        ..hgs[i]
    };
    lemma_holder_wallets_update(hgs, i, hg, holder_key);
}

/// Law: a group move is a bijection on wallet location.  Shifting one
/// wallet out of the record at `i` and into the record at `j` moves both
/// groups' stored holder counts exactly as `transfer_wallet_between_groups`
/// promises — the departed group loses a holder exactly when the wallet was
/// its holder's last one there, the entered group gains one exactly when it
/// is the holder's first one there — and leaves every holder's wallet
/// total, over all groups, unchanged.
pub proof fn lemma_transfer_preserves_counts(
    hgs: Seq<HolderGroup>,
    i: int,
    j: int,
    group_current: TransferRestrictionGroup,
    group_new: TransferRestrictionGroup,
)
    requires
        0 <= i < hgs.len(),
        0 <= j < hgs.len(),
        i != j,
        hgs[i].group == group_current.id,
        hgs[j].group == group_new.id,
        group_current.id != group_new.id,
        hgs[i].current_wallets_count >= 1,
        hgs[j].current_wallets_count < u32::MAX,
        group_current.current_holders_count == holders_in_group(hgs, group_current.id),
        group_new.current_holders_count == holders_in_group(hgs, group_new.id),
    ensures
        ({
            let hgs2 = hgs.update(
                i,
                HolderGroup {
                    current_wallets_count: (hgs[i].current_wallets_count - 1) as u32,
                    ..hgs[i]
                },
            ).update(
                j,
                HolderGroup {
                    current_wallets_count: (hgs[j].current_wallets_count + 1) as u32,
                    ..hgs[j]
                },
            );
            &&& group_count_after_link(group_new, hgs[j]) == holders_in_group(hgs2, group_new.id)
            &&& (if hgs[i].current_wallets_count == 1 {
                group_current.current_holders_count - 1
            } else {
                group_current.current_holders_count as int
            }) == holders_in_group(hgs2, group_current.id)
            &&& forall|h: Seq<u8>|
                holder_wallets_total(hgs2, h) == holder_wallets_total(hgs, h) - wallets_contrib(
                    hgs[i],
                    h,
                ) - wallets_contrib(hgs[j], h) + wallets_contrib(hgs2[i], h) + wallets_contrib(
                    hgs2[j],
                    h,
                )
            &&& (hgs[i].holder@ == hgs[j].holder@ ==> forall|h: Seq<u8>|
                holder_wallets_total(hgs2, h) == holder_wallets_total(hgs, h))
        }),
{
    let hg_i = HolderGroup {
        current_wallets_count: (hgs[i].current_wallets_count - 1) as u32,
        ..hgs[i]
    };
    let hg_j = HolderGroup {
        current_wallets_count: (hgs[j].current_wallets_count + 1) as u32,
        ..hgs[j]
    };
    let hgs1 = hgs.update(i, hg_i);
    let hgs2 = hgs1.update(j, hg_j);
    lemma_holders_in_group_update(hgs, i, hg_i, group_new.id);
    lemma_holders_in_group_update(hgs1, j, hg_j, group_new.id);
    lemma_holders_in_group_update(hgs, i, hg_i, group_current.id);
    lemma_holders_in_group_update(hgs1, j, hg_j, group_current.id);
    assert forall|h: Seq<u8>|
        holder_wallets_total(hgs2, h) == holder_wallets_total(hgs, h) - wallets_contrib(hgs[i], h)
            - wallets_contrib(hgs[j], h) + wallets_contrib(hgs2[i], h) + wallets_contrib(
            hgs2[j],
            h,
        ) by {
        lemma_holder_wallets_update(hgs, i, hg_i, h);
        lemma_holder_wallets_update(hgs1, j, hg_j, h);
    }
}

} // verus!
