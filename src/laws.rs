//! Properties of the registry that hold of every state its operations reach
//! (each operation keeps `Contract::wf`), stated over the same spec functions
//! that the operations' contracts use. `Contract::lemma_view_wf` carries a
//! registry's invariant over to its value.

use vstd::prelude::*;

use near_sdk::AccountId;

use crate::campaign::Donar;
use crate::contract::{Contract, ContractView};

verus! {

/// Each id given out so far is in exactly one of the two indexes; an id not
/// given out yet is in neither.
pub proof fn lemma_ids_partitioned(c: &Contract, id: u16)
    requires
        c.wf(),
    ensures
        id < c@.count() ==> (c@.active_cfs.contains(id) <==> !c@.inactive_cfs.contains(id)),
        id >= c@.count() ==> !c@.active_cfs.contains(id) && !c@.inactive_cfs.contains(id),
{
    c.lemma_view_wf();
}

/// No owner has two open campaigns, and the owner of an open campaign counts
/// as an active owner, so `create_cf` refuses them a second one.
pub proof fn lemma_one_open_campaign_per_owner(c: &Contract, i: int, j: int)
    requires
        c.wf(),
        0 <= i < c@.count(),
        0 <= j < c@.count(),
        c@.crowdfunds[i].active,
        c@.crowdfunds[j].active,
        c@.crowdfunds[i].account_id == c@.crowdfunds[j].account_id,
    ensures
        i == j,
        c@.is_active_owner(c@.crowdfunds[i].account_id),
        c@.active_accounts.contains(c@.crowdfunds[i].account_id),
{
    c.lemma_view_wf();
}

/// A gift that carries an open campaign to its target closes it in the same
/// step: the campaign moves from the active index to the inactive one and
/// its owner leaves the active owners.
pub proof fn lemma_goal_reached_closes(s: ContractView, id: u16, d: Donar)
    requires
        s.wf(),
        id < s.count(),
        s.crowdfunds[id as int].active,
        s.crowdfunds[id as int].amount_raised + d.amount <= u16::MAX,
        s.crowdfunds[id as int].amount_raised + d.amount >= s.crowdfunds[id as int].target_value,
    ensures
        !s.contributed(id, d).crowdfunds[id as int].active,
        !s.contributed(id, d).active_cfs.contains(id),
        s.contributed(id, d).inactive_cfs.contains(id),
        !s.contributed(id, d).active_accounts.contains(s.crowdfunds[id as int].account_id),
{
}

/// No open campaign has met its target once anyone has given to it.
pub proof fn lemma_open_campaign_below_target(c: &Contract, i: int)
    requires
        c.wf(),
        0 <= i < c@.count(),
        c@.crowdfunds[i].active,
        c@.crowdfunds[i].donars.len() > 0,
    ensures
        c@.crowdfunds[i].amount_raised < c@.crowdfunds[i].target_value,
{
    c.lemma_view_wf();
    assert(c@.crowdfunds[i].wf());
}

/// A withdrawal pays out at most once: after one that pays, the campaign is
/// marked withdrawn, no later withdrawal by anyone pays, and such a later
/// withdrawal changes nothing.
pub proof fn lemma_withdraw_pays_once(s: ContractView, owner: AccountId, id: u16, caller: AccountId)
    requires
        s.wf(),
        s.pays_out(owner, id),
    ensures
        s.withdrawn(owner, id).crowdfunds[id as int].withdraw,
        !s.withdrawn(owner, id).pays_out(caller, id),
        s.withdrawn(owner, id).withdrawn(caller, id) == s.withdrawn(owner, id),
{
}

/// A withdrawal by someone other than the owner, or from a campaign that is
/// still open, pays nothing and changes nothing; an open campaign is never
/// marked withdrawn.
pub proof fn lemma_withdraw_refused(s: ContractView, caller: AccountId, id: u16)
    requires
        s.wf(),
        id < s.count(),
        caller != s.crowdfunds[id as int].account_id || s.crowdfunds[id as int].active,
    ensures
        !s.pays_out(caller, id),
        s.withdrawn(caller, id) == s,
        s.crowdfunds[id as int].active ==> !s.crowdfunds[id as int].withdraw,
{
    assert(s.crowdfunds[id as int].wf());
}

} // verus!
