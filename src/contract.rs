//! The registry: campaign records, the active and inactive indexes, the set
//! of owners running an open campaign, and the operations on them.

use vstd::prelude::*;

use near_sdk::AccountId;

use crate::campaign::{total_donated, Crowdfund, CrowdfundView, Donar};
use crate::nft::{Nft, NftView};
use crate::seq_sets::{lemma_push_to_set, remove_account, remove_id};

verus! {

/// Smallest units of the ledger's currency in one whole unit; campaign
/// amounts are counted in whole units and paid out in the smallest ones.
pub const YOCTO_PER_UNIT: u128 = 1_000_000_000_000_000_000_000_000;

/// Why an operation was refused. A refused operation changes nothing.
#[derive(Debug, Clone, Copy, PartialEq, Eq, Structural)]
pub enum CrowdfundError {
    CampaignNotFound,
    DuplicateActiveCampaign,
    ArithmeticOverflow,
    NftNotFound,
}

/// What a contribution did.
#[derive(Debug, Clone, Copy, PartialEq, Eq, Structural)]
pub enum Contribution {
    /// Recorded; the campaign stays open.
    Recorded,
    /// Recorded; the campaign reached its target and closed.
    GoalReached,
    /// The campaign was already closed: nothing was recorded.
    Ignored,
}

/// A payment for the host ledger to make, in the currency's smallest units.
#[derive(Debug)]
pub struct Transfer {
    pub receiver: AccountId,
    pub amount: u128,
}

/// Campaigns listed together with their ids, position by position.
#[derive(Debug)]
pub struct ActiveCrowdfunds {
    pub crowdfunds: Vec<Crowdfund>,
    pub cf_ids: Vec<u16>,
}

/// The campaigns of one owner, with their ids, in order of creation.
#[derive(Debug)]
pub struct MyCrowdfunds {
    pub crowdfunds: Vec<Crowdfund>,
    pub cf_ids: Vec<u16>,
}

/// The registry. A campaign's id is its position among the records.
pub struct Contract {
    owner_id: AccountId,
    crowdfunds: Vec<Crowdfund>,
    nfts: Vec<Nft>,
    active_cfs: Vec<u16>,
    inactive_cfs: Vec<u16>,
    active_accounts: Vec<AccountId>,
}

/// The value of the registry: the records in order of id, and the indexes
/// as sets.
pub struct ContractView {
    pub owner_id: AccountId,
    pub crowdfunds: Seq<CrowdfundView>,
    pub nfts: Seq<NftView>,
    pub active_cfs: Set<u16>,
    pub inactive_cfs: Set<u16>,
    pub active_accounts: Set<AccountId>,
}

impl View for Contract {
    type V = ContractView;

    closed spec fn view(&self) -> ContractView {
        ContractView {
            owner_id: self.owner_id,
            crowdfunds: self.crowdfunds@.map_values(|c: Crowdfund| c@),
            nfts: self.nfts@.map_values(|n: Nft| n@),
            active_cfs: self.active_cfs@.to_set(),
            inactive_cfs: self.inactive_cfs@.to_set(),
            active_accounts: self.active_accounts@.to_set(),
        }
    }
}

/// A new campaign: open, nothing raised, no donors, not withdrawn.
pub open spec fn new_campaign(
    account_id: AccountId,
    cf_name: Seq<char>,
    cf_desc: Seq<char>,
    deadline: u64,
    created_at: u64,
    target_value: u16,
    min_amount: u8,
) -> CrowdfundView {
    CrowdfundView {
        account_id,
        cf_name,
        cf_desc,
        deadline,
        created_at,
        target_value,
        min_amount,
        amount_raised: 0,
        active: true,
        withdraw: false,
        donars: Seq::empty(),
    }
}

/// The ids below `n` of the campaigns that `a` owns, in increasing order.
pub open spec fn owned_ids(crowdfunds: Seq<CrowdfundView>, a: AccountId, n: int) -> Seq<u16>
    decreases n,
{
    if n <= 0 {
        Seq::empty()
    } else if crowdfunds[n - 1].account_id == a {
        owned_ids(crowdfunds, a, n - 1).push((n - 1) as u16)
    } else {
        owned_ids(crowdfunds, a, n - 1)
    }
}

/// `listed` pairs each id of `ids` with the record of that campaign.
pub open spec fn lists_campaigns(
    listed: Seq<Crowdfund>,
    ids: Seq<u16>,
    crowdfunds: Seq<CrowdfundView>,
) -> bool {
    &&& listed.len() == ids.len()
    &&& forall|k: int| 0 <= k < ids.len() ==> #[trigger] listed[k]@ == crowdfunds[ids[k] as int]
}

/// The collectibles among the first `n` that `a` owns, in order of id.
pub open spec fn owned_nfts(nfts: Seq<NftView>, a: AccountId, n: int) -> Seq<NftView>
    decreases n,
{
    if n <= 0 {
        Seq::empty()
    } else if nfts[n - 1].owner == a {
        owned_nfts(nfts, a, n - 1).push(nfts[n - 1])
    } else {
        owned_nfts(nfts, a, n - 1)
    }
}

/// The values of `listed`, position by position, are `nfts`.
pub open spec fn lists_nfts(listed: Seq<Nft>, nfts: Seq<NftView>) -> bool {
    &&& listed.len() == nfts.len()
    &&& forall|k: int| 0 <= k < nfts.len() ==> #[trigger] listed[k]@ == nfts[k]
}

impl ContractView {
    /// The number of campaigns ever created; the next id.
    pub open spec fn count(self) -> nat {
        self.crowdfunds.len()
    }

    /// `a` owns a campaign that is open.
    pub open spec fn is_active_owner(self, a: AccountId) -> bool {
        exists|i: int| 0 <= i < self.count() && #[trigger] self.crowdfunds[i].active
            && self.crowdfunds[i].account_id == a
    }

    /// The registry's invariant: every record is well formed, the two
    /// indexes split the ids created so far by whether the campaign is open,
    /// the owner set is the owners of the open campaigns, and no owner has
    /// two open campaigns.
    pub open spec fn wf(self) -> bool {
        &&& self.count() <= u16::MAX
        &&& self.nfts.len() <= u16::MAX
        &&& forall|i: int| 0 <= i < self.count() ==> #[trigger] self.crowdfunds[i].wf()
        &&& forall|id: u16| #[trigger]
            self.active_cfs.contains(id) <==> (id < self.count() && self.crowdfunds[id as int].active)
        &&& forall|id: u16| #[trigger]
            self.inactive_cfs.contains(id) <==> (id < self.count() && !self.crowdfunds[id as int].active)
        &&& forall|a: AccountId| #[trigger]
            self.active_accounts.contains(a) <==> self.is_active_owner(a)
        &&& forall|i: int, j: int|
            0 <= i < self.count() && 0 <= j < self.count() && #[trigger] self.crowdfunds[i].active
                && #[trigger] self.crowdfunds[j].active && self.crowdfunds[i].account_id
                == self.crowdfunds[j].account_id ==> i == j
    }

    /// The registry after `c` was added as the next campaign.
    pub open spec fn created(self, c: CrowdfundView) -> ContractView {
        ContractView {
            crowdfunds: self.crowdfunds.push(c),
            active_cfs: self.active_cfs.insert(self.count() as u16),
            active_accounts: self.active_accounts.insert(c.account_id),
            ..self
        }
    }

    /// The registry after `d` was given to the open campaign `id`: the gift
    /// is logged and added, and the campaign closes once it meets its target.
    pub open spec fn contributed(self, id: u16, d: Donar) -> ContractView {
        let c = self.crowdfunds[id as int];
        let raised = (c.amount_raised + d.amount) as u16;
        let reached = raised >= c.target_value;
        ContractView {
            crowdfunds: self.crowdfunds.update(
                id as int,
                CrowdfundView { amount_raised: raised, active: !reached, donars: c.donars.push(d), ..c },
            ),
            active_cfs: if reached { self.active_cfs.remove(id) } else { self.active_cfs },
            inactive_cfs: if reached { self.inactive_cfs.insert(id) } else { self.inactive_cfs },
            active_accounts: if reached {
                self.active_accounts.remove(c.account_id)
            } else {
                self.active_accounts
            },
            ..self
        }
    }

    /// The registry after `n` was added as the next collectible.
    pub open spec fn minted(self, n: NftView) -> ContractView {
        ContractView { nfts: self.nfts.push(n), ..self }
    }

    /// The registry after `buyer` became the owner of collectible `id`.
    pub open spec fn sold(self, id: u16, buyer: AccountId) -> ContractView {
        ContractView {
            nfts: self.nfts.update(id as int, NftView { owner: buyer, ..self.nfts[id as int] }),
            ..self
        }
    }

    /// A withdrawal by `caller` from campaign `id` pays out: the caller owns
    /// it, it is closed, and it was not paid out before.
    pub open spec fn pays_out(self, caller: AccountId, id: u16) -> bool {
        &&& id < self.count()
        &&& self.crowdfunds[id as int].account_id == caller
        &&& !self.crowdfunds[id as int].active
        &&& !self.crowdfunds[id as int].withdraw
    }

    /// The registry after a withdrawal by `caller` from campaign `id`: the
    /// campaign is marked withdrawn when it pays out, else nothing changes.
    pub open spec fn withdrawn(self, caller: AccountId, id: u16) -> ContractView {
        if self.pays_out(caller, id) {
            let c = self.crowdfunds[id as int];
            ContractView {
                crowdfunds: self.crowdfunds.update(id as int, CrowdfundView { withdraw: true, ..c }),
                ..self
            }
        } else {
            self
        }
    }
}

impl Contract {
    /// The stored vectors hold no duplicates, and the value is well formed.
    pub closed spec fn wf(&self) -> bool {
        &&& self.active_cfs@.no_duplicates()
        &&& self.inactive_cfs@.no_duplicates()
        &&& self.active_accounts@.no_duplicates()
        &&& self@.wf()
    }

    /// A well-formed registry has a well-formed value.
    pub proof fn lemma_view_wf(&self)
        requires
            self.wf(),
        ensures
            self@.wf(),
    {
    }

    /// An empty registry administered by `owner_id`.
    pub fn new(owner_id: AccountId) -> (r: Self)
        ensures
            r.wf(),
            r@.owner_id == owner_id,
            r@.crowdfunds == Seq::<CrowdfundView>::empty(),
            r@.nfts == Seq::<NftView>::empty(),
            r@.active_cfs == Set::<u16>::empty(),
            r@.inactive_cfs == Set::<u16>::empty(),
            r@.active_accounts == Set::<AccountId>::empty(),
    {
        let r = Contract {
            owner_id,
            crowdfunds: Vec::new(),
            nfts: Vec::new(),
            active_cfs: Vec::new(),
            inactive_cfs: Vec::new(),
            active_accounts: Vec::new(),
        };
        assert(r@.crowdfunds =~= Seq::<CrowdfundView>::empty());
        assert(r@.nfts =~= Seq::<NftView>::empty());
        assert(r@.active_cfs =~= Set::<u16>::empty());
        assert(r@.inactive_cfs =~= Set::<u16>::empty());
        assert(r@.active_accounts =~= Set::<AccountId>::empty());
        r
    }

    /// Opens a campaign for `account_id` under the next id, which it returns.
    /// Refused while that account has an open campaign, and once every id
    /// has been given out.
    pub fn create_cf(
        &mut self,
        account_id: AccountId,
        cf_name: String,
        cf_desc: String,
        deadline: u64,
        created_at: u64,
        target_value: u16,
        min_amount: u8,
    ) -> (r: Result<u16, CrowdfundError>)
        requires
            old(self).wf(),
        ensures
            final(self).wf(),
            old(self)@.is_active_owner(account_id) ==> r == Err::<u16, CrowdfundError>(
                CrowdfundError::DuplicateActiveCampaign,
            ),
            !old(self)@.is_active_owner(account_id) && old(self)@.count() == u16::MAX ==> r == Err::<
                u16,
                CrowdfundError,
            >(CrowdfundError::ArithmeticOverflow),
            !old(self)@.is_active_owner(account_id) && old(self)@.count() < u16::MAX ==> r == Ok::<
                u16,
                CrowdfundError,
            >(old(self)@.count() as u16),
            r is Ok ==> final(self)@ == old(self)@.created(
                new_campaign(
                    account_id,
                    cf_name@,
                    cf_desc@,
                    deadline,
                    created_at,
                    target_value,
                    min_amount,
                ),
            ),
            r is Err ==> final(self)@ == old(self)@,
    {
        let mut k: usize = 0;
        while k < self.active_accounts.len()
            invariant
                k <= self.active_accounts@.len(),
                self.wf(),
                self@ == old(self)@,
                forall|j: int| 0 <= j < k ==> self.active_accounts@[j] != account_id,
            decreases self.active_accounts@.len() - k,
        {
            if self.active_accounts[k] == account_id {
                assert(self@.active_accounts.contains(account_id));
                return Err(CrowdfundError::DuplicateActiveCampaign);
            }
            k += 1;
        }
        assert(!self@.active_accounts.contains(account_id));
        if self.crowdfunds.len() >= u16::MAX as usize {
            return Err(CrowdfundError::ArithmeticOverflow);
        }
        let id = self.crowdfunds.len() as u16;
        let ghost pre = self@;
        let owner = account_id.clone();
        proof {
            assert(!self.active_cfs@.contains(id)) by {
                if self.active_cfs@.contains(id) {
                    assert(self@.active_cfs.contains(id));
                }
            }
            lemma_push_to_set(self.active_cfs@, id);
            lemma_push_to_set(self.active_accounts@, account_id);
        }
        self.crowdfunds.push(
            Crowdfund {
                account_id,
                cf_name,
                cf_desc,
                deadline,
                created_at,
                target_value,
                min_amount,
                amount_raised: 0,
                active: true,
                withdraw: false,
                donars: Vec::new(),
            },
        );
        self.active_cfs.push(id);
        self.active_accounts.push(owner);
        proof {
            let c = new_campaign(owner, cf_name@, cf_desc@, deadline, created_at, target_value, min_amount);
            let post = pre.created(c);
            assert(self@.crowdfunds =~= post.crowdfunds);
            assert(c.donars =~= Seq::<Donar>::empty());
            assert(self@ == post);
            assert forall|a: AccountId| #[trigger]
                post.active_accounts.contains(a) <==> post.is_active_owner(a) by {
                if pre.is_active_owner(a) {
                    let i = choose|i: int| 0 <= i < pre.count() && #[trigger] pre.crowdfunds[i].active
                        && pre.crowdfunds[i].account_id == a;
                    assert(post.crowdfunds[i].active);
                }
                if post.is_active_owner(a) && a != owner {
                    let i = choose|i: int| 0 <= i < post.count() && #[trigger] post.crowdfunds[i].active
                        && post.crowdfunds[i].account_id == a;
                    assert(pre.crowdfunds[i].active);
                }
                if a == owner {
                    assert(post.crowdfunds[pre.count() as int].active);
                }
            }
            assert forall|i: int, j: int|
                0 <= i < post.count() && 0 <= j < post.count() && #[trigger] post.crowdfunds[i].active
                    && #[trigger] post.crowdfunds[j].active && post.crowdfunds[i].account_id
                    == post.crowdfunds[j].account_id implies i == j by {
                if i < pre.count() && j == pre.count() {
                    assert(pre.crowdfunds[i].active);
                    assert(pre.is_active_owner(owner));
                }
                if j < pre.count() && i == pre.count() {
                    assert(pre.crowdfunds[j].active);
                    assert(pre.is_active_owner(owner));
                }
                if i < pre.count() && j < pre.count() {
                    assert(pre.crowdfunds[i].active && pre.crowdfunds[j].active);
                }
            }
            assert forall|i: int| 0 <= i < post.count() implies #[trigger] post.crowdfunds[i].wf() by {
                if i < pre.count() {
                    assert(pre.crowdfunds[i].wf());
                }
            }
        }
        Ok(id)
    }

    /// Records a gift of `amount` from `account_id` to campaign `cf_id`, and
    /// closes the campaign when the raised amount meets its target. A gift
    /// to a closed campaign is ignored; one that would carry the raised
    /// amount past the counter's range is refused.
    pub fn contribute(&mut self, account_id: AccountId, amount: u16, cf_id: u16, created_at: u64) -> (r:
        Result<Contribution, CrowdfundError>)
        requires
            old(self).wf(),
        ensures
            final(self).wf(),
            cf_id >= old(self)@.count() ==> r == Err::<Contribution, CrowdfundError>(
                CrowdfundError::CampaignNotFound,
            ) && final(self)@ == old(self)@,
            cf_id < old(self)@.count() && !old(self)@.crowdfunds[cf_id as int].active ==> r == Ok::<
                Contribution,
                CrowdfundError,
            >(Contribution::Ignored) && final(self)@ == old(self)@,
            cf_id < old(self)@.count() && old(self)@.crowdfunds[cf_id as int].active
                && old(self)@.crowdfunds[cf_id as int].amount_raised + amount > u16::MAX ==> r == Err::<
                Contribution,
                CrowdfundError,
            >(CrowdfundError::ArithmeticOverflow) && final(self)@ == old(self)@,
            cf_id < old(self)@.count() && old(self)@.crowdfunds[cf_id as int].active
                && old(self)@.crowdfunds[cf_id as int].amount_raised + amount <= u16::MAX ==> {
                &&& final(self)@ == old(self)@.contributed(
                    cf_id,
                    Donar { account_id, amount, created_at },
                )
                &&& r == if old(self)@.crowdfunds[cf_id as int].amount_raised + amount
                    >= old(self)@.crowdfunds[cf_id as int].target_value {
                    Ok::<Contribution, CrowdfundError>(Contribution::GoalReached)
                } else {
                    Ok::<Contribution, CrowdfundError>(Contribution::Recorded)
                }
            },
    {
        if cf_id as usize >= self.crowdfunds.len() {
            return Err(CrowdfundError::CampaignNotFound);
        }
        let idx = cf_id as usize;
        if !self.crowdfunds[idx].active {
            return Ok(Contribution::Ignored);
        }
        let raised = self.crowdfunds[idx].amount_raised;
        if amount > u16::MAX - raised {
            return Err(CrowdfundError::ArithmeticOverflow);
        }
        let ghost pre = self@;
        let ghost d = Donar { account_id, amount, created_at };
        let mut cf = self.crowdfunds[idx].clone();
        let new_raised = raised + amount;
        cf.amount_raised = new_raised;
        cf.donars.push(Donar { account_id, amount, created_at });
        let reached = new_raised >= cf.target_value;
        if reached {
            proof {
                assert(!self.inactive_cfs@.contains(cf_id)) by {
                    if self.inactive_cfs@.contains(cf_id) {
                        assert(self@.inactive_cfs.contains(cf_id));
                    }
                }
                lemma_push_to_set(self.inactive_cfs@, cf_id);
            }
            remove_id(&mut self.active_cfs, cf_id);
            remove_account(&mut self.active_accounts, &cf.account_id);
            self.inactive_cfs.push(cf_id);
            cf.active = false;
        }
        self.crowdfunds.set(idx, cf);
        proof {
            let post = pre.contributed(cf_id, d);
            let c = pre.crowdfunds[cf_id as int];
            assert(self@.crowdfunds =~= post.crowdfunds);
            assert(self@ == post);
            assert(c.donars.push(d).drop_last() =~= c.donars);
            assert(c.wf());
            assert forall|i: int| 0 <= i < post.count() implies #[trigger] post.crowdfunds[i].wf() by {
                if i != cf_id {
                    assert(pre.crowdfunds[i].wf());
                }
            }
            assert forall|a: AccountId| #[trigger]
                post.active_accounts.contains(a) <==> post.is_active_owner(a) by {
                if pre.is_active_owner(a) && !(reached && a == c.account_id) {
                    let i = choose|i: int| 0 <= i < pre.count() && #[trigger] pre.crowdfunds[i].active
                        && pre.crowdfunds[i].account_id == a;
                    if i == cf_id {
                        assert(post.crowdfunds[i].active);
                    } else {
                        assert(post.crowdfunds[i].active);
                    }
                }
                if post.is_active_owner(a) {
                    let i = choose|i: int| 0 <= i < post.count() && #[trigger] post.crowdfunds[i].active
                        && post.crowdfunds[i].account_id == a;
                    assert(pre.crowdfunds[i].active);
                    assert(pre.crowdfunds[cf_id as int].active);
                }
            }
            assert forall|i: int, j: int|
                0 <= i < post.count() && 0 <= j < post.count() && #[trigger] post.crowdfunds[i].active
                    && #[trigger] post.crowdfunds[j].active && post.crowdfunds[i].account_id
                    == post.crowdfunds[j].account_id implies i == j by {
                assert(pre.crowdfunds[i].active && pre.crowdfunds[j].active);
            }
        }
        if reached {
            Ok(Contribution::GoalReached)
        } else {
            Ok(Contribution::Recorded)
        }
    }

    /// Pays the raised amount of campaign `cf_id` out to `caller` when the
    /// caller owns it, it is closed and it was not paid out before; the
    /// campaign is marked withdrawn before the payment is handed back. Any
    /// other call on an existing campaign changes nothing and pays nothing.
    pub fn withdraw(&mut self, caller: AccountId, cf_id: u16) -> (r: Result<
        Option<Transfer>,
        CrowdfundError,
    >)
        requires
            old(self).wf(),
        ensures
            final(self).wf(),
            final(self)@ == old(self)@.withdrawn(caller, cf_id),
            cf_id >= old(self)@.count() ==> r == Err::<Option<Transfer>, CrowdfundError>(
                CrowdfundError::CampaignNotFound,
            ),
            cf_id < old(self)@.count() && !old(self)@.pays_out(caller, cf_id) ==> r == Ok::<
                Option<Transfer>,
                CrowdfundError,
            >(None),
            old(self)@.pays_out(caller, cf_id) ==> (r matches Ok(Some(t)) && t.receiver == caller
                && t.amount == old(self)@.crowdfunds[cf_id as int].amount_raised * YOCTO_PER_UNIT),
    {
        if cf_id as usize >= self.crowdfunds.len() {
            return Err(CrowdfundError::CampaignNotFound);
        }
        let idx = cf_id as usize;
        if !(self.crowdfunds[idx].account_id == caller) || self.crowdfunds[idx].active
            || self.crowdfunds[idx].withdraw {
            return Ok(None);
        }
        let ghost pre = self@;
        let mut cf = self.crowdfunds[idx].clone();
        cf.withdraw = true;
        let amount = (cf.amount_raised as u128) * YOCTO_PER_UNIT;
        self.crowdfunds.set(idx, cf);
        proof {
            let post = pre.withdrawn(caller, cf_id);
            assert(self@.crowdfunds =~= post.crowdfunds);
            assert(self@ == post);
            assert forall|i: int| 0 <= i < post.count() implies #[trigger] post.crowdfunds[i].wf() by {
                assert(pre.crowdfunds[i].wf());
            }
            assert forall|a: AccountId| #[trigger]
                post.active_accounts.contains(a) <==> post.is_active_owner(a) by {
                if pre.is_active_owner(a) {
                    let i = choose|i: int| 0 <= i < pre.count() && #[trigger] pre.crowdfunds[i].active
                        && pre.crowdfunds[i].account_id == a;
                    assert(post.crowdfunds[i].active);
                }
                if post.is_active_owner(a) {
                    let i = choose|i: int| 0 <= i < post.count() && #[trigger] post.crowdfunds[i].active
                        && post.crowdfunds[i].account_id == a;
                    assert(pre.crowdfunds[i].active);
                }
            }
            assert forall|i: int, j: int|
                0 <= i < post.count() && 0 <= j < post.count() && #[trigger] post.crowdfunds[i].active
                    && #[trigger] post.crowdfunds[j].active && post.crowdfunds[i].account_id
                    == post.crowdfunds[j].account_id implies i == j by {
                assert(pre.crowdfunds[i].active && pre.crowdfunds[j].active);
            }
        }
        Ok(Some(Transfer { receiver: caller, amount }))
    }

    /// Copies the campaigns whose ids `ids` lists, in that order.
    fn collect(&self, ids: &Vec<u16>) -> (r: ActiveCrowdfunds)
        requires
            self.wf(),
            forall|k: int| 0 <= k < ids@.len() ==> ids@[k] < self@.count(),
        ensures
            r.cf_ids@ == ids@,
            lists_campaigns(r.crowdfunds@, r.cf_ids@, self@.crowdfunds),
    {
        let mut crowdfunds: Vec<Crowdfund> = Vec::new();
        let mut cf_ids: Vec<u16> = Vec::new();
        let mut k: usize = 0;
        while k < ids.len()
            invariant
                k <= ids@.len(),
                cf_ids@ == ids@.subrange(0, k as int),
                lists_campaigns(crowdfunds@, cf_ids@, self@.crowdfunds),
                forall|k: int| 0 <= k < ids@.len() ==> ids@[k] < self@.count(),
            decreases ids@.len() - k,
        {
            let id = ids[k];
            crowdfunds.push(self.crowdfunds[id as usize].clone());
            cf_ids.push(id);
            k += 1;
        }
        assert(cf_ids@ =~= ids@);
        ActiveCrowdfunds { crowdfunds, cf_ids }
    }

    /// The record of campaign `cf_id`, donor log included.
    pub fn get_cf(&self, cf_id: u16) -> (r: Result<Crowdfund, CrowdfundError>)
        requires
            self.wf(),
        ensures
            cf_id >= self@.count() ==> r == Err::<Crowdfund, CrowdfundError>(
                CrowdfundError::CampaignNotFound,
            ),
            cf_id < self@.count() ==> (r matches Ok(c) && c@ == self@.crowdfunds[cf_id as int]),
    {
        if cf_id as usize >= self.crowdfunds.len() {
            return Err(CrowdfundError::CampaignNotFound);
        }
        Ok(self.crowdfunds[cf_id as usize].clone())
    }

    /// The open campaigns with their ids, each once, in no particular order.
    pub fn get_active_cfs(&self) -> (r: ActiveCrowdfunds)
        requires
            self.wf(),
        ensures
            r.cf_ids@.no_duplicates(),
            r.cf_ids@.to_set() == self@.active_cfs,
            lists_campaigns(r.crowdfunds@, r.cf_ids@, self@.crowdfunds),
    {
        proof {
            assert forall|k: int| 0 <= k < self.active_cfs@.len() implies self.active_cfs@[k]
                < self@.count() by {
                assert(self@.active_cfs.contains(self.active_cfs@[k]));
            }
        }
        self.collect(&self.active_cfs)
    }

    /// The owners of the open campaigns, each once, in no particular order.
    pub fn get_active_accounts(&self) -> (r: Vec<AccountId>)
        requires
            self.wf(),
        ensures
            r@.no_duplicates(),
            r@.to_set() == self@.active_accounts,
    {
        let mut out: Vec<AccountId> = Vec::new();
        let mut k: usize = 0;
        while k < self.active_accounts.len()
            invariant
                k <= self.active_accounts@.len(),
                out@ == self.active_accounts@.subrange(0, k as int),
            decreases self.active_accounts@.len() - k,
        {
            out.push(self.active_accounts[k].clone());
            k += 1;
        }
        assert(out@ =~= self.active_accounts@);
        out
    }

    /// The closed campaigns with their ids, each once, in no particular order.
    pub fn get_inactive_cfs(&self) -> (r: ActiveCrowdfunds)
        requires
            self.wf(),
        ensures
            r.cf_ids@.no_duplicates(),
            r.cf_ids@.to_set() == self@.inactive_cfs,
            lists_campaigns(r.crowdfunds@, r.cf_ids@, self@.crowdfunds),
    {
        proof {
            assert forall|k: int| 0 <= k < self.inactive_cfs@.len() implies self.inactive_cfs@[k]
                < self@.count() by {
                assert(self@.inactive_cfs.contains(self.inactive_cfs@[k]));
            }
        }
        self.collect(&self.inactive_cfs)
    }

    /// The campaigns that `account_id` owns, open or closed, with their ids,
    /// in order of creation. Every campaign ever created is examined.
    #[allow(non_snake_case)]
    pub fn get_cfs_by_accountId(&self, account_id: AccountId) -> (r: MyCrowdfunds)
        requires
            self.wf(),
        ensures
            r.cf_ids@ == owned_ids(self@.crowdfunds, account_id, self@.count() as int),
            lists_campaigns(r.crowdfunds@, r.cf_ids@, self@.crowdfunds),
    {
        let mut crowdfunds: Vec<Crowdfund> = Vec::new();
        let mut cf_ids: Vec<u16> = Vec::new();
        let mut i: usize = 0;
        while i < self.crowdfunds.len()
            invariant
                i <= self@.count(),
                self@.count() <= u16::MAX,
                cf_ids@ == owned_ids(self@.crowdfunds, account_id, i as int),
                lists_campaigns(crowdfunds@, cf_ids@, self@.crowdfunds),
            decreases self@.count() - i,
        {
            if self.crowdfunds[i].account_id == account_id {
                crowdfunds.push(self.crowdfunds[i].clone());
                cf_ids.push(i as u16);
            }
            i += 1;
        }
        MyCrowdfunds { crowdfunds, cf_ids }
    }

    /// Adds a collectible owned by `caller` under the next id, which it
    /// returns; refused once every id has been given out.
    pub fn mint(&mut self, caller: AccountId, uri: String, category: String, desc: String, price: u64) -> (r:
        Result<u16, CrowdfundError>)
        requires
            old(self).wf(),
        ensures
            final(self).wf(),
            old(self)@.nfts.len() == u16::MAX ==> r == Err::<u16, CrowdfundError>(
                CrowdfundError::ArithmeticOverflow,
            ) && final(self)@ == old(self)@,
            old(self)@.nfts.len() < u16::MAX ==> r == Ok::<u16, CrowdfundError>(
                old(self)@.nfts.len() as u16,
            ) && final(self)@ == old(self)@.minted(
                NftView { owner: caller, uri: uri@, category: category@, desc: desc@, price },
            ),
    {
        if self.nfts.len() >= u16::MAX as usize {
            return Err(CrowdfundError::ArithmeticOverflow);
        }
        let id = self.nfts.len() as u16;
        let ghost pre = self@;
        let ghost n = NftView { owner: caller, uri: uri@, category: category@, desc: desc@, price };
        self.nfts.push(Nft { owner: caller, uri, category, desc, price });
        assert(self@.nfts =~= pre.minted(n).nfts);
        assert(self@ == pre.minted(n));
        Ok(id)
    }

    /// Hands collectible `nft_id` to `caller` and pays its price to the
    /// previous owner. Nothing happens when the caller owns it already; the
    /// sale is refused when the price in the smallest units does not fit the
    /// payment's range.
    pub fn make_owner(&mut self, caller: AccountId, nft_id: u16) -> (r: Result<
        Option<Transfer>,
        CrowdfundError,
    >)
        requires
            old(self).wf(),
        ensures
            final(self).wf(),
            nft_id >= old(self)@.nfts.len() ==> r == Err::<Option<Transfer>, CrowdfundError>(
                CrowdfundError::NftNotFound,
            ) && final(self)@ == old(self)@,
            nft_id < old(self)@.nfts.len() && old(self)@.nfts[nft_id as int].owner == caller ==> r
                == Ok::<Option<Transfer>, CrowdfundError>(None) && final(self)@ == old(self)@,
            nft_id < old(self)@.nfts.len() && old(self)@.nfts[nft_id as int].owner != caller
                && old(self)@.nfts[nft_id as int].price * YOCTO_PER_UNIT > u128::MAX ==> r == Err::<
                Option<Transfer>,
                CrowdfundError,
            >(CrowdfundError::ArithmeticOverflow) && final(self)@ == old(self)@,
            nft_id < old(self)@.nfts.len() && old(self)@.nfts[nft_id as int].owner != caller
                && old(self)@.nfts[nft_id as int].price * YOCTO_PER_UNIT <= u128::MAX ==> {
                &&& final(self)@ == old(self)@.sold(nft_id, caller)
                &&& r matches Ok(Some(t))
                &&& t.receiver == old(self)@.nfts[nft_id as int].owner
                &&& t.amount == old(self)@.nfts[nft_id as int].price * YOCTO_PER_UNIT
            },
    {
        if nft_id as usize >= self.nfts.len() {
            return Err(CrowdfundError::NftNotFound);
        }
        let idx = nft_id as usize;
        if self.nfts[idx].owner == caller {
            return Ok(None);
        }
        let price = self.nfts[idx].price as u128;
        if price > u128::MAX / YOCTO_PER_UNIT {
            assert(price * YOCTO_PER_UNIT > u128::MAX) by (nonlinear_arith)
                requires
                    price > u128::MAX / YOCTO_PER_UNIT,
            ;
            return Err(CrowdfundError::ArithmeticOverflow);
        }
        assert(price * YOCTO_PER_UNIT <= u128::MAX) by (nonlinear_arith)
            requires
                price <= u128::MAX / YOCTO_PER_UNIT,
        ;
        let amount = price * YOCTO_PER_UNIT;
        let ghost pre = self@;
        let mut nft = self.nfts[idx].clone();
        let previous = nft.owner;
        nft.owner = caller;
        self.nfts.set(idx, nft);
        assert(self@.nfts =~= pre.sold(nft_id, caller).nfts);
        assert(self@ == pre.sold(nft_id, caller));
        Ok(Some(Transfer { receiver: previous, amount }))
    }

    /// Every collectible, in order of id.
    pub fn all_nfts(&self) -> (r: Vec<Nft>)
        requires
            self.wf(),
        ensures
            lists_nfts(r@, self@.nfts),
    {
        let mut out: Vec<Nft> = Vec::new();
        let mut i: usize = 0;
        while i < self.nfts.len()
            invariant
                i <= self@.nfts.len(),
                lists_nfts(out@, self@.nfts.subrange(0, i as int)),
            decreases self@.nfts.len() - i,
        {
            out.push(self.nfts[i].clone());
            i += 1;
        }
        assert(self@.nfts.subrange(0, self@.nfts.len() as int) =~= self@.nfts);
        out
    }

    /// The collectibles that `owner_id` owns, in order of id.
    pub fn nfts_by_owner(&self, owner_id: AccountId) -> (r: Vec<Nft>)
        requires
            self.wf(),
        ensures
            lists_nfts(r@, owned_nfts(self@.nfts, owner_id, self@.nfts.len() as int)),
    {
        let mut out: Vec<Nft> = Vec::new();
        let mut i: usize = 0;
        while i < self.nfts.len()
            invariant
                i <= self@.nfts.len(),
                lists_nfts(out@, owned_nfts(self@.nfts, owner_id, i as int)),
            decreases self@.nfts.len() - i,
        {
            if self.nfts[i].owner == owner_id {
                out.push(self.nfts[i].clone());
            }
            i += 1;
        }
        out
    }

    /// The collectible `nft_id`.
    pub fn get_nft(&self, nft_id: u16) -> (r: Result<Nft, CrowdfundError>)
        requires
            self.wf(),
        ensures
            nft_id >= self@.nfts.len() ==> r == Err::<Nft, CrowdfundError>(CrowdfundError::NftNotFound),
            nft_id < self@.nfts.len() ==> (r matches Ok(n) && n@ == self@.nfts[nft_id as int]),
    {
        if nft_id as usize >= self.nfts.len() {
            return Err(CrowdfundError::NftNotFound);
        }
        Ok(self.nfts[nft_id as usize].clone())
    }
}

} // verus!
