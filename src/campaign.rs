//! Campaign records and the donor log each of them keeps.

use vstd::prelude::*;

use near_sdk::AccountId;


verus! {

/// One contribution, as recorded in a campaign's donor log.
#[derive(Debug)]
pub struct Donar {
    pub account_id: AccountId,
    pub amount: u16,
    pub created_at: u64,
}

impl Clone for Donar {
    fn clone(&self) -> (r: Self)
        ensures
            r == *self,
    {
        Donar { account_id: self.account_id.clone(), amount: self.amount, created_at: self.created_at }
    }
}

/// The sum of the amounts in a donor log.
pub open spec fn total_donated(donars: Seq<Donar>) -> nat
    decreases donars.len(),
{
    if donars.len() == 0 {
        0
    } else {
        total_donated(donars.drop_last()) + donars.last().amount as nat
    }
}

/// A campaign as the registry stores it.
#[derive(Debug)]
pub struct Crowdfund {
    pub account_id: AccountId,
    pub cf_name: String,
    pub cf_desc: String,
    pub deadline: u64,
    pub created_at: u64,
    pub target_value: u16,
    pub min_amount: u8,
    pub amount_raised: u16,
    pub active: bool,
    pub withdraw: bool,
    pub donars: Vec<Donar>,
}

/// The value of a campaign: its texts as character sequences, its donor log
/// as a sequence.
pub struct CrowdfundView {
    pub account_id: AccountId,
    pub cf_name: Seq<char>,
    pub cf_desc: Seq<char>,
    pub deadline: u64,
    pub created_at: u64,
    pub target_value: u16,
    pub min_amount: u8,
    pub amount_raised: u16,
    pub active: bool,
    pub withdraw: bool,
    pub donars: Seq<Donar>,
}

impl View for Crowdfund {
    type V = CrowdfundView;

    open spec fn view(&self) -> CrowdfundView {
        CrowdfundView {
            account_id: self.account_id,
            cf_name: self.cf_name@,
            cf_desc: self.cf_desc@,
            deadline: self.deadline,
            created_at: self.created_at,
            target_value: self.target_value,
            min_amount: self.min_amount,
            amount_raised: self.amount_raised,
            active: self.active,
            withdraw: self.withdraw,
            donars: self.donars@,
        }
    }
}

impl CrowdfundView {
    /// The record's own invariant: the raised amount is what the donors gave,
    /// a withdrawn campaign is closed, and an open campaign below its target
    /// unless nobody has given yet.
    pub open spec fn wf(self) -> bool {
        &&& self.amount_raised == total_donated(self.donars)
        &&& self.withdraw ==> !self.active
        &&& (self.active && self.amount_raised >= self.target_value) ==> self.donars.len() == 0
    }
}

/// Copies a donor log entry by entry.
fn copy_donars(donars: &Vec<Donar>) -> (r: Vec<Donar>)
    ensures
        r@ == donars@,
{
    let mut out: Vec<Donar> = Vec::new();
    let mut i: usize = 0;
    while i < donars.len()
        invariant
            i <= donars@.len(),
            out@ == donars@.subrange(0, i as int),
        decreases donars@.len() - i,
    {
        out.push(donars[i].clone());
        i += 1;
    }
    assert(out@ =~= donars@);
    out
}

impl Clone for Crowdfund {
    fn clone(&self) -> (r: Self)
        ensures
            r@ == self@,
    {
        Crowdfund {
            account_id: self.account_id.clone(),
            cf_name: self.cf_name.clone(),
            cf_desc: self.cf_desc.clone(),
            deadline: self.deadline,
            created_at: self.created_at,
            target_value: self.target_value,
            min_amount: self.min_amount,
            amount_raised: self.amount_raised,
            active: self.active,
            withdraw: self.withdraw,
            donars: copy_donars(&self.donars),
        }
    }
}

} // verus!
