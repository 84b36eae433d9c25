use crowdfund::contract::{Contract, Contribution, CrowdfundError, YOCTO_PER_UNIT};
use near_sdk::AccountId;

fn account(name: &str) -> AccountId {
    AccountId::new_unchecked(name.to_string())
}

fn open_campaign(contract: &mut Contract, owner: &str, target: u16) -> u16 {
    contract
        .create_cf(
            account(owner),
            "flood relief".to_string(),
            "from India".to_string(),
            1645488000000000,
            1645488000000001,
            target,
            1,
        )
        .unwrap()
}

fn sorted(mut ids: Vec<u16>) -> Vec<u16> {
    ids.sort();
    ids
}

#[test]
fn check_withdraw() {
    let alice = account("alice.testnet");
    let mut contract = Contract::new(alice.clone());
    let account_id = account("alice.testnet");
    let r = contract.create_cf(
        account_id,
        "flood relief".to_string(),
        "from India".to_string(),
        1645488000000000,
        1645488000000001,
        1,
        1,
    );
    assert_eq!(r, Ok(0));
    let account_id1 = account("alice1.testnet");
    let r = contract.create_cf(
        account_id1,
        "drought relief".to_string(),
        "from India".to_string(),
        1645488000000000,
        1645488000000001,
        40,
        1,
    );
    assert_eq!(r, Ok(1));
    assert_eq!(contract.contribute(account("alice1.testnet"), 1, 0, 1), Ok(Contribution::GoalReached));
    assert_eq!(contract.contribute(account("alice1.testnet"), 1, 1, 1), Ok(Contribution::Recorded));
    let paid = contract.withdraw(alice.clone(), 0).unwrap().unwrap();
    assert_eq!(paid.receiver, alice);
    assert_eq!(paid.amount, YOCTO_PER_UNIT);

    let cf = contract.get_cf(0).unwrap();
    println!("Let's debug contribute-0: {:?}", cf);
    assert!(!cf.active);
    assert!(cf.withdraw);
    assert_eq!(cf.amount_raised, 1);
    let cf = contract.get_cf(1).unwrap();
    println!("Let's debug contribute-1: {:?}", cf);
    assert!(cf.active);
    assert_eq!(cf.amount_raised, 1);
    assert_eq!(cf.donars.len(), 1);
    let cfs = contract.get_active_cfs();
    println!("Let's debug active cfs-3: {:?}", cfs);
    assert_eq!(cfs.cf_ids, vec![1]);
    let cfs = contract.get_cfs_by_accountId(account("alice.testnet"));
    println!("Let's debug get_cf_by_id: {:?}", cfs);
    assert_eq!(cfs.cf_ids, vec![0]);
    let cfs = contract.get_inactive_cfs();
    println!("Let's debug inactive cfs: {:?}", cfs);
    assert_eq!(cfs.cf_ids, vec![0]);
    let cfs = contract.get_active_accounts();
    println!("Let's debug active accounts: {:?}", cfs);
    assert_eq!(cfs, vec![account("alice1.testnet")]);
}

#[test]
fn two_campaigns_scenario() {
    let a = account("a.testnet");
    let b = account("b.testnet");
    let mut contract = Contract::new(a.clone());
    let c1 = open_campaign(&mut contract, "a.testnet", 40);
    let c2 = open_campaign(&mut contract, "b.testnet", 1);
    assert_eq!(contract.contribute(b.clone(), 1, c2, 5), Ok(Contribution::GoalReached));
    assert!(!contract.get_cf(c2).unwrap().active);
    assert_eq!(contract.contribute(a.clone(), 1, c1, 6), Ok(Contribution::Recorded));
    assert!(contract.get_cf(c1).unwrap().active);
    let t = contract.withdraw(b.clone(), c2).unwrap().unwrap();
    assert_eq!(t.receiver, b);
    assert_eq!(t.amount, YOCTO_PER_UNIT);
    assert!(contract.get_cf(c2).unwrap().withdraw);
    assert!(contract.withdraw(b.clone(), c2).unwrap().is_none());
    assert!(contract.get_cf(c2).unwrap().withdraw);
    assert!(contract.withdraw(a.clone(), c1).unwrap().is_none());
    assert!(!contract.get_cf(c1).unwrap().withdraw);

    let active = contract.get_active_cfs();
    assert_eq!(active.cf_ids, vec![c1]);
    assert_eq!(active.crowdfunds.len(), 1);
    assert_eq!(active.crowdfunds[0].amount_raised, 1);
    let inactive = contract.get_inactive_cfs();
    assert_eq!(inactive.cf_ids, vec![c2]);
    assert_eq!(inactive.crowdfunds[0].account_id, b);
    assert_eq!(contract.get_active_accounts(), vec![a]);
}

#[test]
fn second_open_campaign_refused() {
    let mut contract = Contract::new(account("root.testnet"));
    let first = open_campaign(&mut contract, "a.testnet", 2);
    let r = contract.create_cf(
        account("a.testnet"),
        "again".to_string(),
        "second".to_string(),
        1,
        1,
        5,
        1,
    );
    assert_eq!(r, Err(CrowdfundError::DuplicateActiveCampaign));
    assert_eq!(contract.get_cf(1).unwrap_err(), CrowdfundError::CampaignNotFound);
    assert_eq!(contract.contribute(account("x.testnet"), 2, first, 1), Ok(Contribution::GoalReached));
    assert_eq!(open_campaign(&mut contract, "a.testnet", 3), 1);
    let mine = contract.get_cfs_by_accountId(account("a.testnet"));
    assert_eq!(mine.cf_ids, vec![0, 1]);
    assert_eq!(mine.crowdfunds.len(), 2);
    assert_eq!(mine.crowdfunds[1].target_value, 3);
}

#[test]
fn unknown_campaign_refused() {
    let mut contract = Contract::new(account("root.testnet"));
    assert_eq!(contract.contribute(account("a.testnet"), 1, 0, 1), Err(CrowdfundError::CampaignNotFound));
    assert_eq!(contract.withdraw(account("a.testnet"), 0).unwrap_err(), CrowdfundError::CampaignNotFound);
    assert_eq!(contract.get_cf(0).unwrap_err(), CrowdfundError::CampaignNotFound);
    open_campaign(&mut contract, "a.testnet", 5);
    assert_eq!(contract.contribute(account("a.testnet"), 1, 1, 1), Err(CrowdfundError::CampaignNotFound));
}

#[test]
fn contribution_to_closed_campaign_ignored() {
    let mut contract = Contract::new(account("root.testnet"));
    let id = open_campaign(&mut contract, "a.testnet", 3);
    assert_eq!(contract.contribute(account("d.testnet"), 4, id, 1), Ok(Contribution::GoalReached));
    assert_eq!(contract.contribute(account("e.testnet"), 7, id, 2), Ok(Contribution::Ignored));
    let cf = contract.get_cf(id).unwrap();
    assert_eq!(cf.amount_raised, 4);
    assert_eq!(cf.donars.len(), 1);
    assert_eq!(cf.donars[0].account_id, account("d.testnet"));
    assert!(contract.get_active_cfs().cf_ids.is_empty());
    assert_eq!(contract.get_inactive_cfs().cf_ids, vec![id]);
    assert!(contract.get_active_accounts().is_empty());
}

#[test]
fn donor_log_keeps_order_and_sum() {
    let mut contract = Contract::new(account("root.testnet"));
    let id = open_campaign(&mut contract, "a.testnet", 100);
    assert_eq!(contract.contribute(account("d.testnet"), 10, id, 1), Ok(Contribution::Recorded));
    assert_eq!(contract.contribute(account("e.testnet"), 20, id, 2), Ok(Contribution::Recorded));
    assert_eq!(contract.contribute(account("f.testnet"), 70, id, 3), Ok(Contribution::GoalReached));
    let cf = contract.get_cf(id).unwrap();
    assert_eq!(cf.amount_raised, 100);
    let amounts: Vec<u16> = cf.donars.iter().map(|d| d.amount).collect();
    assert_eq!(amounts, vec![10, 20, 70]);
    let times: Vec<u64> = cf.donars.iter().map(|d| d.created_at).collect();
    assert_eq!(times, vec![1, 2, 3]);
    let t = contract.withdraw(account("a.testnet"), id).unwrap().unwrap();
    assert_eq!(t.amount, 100 * YOCTO_PER_UNIT);
    assert_eq!(t.amount, 100_000_000_000_000_000_000_000_000);
}

#[test]
fn raised_amount_overflow_refused() {
    let mut contract = Contract::new(account("root.testnet"));
    let id = open_campaign(&mut contract, "a.testnet", u16::MAX);
    assert_eq!(contract.contribute(account("d.testnet"), 65534, id, 1), Ok(Contribution::Recorded));
    assert_eq!(contract.contribute(account("d.testnet"), 2, id, 2), Err(CrowdfundError::ArithmeticOverflow));
    let cf = contract.get_cf(id).unwrap();
    assert_eq!(cf.amount_raised, 65534);
    assert_eq!(cf.donars.len(), 1);
    assert!(cf.active);
    assert_eq!(contract.contribute(account("d.testnet"), 1, id, 3), Ok(Contribution::GoalReached));
    assert_eq!(contract.get_cf(id).unwrap().amount_raised, u16::MAX);
}

#[test]
fn withdraw_by_stranger_or_while_open_pays_nothing() {
    let mut contract = Contract::new(account("root.testnet"));
    let id = open_campaign(&mut contract, "a.testnet", 10);
    assert!(contract.withdraw(account("a.testnet"), id).unwrap().is_none());
    assert!(!contract.get_cf(id).unwrap().withdraw);
    assert_eq!(contract.contribute(account("d.testnet"), 10, id, 1), Ok(Contribution::GoalReached));
    assert!(contract.withdraw(account("b.testnet"), id).unwrap().is_none());
    assert!(!contract.get_cf(id).unwrap().withdraw);
    assert!(contract.withdraw(account("a.testnet"), id).unwrap().is_some());
    assert!(contract.withdraw(account("a.testnet"), id).unwrap().is_none());
}

#[test]
fn zero_target_campaign_stays_open_until_a_gift() {
    let mut contract = Contract::new(account("root.testnet"));
    let id = open_campaign(&mut contract, "a.testnet", 0);
    assert!(contract.get_cf(id).unwrap().active);
    assert_eq!(contract.contribute(account("d.testnet"), 0, id, 1), Ok(Contribution::GoalReached));
    assert!(!contract.get_cf(id).unwrap().active);
}

#[test]
fn indexes_partition_ids() {
    let mut contract = Contract::new(account("root.testnet"));
    for (k, owner) in ["a.testnet", "b.testnet", "c.testnet", "d.testnet"].iter().enumerate() {
        assert_eq!(open_campaign(&mut contract, owner, 2), k as u16);
    }
    assert_eq!(contract.contribute(account("x.testnet"), 2, 1, 1), Ok(Contribution::GoalReached));
    assert_eq!(contract.contribute(account("x.testnet"), 3, 3, 1), Ok(Contribution::GoalReached));
    assert_eq!(sorted(contract.get_active_cfs().cf_ids), vec![0, 2]);
    assert_eq!(sorted(contract.get_inactive_cfs().cf_ids), vec![1, 3]);
    let mut owners: Vec<String> =
        contract.get_active_accounts().iter().map(|a| a.as_str().to_string()).collect();
    owners.sort();
    assert_eq!(owners, vec!["a.testnet".to_string(), "c.testnet".to_string()]);
}

#[test]
fn campaign_record_is_copied_whole() {
    let mut contract = Contract::new(account("root.testnet"));
    let id = contract
        .create_cf(account("a.testnet"), "name".to_string(), "desc".to_string(), 7, 8, 9, 3)
        .unwrap();
    let cf = contract.get_cf(id).unwrap();
    assert_eq!(cf.account_id, account("a.testnet"));
    assert_eq!(cf.cf_name, "name");
    assert_eq!(cf.cf_desc, "desc");
    assert_eq!((cf.deadline, cf.created_at, cf.target_value, cf.min_amount), (7, 8, 9, 3));
    assert_eq!(cf.amount_raised, 0);
    assert!(cf.active && !cf.withdraw && cf.donars.is_empty());
}

#[test]
fn nft_mint_and_sale() {
    let mut contract = Contract::new(account("root.testnet"));
    assert_eq!(
        contract.mint(account("a.testnet"), "ipfs://x".to_string(), "art".to_string(), "one".to_string(), 5),
        Ok(0)
    );
    assert_eq!(
        contract.mint(account("b.testnet"), "ipfs://y".to_string(), "art".to_string(), "two".to_string(), 2),
        Ok(1)
    );
    assert!(contract.make_owner(account("a.testnet"), 0).unwrap().is_none());
    let t = contract.make_owner(account("c.testnet"), 0).unwrap().unwrap();
    assert_eq!(t.receiver, account("a.testnet"));
    assert_eq!(t.amount, 5 * YOCTO_PER_UNIT);
    assert_eq!(contract.get_nft(0).unwrap().owner, account("c.testnet"));
    assert_eq!(contract.get_nft(2).unwrap_err(), CrowdfundError::NftNotFound);
    assert_eq!(contract.make_owner(account("c.testnet"), 9).unwrap_err(), CrowdfundError::NftNotFound);
    let all = contract.all_nfts();
    assert_eq!(all.len(), 2);
    assert_eq!(all[1].uri, "ipfs://y");
    let mine = contract.nfts_by_owner(account("c.testnet"));
    assert_eq!(mine.len(), 1);
    assert_eq!(mine[0].desc, "one");
    assert!(contract.nfts_by_owner(account("a.testnet")).is_empty());
}

#[test]
fn nft_price_overflow_refused() {
    let mut contract = Contract::new(account("root.testnet"));
    contract
        .mint(account("a.testnet"), "u".to_string(), "c".to_string(), "d".to_string(), u64::MAX)
        .unwrap();
    assert_eq!(contract.make_owner(account("b.testnet"), 0).unwrap_err(), CrowdfundError::ArithmeticOverflow);
    assert_eq!(contract.get_nft(0).unwrap().owner, account("a.testnet"));
}
