//! Collectible records that the registry keeps beside its campaigns.

use vstd::prelude::*;

use near_sdk::AccountId;


verus! {

/// A collectible with its current owner and asking price.
#[derive(Debug)]
pub struct Nft {
    pub owner: AccountId,
    pub uri: String,
    pub category: String,
    pub desc: String,
    pub price: u64,
}

/// The value of a collectible, its texts as character sequences.
pub struct NftView {
    pub owner: AccountId,
    pub uri: Seq<char>,
    pub category: Seq<char>,
    pub desc: Seq<char>,
    pub price: u64,
}

impl View for Nft {
    type V = NftView;

    open spec fn view(&self) -> NftView {
        NftView {
            owner: self.owner,
            uri: self.uri@,
            category: self.category@,
            desc: self.desc@,
            price: self.price,
        }
    }
}

impl Clone for Nft {
    fn clone(&self) -> (r: Self)
        ensures
            r@ == self@,
    {
        Nft {
            owner: self.owner.clone(),
            uri: self.uri.clone(),
            category: self.category.clone(),
            desc: self.desc.clone(),
            price: self.price,
        }
    }
}

} // verus!
