//! A registry of crowdfunding campaigns: creation, contributions, the
//! goal-reached transition and a single payout to the campaign owner, with
//! the active and inactive indexes kept consistent with every record.

pub mod account;
pub mod campaign;
pub mod contract;
pub mod laws;
pub mod nft;
pub mod seq_sets;
