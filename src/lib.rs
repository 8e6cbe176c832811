//! A crowdfunding ledger: campaigns are created once per admin, receive
//! donations from anyone, and pay out to their admin above the rent floor.

pub mod campaign;
mod identity;
pub mod laws;

pub use campaign::{
    create, donate, withhdraw, Campaign, CampaignAccount, Create, CrowdfundingError, Donate,
    UserAccount, Withdraw,
};
pub use identity::Identity;
