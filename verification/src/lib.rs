//! An escrow-based crowdfunding ledger: farmers open time-boxed campaigns
//! with contribution tiers, backers pay into a campaign's escrow, and once
//! the campaign is finalized the escrow goes to the farmer, less the
//! platform's fee, if the goal was met, or back to each backer if it was not.
//!
//! Every operation works on the records that it touches and returns the
//! movements of funds that its caller has to carry out. An operation that is
//! refused changes nothing and moves nothing.

pub mod address;
pub mod campaign;
mod clock;
pub mod error;
pub mod escrow;
pub mod intake;
pub mod laws;
pub mod platform;
pub mod refund;
pub mod state;
pub mod tier;
pub mod withdrawal;

pub use address::{Address, Currency};
pub use campaign::{
    create_campaign, create_campaign_at, finalize_campaign, finalize_campaign_at, CreateCampaign,
    FinalizeCampaign,
};
pub use error::ErrorCode;
pub use escrow::{Escrow, EscrowSeeds, Transfer};
pub use intake::{
    back_campaign_sol, back_campaign_sol_at, back_campaign_token, back_campaign_token_at,
    BackCampaignSol, BackCampaignToken,
};
pub use platform::{initialize_config, InitializeConfig};
pub use refund::{claim_refund_sol, claim_refund_token, ClaimRefundSol, ClaimRefundToken};
pub use state::{Backing, Campaign, CampaignTier, Config, Slot};
pub use tier::{create_tier, CreateTier};
pub use withdrawal::{
    withdraw_funds_sol, withdraw_funds_token, WithdrawFundsSol, WithdrawFundsToken,
};
