//! The records that the ledger keeps.

use crate::address::Address;
use vstd::prelude::*;

verus! {

/// Seconds in one day.
pub const SECONDS_PER_DAY: u64 = 86400;

/// The fee that takes everything: 10000 hundredths of a percent.
pub const MAX_FEE_BPS: u16 = 10000;

/// Longest campaign, in days.
pub const MAX_DURATION_DAYS: u64 = 365;

/// Longest title of a campaign, in stored bytes.
pub const MAX_TITLE_LEN: usize = 64;

/// Longest description of a campaign, in stored bytes.
pub const MAX_DESCRIPTION_LEN: usize = 256;

/// Longest name of a tier, in stored bytes.
pub const MAX_NAME_LEN: usize = 32;

/// Longest description of a tier's benefits, in stored bytes.
pub const MAX_BENEFITS_LEN: usize = 256;

/// The length of a text as it is stored: the number of bytes of its UTF-8 form.
pub open spec fn stored_len(text: Seq<char>) -> nat {
    vstd::utf8::encode_utf8(text).len()
}

/// The stored length of `text`.
pub fn stored_length(text: &String) -> (n: usize)
    ensures
        n == stored_len(text@),
{
    text.as_str().as_bytes().len()
}

/// The place at a derived address where a record is to be created.
#[derive(Clone, Copy, Debug, PartialEq, Eq)]
pub struct Slot<T> {
    /// The proof seed with which the address was derived.
    pub bump: u8,
    /// What the address holds: `None` while it is vacant.
    pub record: Option<T>,
}

/// The platform's settings and running totals, one per platform authority.
#[derive(Clone, Copy, Debug, PartialEq, Eq)]
pub struct Config {
    pub bump: u8,
    pub authority: Address,
    pub fee_bps: u16,
    pub total_campaigns: u64,
    pub total_raised: u64,
    pub is_active: bool,
    pub is_paused: bool,
    pub version: u8,
}

impl Config {
    /// Bytes that a stored configuration takes.
    pub const LEN: usize = 1 + 32 + 2 + 8 + 8 + 1 + 1 + 1;

    /// The fee is at most the whole.
    pub open spec fn wf(&self) -> bool {
        self.fee_bps <= MAX_FEE_BPS
    }
}

/// A farmer's fundraising effort.
#[derive(Clone, Debug, PartialEq, Eq)]
pub struct Campaign {
    pub bump: u8,
    pub farmer: Address,
    pub campaign_id: u64,
    pub title: String,
    pub description: String,
    pub goal_amount: u64,
    pub raised_amount: u64,
    pub currency_mint: Address,
    pub start_time: i64,
    pub end_time: i64,
    pub is_active: bool,
    pub is_finalized: bool,
    pub backers_count: u64,
    pub tiers_count: u8,
}

impl Campaign {
    /// Bytes that a stored campaign takes at most.
    pub const LEN: usize = 1 + 32 + 8 + (4 + 64) + (4 + 256) + 8 + 8 + 32 + 8 + 8 + 1 + 1 + 8 + 1;

    /// The texts fit their space, the goal is positive, the campaign runs
    /// for a whole number of days from 1 to 365, and once it is finalized it
    /// is no longer active.
    pub open spec fn wf(&self) -> bool {
        &&& stored_len(self.title@) <= MAX_TITLE_LEN
        &&& stored_len(self.description@) <= MAX_DESCRIPTION_LEN
        &&& self.goal_amount > 0
        &&& (self.end_time - self.start_time) % (SECONDS_PER_DAY as int) == 0
        &&& 1 <= (self.end_time - self.start_time) / (SECONDS_PER_DAY as int) <= MAX_DURATION_DAYS
        &&& self.is_finalized ==> !self.is_active
    }

    /// At least the goal was raised.
    pub open spec fn goal_reached(&self) -> bool {
        self.raised_amount >= self.goal_amount
    }
}

/// A contribution bracket of one campaign.
#[derive(Clone, Debug, PartialEq, Eq)]
pub struct CampaignTier {
    pub bump: u8,
    pub campaign: Address,
    pub tier_id: u8,
    pub name: String,
    pub min_amount: u64,
    pub max_amount: u64,
    pub benefits: String,
    pub max_backers: u32,
    pub current_backers: u32,
}

impl CampaignTier {
    /// Bytes that a stored tier takes at most.
    pub const LEN: usize = 1 + 32 + 1 + (4 + 32) + 8 + 8 + (4 + 256) + 4 + 4;

    /// The texts fit their space, the least amount is positive, the
    /// greatest is absent or not below it, and a bounded tier holds no more
    /// backers than its bound.
    pub open spec fn wf(&self) -> bool {
        &&& stored_len(self.name@) <= MAX_NAME_LEN
        &&& stored_len(self.benefits@) <= MAX_BENEFITS_LEN
        &&& self.min_amount > 0
        &&& (self.max_amount == 0 || self.max_amount >= self.min_amount)
        &&& (self.max_backers != 0 ==> self.current_backers <= self.max_backers)
    }
}

/// The receipt of one backer's contribution to one campaign.
#[derive(Clone, Copy, Debug, PartialEq, Eq)]
pub struct Backing {
    pub bump: u8,
    pub backer: Address,
    pub campaign: Address,
    pub tier_id: u8,
    pub amount: u64,
    pub backed_at: i64,
    pub is_refunded: bool,
}

impl Backing {
    /// Bytes that a stored receipt takes.
    pub const LEN: usize = 1 + 32 + 32 + 1 + 8 + 8 + 1;
}

} // verus!
