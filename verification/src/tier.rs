//! Contribution tiers, which a farmer adds to an open campaign.

use crate::address::Address;
use crate::error::ErrorCode;
use crate::state::{
    stored_len, stored_length, Campaign, CampaignTier, Slot, MAX_BENEFITS_LEN, MAX_NAME_LEN,
};
use vstd::prelude::*;

verus! {

/// What the creation of a tier touches.
#[derive(Clone, Debug, PartialEq, Eq)]
pub struct CreateTier {
    /// The address at which `campaign` is stored.
    pub campaign_key: Address,
    pub campaign: Campaign,
    /// The place of the campaign's tier `tier_id`.
    pub tier: Slot<CampaignTier>,
    /// The caller who signed.
    pub farmer: Address,
}

/// Why `farmer` may not add a tier with these properties to `campaign`,
/// `None` where it is added.
pub open spec fn tier_refusal(
    campaign: Campaign,
    farmer: Address,
    name: Seq<char>,
    min_amount: u64,
    max_amount: u64,
    benefits: Seq<char>,
) -> Option<ErrorCode> {
    if stored_len(name) > MAX_NAME_LEN {
        Some(ErrorCode::NameTooLong)
    } else if stored_len(benefits) > MAX_BENEFITS_LEN {
        Some(ErrorCode::BenefitsTooLong)
    } else if min_amount == 0 {
        Some(ErrorCode::InvalidAmount)
    } else if max_amount != 0 && max_amount < min_amount {
        Some(ErrorCode::InvalidTierRange)
    } else if campaign.farmer != farmer {
        Some(ErrorCode::Unauthorized)
    } else if !campaign.is_active {
        Some(ErrorCode::CampaignNotActive)
    } else if campaign.is_finalized {
        Some(ErrorCode::CampaignFinalized)
    } else if campaign.tiers_count + 1 > u8::MAX {
        Some(ErrorCode::MathOverflow)
    } else {
        None
    }
}

/// The tier as it is created: nobody has joined it yet.
pub open spec fn new_tier(
    ctx: CreateTier,
    tier_id: u8,
    name: String,
    min_amount: u64,
    max_amount: u64,
    benefits: String,
    max_backers: u32,
) -> CampaignTier {
    CampaignTier {
        bump: ctx.tier.bump,
        campaign: ctx.campaign_key,
        tier_id,
        name,
        min_amount,
        max_amount,
        benefits,
        max_backers,
        current_backers: 0,
    }
}

/// What `create_tier` does on `ctx`: the records afterwards, or the refusal.
pub open spec fn create_tier_outcome(
    ctx: CreateTier,
    tier_id: u8,
    name: String,
    min_amount: u64,
    max_amount: u64,
    benefits: String,
    max_backers: u32,
) -> Result<CreateTier, ErrorCode> {
    if ctx.tier.record is Some {
        Err(ErrorCode::AlreadyExists)
    } else {
        match tier_refusal(ctx.campaign, ctx.farmer, name@, min_amount, max_amount, benefits@) {
            Some(e) => Err(e),
            None => Ok(
                CreateTier {
                    campaign: Campaign {
                        tiers_count: (ctx.campaign.tiers_count + 1) as u8,
                        ..ctx.campaign
                    },
                    tier: Slot {
                        record: Some(
                            new_tier(
                                ctx,
                                tier_id,
                                name,
                                min_amount,
                                max_amount,
                                benefits,
                                max_backers,
                            ),
                        ),
                        ..ctx.tier
                    },
                    ..ctx
                },
            ),
        }
    }
}

/// Adds a contribution tier to an open campaign of the caller.
pub fn create_tier(
    ctx: &mut CreateTier,
    tier_id: u8,
    name: String,
    min_amount: u64,
    max_amount: u64,
    benefits: String,
    max_backers: u32,
) -> (r: Result<(), ErrorCode>)
    ensures
        (match create_tier_outcome(
            *old(ctx),
            tier_id,
            name,
            min_amount,
            max_amount,
            benefits,
            max_backers,
        ) {
            Ok(after) => *final(ctx) == after && r is Ok,
            Err(e) => *final(ctx) == *old(ctx) && r == Err::<(), ErrorCode>(e),
        }),
        r is Ok ==> final(ctx).tier.record is Some && final(ctx).tier.record->0.wf(),
        old(ctx).campaign.wf() ==> final(ctx).campaign.wf(),
{
    if ctx.tier.record.is_some() {
        return Err(ErrorCode::AlreadyExists);
    }
    if stored_length(&name) > MAX_NAME_LEN {
        return Err(ErrorCode::NameTooLong);
    }
    if stored_length(&benefits) > MAX_BENEFITS_LEN {
        return Err(ErrorCode::BenefitsTooLong);
    }
    if min_amount == 0 {
        return Err(ErrorCode::InvalidAmount);
    }
    if max_amount != 0 && max_amount < min_amount {
        return Err(ErrorCode::InvalidTierRange);
    }
    if ctx.campaign.farmer != ctx.farmer {
        return Err(ErrorCode::Unauthorized);
    }
    if !ctx.campaign.is_active {
        return Err(ErrorCode::CampaignNotActive);
    }
    if ctx.campaign.is_finalized {
        return Err(ErrorCode::CampaignFinalized);
    }
    let tiers = match ctx.campaign.tiers_count.checked_add(1) {
        Some(v) => v,
        None => { return Err(ErrorCode::MathOverflow); },
    };
    ctx.tier.record = Some(
        CampaignTier {
            bump: ctx.tier.bump,
            campaign: ctx.campaign_key,
            tier_id,
            name,
            min_amount,
            max_amount,
            benefits,
            max_backers,
            current_backers: 0,
        },
    );
    ctx.campaign.tiers_count = tiers;
    Ok(())
}

} // verus!
