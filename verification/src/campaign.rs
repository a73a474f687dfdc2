//! The life of a campaign: it is created open, and once its time is over
//! anyone may finalize it, after which nothing about it changes.

use crate::address::Address;
use crate::clock::unix_timestamp;
use crate::error::ErrorCode;
use crate::state::{
    stored_len, stored_length, Campaign, Config, Slot, MAX_DESCRIPTION_LEN, MAX_DURATION_DAYS,
    MAX_TITLE_LEN, SECONDS_PER_DAY,
};
use vstd::prelude::*;

verus! {

/// What the creation of a campaign touches.
#[derive(Clone, Debug, PartialEq, Eq)]
pub struct CreateCampaign {
    pub config: Config,
    /// The place of the campaign that the farmer numbers `campaign_id`.
    pub campaign: Slot<Campaign>,
    /// The currency in which the campaign raises funds.
    pub currency_mint: Address,
    /// The caller who signed.
    pub farmer: Address,
}

/// What the finalization of a campaign touches.
#[derive(Clone, Debug, PartialEq, Eq)]
pub struct FinalizeCampaign {
    pub campaign: Campaign,
    /// The caller who signed. Anyone may finalize a campaign whose time is
    /// over: this identity is not compared with anything.
    pub authority: Address,
}

/// Why a campaign with these properties is not created on a platform in the
/// state `config`, before the clock is read; `None` where nothing speaks
/// against it.
pub open spec fn campaign_refusal(
    config: Config,
    title: Seq<char>,
    description: Seq<char>,
    goal_amount: u64,
    duration_days: u64,
) -> Option<ErrorCode> {
    if stored_len(title) > MAX_TITLE_LEN {
        Some(ErrorCode::TitleTooLong)
    } else if stored_len(description) > MAX_DESCRIPTION_LEN {
        Some(ErrorCode::DescriptionTooLong)
    } else if goal_amount == 0 {
        Some(ErrorCode::InvalidAmount)
    } else if duration_days == 0 || duration_days > MAX_DURATION_DAYS {
        Some(ErrorCode::InvalidDuration)
    } else if !config.is_active || config.is_paused {
        Some(ErrorCode::PlatformInactive)
    } else {
        None
    }
}

/// The campaign as it is created at time `now`.
pub open spec fn new_campaign(
    ctx: CreateCampaign,
    campaign_id: u64,
    title: String,
    description: String,
    goal_amount: u64,
    duration_days: u64,
    now: i64,
) -> Campaign {
    Campaign {
        bump: ctx.campaign.bump,
        farmer: ctx.farmer,
        campaign_id,
        title,
        description,
        goal_amount,
        raised_amount: 0,
        currency_mint: ctx.currency_mint,
        start_time: now,
        end_time: (now + duration_days * SECONDS_PER_DAY) as i64,
        is_active: true,
        is_finalized: false,
        backers_count: 0,
        tiers_count: 0,
    }
}

/// What `create_campaign` does when the clock reads `clock`: the records
/// afterwards, or the refusal.
pub open spec fn create_campaign_outcome(
    ctx: CreateCampaign,
    campaign_id: u64,
    title: String,
    description: String,
    goal_amount: u64,
    duration_days: u64,
    clock: Option<i64>,
) -> Result<CreateCampaign, ErrorCode> {
    if ctx.campaign.record is Some {
        Err(ErrorCode::AlreadyExists)
    } else {
        match campaign_refusal(ctx.config, title@, description@, goal_amount, duration_days) {
            Some(e) => Err(e),
            None => if clock is None {
                Err(ErrorCode::ClockUnavailable)
            } else if clock->0 + duration_days * SECONDS_PER_DAY > i64::MAX
                || ctx.config.total_campaigns + 1 > u64::MAX {
                Err(ErrorCode::MathOverflow)
            } else {
                Ok(
                    CreateCampaign {
                        config: Config {
                            total_campaigns: (ctx.config.total_campaigns + 1) as u64,
                            ..ctx.config
                        },
                        campaign: Slot {
                            record: Some(
                                new_campaign(
                                    ctx,
                                    campaign_id,
                                    title,
                                    description,
                                    goal_amount,
                                    duration_days,
                                    clock->0,
                                ),
                            ),
                            ..ctx.campaign
                        },
                        ..ctx
                    },
                )
            },
        }
    }
}

/// What `finalize_campaign` does when the clock reads `clock`.
pub open spec fn finalize_campaign_outcome(ctx: FinalizeCampaign, clock: Option<i64>) -> Result<
    FinalizeCampaign,
    ErrorCode,
> {
    if clock is None {
        Err(ErrorCode::ClockUnavailable)
    } else if !ctx.campaign.is_active {
        Err(ErrorCode::CampaignNotActive)
    } else if ctx.campaign.is_finalized {
        Err(ErrorCode::CampaignAlreadyFinalized)
    } else if clock->0 <= ctx.campaign.end_time {
        Err(ErrorCode::CampaignNotEnded)
    } else {
        Ok(
            FinalizeCampaign {
                campaign: Campaign { is_active: false, is_finalized: true, ..ctx.campaign },
                ..ctx
            },
        )
    }
}

/// The checks of a creation that need no clock.
fn check_campaign(
    ctx: &CreateCampaign,
    title: &String,
    description: &String,
    goal_amount: u64,
    duration_days: u64,
) -> (r: Result<(), ErrorCode>)
    ensures
        r == (if ctx.campaign.record is Some {
            Err::<(), ErrorCode>(ErrorCode::AlreadyExists)
        } else {
            match campaign_refusal(ctx.config, title@, description@, goal_amount, duration_days) {
                Some(e) => Err(e),
                None => Ok(()),
            }
        }),
{
    if ctx.campaign.record.is_some() {
        return Err(ErrorCode::AlreadyExists);
    }
    if stored_length(title) > MAX_TITLE_LEN {
        return Err(ErrorCode::TitleTooLong);
    }
    if stored_length(description) > MAX_DESCRIPTION_LEN {
        return Err(ErrorCode::DescriptionTooLong);
    }
    if goal_amount == 0 {
        return Err(ErrorCode::InvalidAmount);
    }
    if duration_days == 0 || duration_days > MAX_DURATION_DAYS {
        return Err(ErrorCode::InvalidDuration);
    }
    if !ctx.config.is_active || ctx.config.is_paused {
        return Err(ErrorCode::PlatformInactive);
    }
    Ok(())
}

/// Creates a campaign that starts at time `now` and runs for `duration_days`
/// days.
pub fn create_campaign_at(
    ctx: &mut CreateCampaign,
    campaign_id: u64,
    title: String,
    description: String,
    goal_amount: u64,
    duration_days: u64,
    now: i64,
) -> (r: Result<(), ErrorCode>)
    ensures
        (match create_campaign_outcome(
            *old(ctx),
            campaign_id,
            title,
            description,
            goal_amount,
            duration_days,
            Some(now),
        ) {
            Ok(after) => *final(ctx) == after && r is Ok,
            Err(e) => *final(ctx) == *old(ctx) && r == Err::<(), ErrorCode>(e),
        }),
        r is Ok ==> final(ctx).campaign.record is Some && final(ctx).campaign.record->0.wf(),
        old(ctx).config.wf() ==> final(ctx).config.wf(),
{
    match check_campaign(ctx, &title, &description, goal_amount, duration_days) {
        Ok(()) => {},
        Err(e) => { return Err(e); },
    }
    let span: u64 = duration_days * SECONDS_PER_DAY;
    let end_time = match now.checked_add(span as i64) {
        Some(v) => v,
        None => { return Err(ErrorCode::MathOverflow); },
    };
    let total = match ctx.config.total_campaigns.checked_add(1) {
        Some(v) => v,
        None => { return Err(ErrorCode::MathOverflow); },
    };
    ctx.campaign.record = Some(
        Campaign {
            bump: ctx.campaign.bump,
            farmer: ctx.farmer,
            campaign_id,
            title,
            description,
            goal_amount,
            raised_amount: 0,
            currency_mint: ctx.currency_mint,
            start_time: now,
            end_time,
            is_active: true,
            is_finalized: false,
            backers_count: 0,
            tiers_count: 0,
        },
    );
    ctx.config.total_campaigns = total;
    Ok(())
}

/// Creates a campaign that starts at the time that the ledger's clock
/// reports.
pub fn create_campaign(
    ctx: &mut CreateCampaign,
    campaign_id: u64,
    title: String,
    description: String,
    goal_amount: u64,
    duration_days: u64,
) -> (r: Result<(), ErrorCode>)
    ensures
        (exists|clock: Option<i64>|
            match #[trigger] create_campaign_outcome(
                *old(ctx),
                campaign_id,
                title,
                description,
                goal_amount,
                duration_days,
                clock,
            ) {
                Ok(after) => *final(ctx) == after && r is Ok,
                Err(e) => *final(ctx) == *old(ctx) && r == Err::<(), ErrorCode>(e),
            }),
        r is Ok ==> final(ctx).campaign.record is Some && final(ctx).campaign.record->0.wf(),
        old(ctx).config.wf() ==> final(ctx).config.wf(),
{
    match unix_timestamp() {
        Some(now) => create_campaign_at(
            ctx,
            campaign_id,
            title,
            description,
            goal_amount,
            duration_days,
            now,
        ),
        None => {
            assert(create_campaign_outcome(
                *old(ctx),
                campaign_id,
                title,
                description,
                goal_amount,
                duration_days,
                None::<i64>,
            ) is Err);
            match check_campaign(ctx, &title, &description, goal_amount, duration_days) {
                Ok(()) => Err(ErrorCode::ClockUnavailable),
                Err(e) => Err(e),
            }
        },
    }
}

/// Closes a campaign whose time was over at time `now`.
pub fn finalize_campaign_at(ctx: &mut FinalizeCampaign, now: i64) -> (r: Result<(), ErrorCode>)
    ensures
        (match finalize_campaign_outcome(*old(ctx), Some(now)) {
            Ok(after) => *final(ctx) == after && r is Ok,
            Err(e) => *final(ctx) == *old(ctx) && r == Err::<(), ErrorCode>(e),
        }),
        old(ctx).campaign.wf() ==> final(ctx).campaign.wf(),
{
    if !ctx.campaign.is_active {
        return Err(ErrorCode::CampaignNotActive);
    }
    if ctx.campaign.is_finalized {
        return Err(ErrorCode::CampaignAlreadyFinalized);
    }
    if now <= ctx.campaign.end_time {
        return Err(ErrorCode::CampaignNotEnded);
    }
    ctx.campaign.is_active = false;
    ctx.campaign.is_finalized = true;
    Ok(())
}

/// Closes a campaign whose time is over by the ledger's clock.
pub fn finalize_campaign(ctx: &mut FinalizeCampaign) -> (r: Result<(), ErrorCode>)
    ensures
        (exists|clock: Option<i64>|
            match #[trigger] finalize_campaign_outcome(*old(ctx), clock) {
                Ok(after) => *final(ctx) == after && r is Ok,
                Err(e) => *final(ctx) == *old(ctx) && r == Err::<(), ErrorCode>(e),
            }),
        old(ctx).campaign.wf() ==> final(ctx).campaign.wf(),
{
    match unix_timestamp() {
        Some(now) => finalize_campaign_at(ctx, now),
        None => {
            assert(finalize_campaign_outcome(*old(ctx), None::<i64>) is Err);
            Err(ErrorCode::ClockUnavailable)
        },
    }
}

} // verus!
