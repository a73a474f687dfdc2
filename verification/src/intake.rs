//! Contributions: a backer pays into the escrow of an open campaign, within
//! the bounds of one of its tiers, and gets a receipt.

use crate::address::{Address, Currency};
use crate::clock::unix_timestamp;
use crate::error::ErrorCode;
use crate::escrow::{Escrow, Transfer};
use crate::state::{Backing, Campaign, CampaignTier, Slot};
use vstd::prelude::*;

verus! {

/// What a contribution in the native currency touches.
#[derive(Clone, Debug, PartialEq, Eq)]
pub struct BackCampaignSol {
    /// The address at which `campaign` is stored.
    pub campaign_key: Address,
    pub campaign: Campaign,
    pub tier: CampaignTier,
    pub vault: Escrow,
    /// The place of this backer's receipt for this campaign.
    pub backing: Slot<Backing>,
    /// The caller who signed.
    pub backer: Address,
}

/// What a contribution in the campaign's token touches.
#[derive(Clone, Debug, PartialEq, Eq)]
pub struct BackCampaignToken {
    /// The address at which `campaign` is stored.
    pub campaign_key: Address,
    pub campaign: Campaign,
    pub tier: CampaignTier,
    pub vault_token: Escrow,
    /// The currency that the caller declares.
    pub currency_mint: Address,
    /// The backer's token holding, from which the funds come.
    pub backer_token: Address,
    /// The place of this backer's receipt for this campaign.
    pub backing: Slot<Backing>,
    /// The caller who signed.
    pub backer: Address,
}

/// Why a contribution of `amount` to `tier` at time `now` is refused, `None`
/// where it is taken. `occupied` says that the backer already has a receipt
/// for the campaign, `mint_matches` that the declared currency is the
/// campaign's.
pub open spec fn backing_refusal(
    campaign: Campaign,
    tier: CampaignTier,
    occupied: bool,
    mint_matches: bool,
    tier_id: u8,
    amount: u64,
    now: i64,
) -> Option<ErrorCode> {
    if occupied {
        Some(ErrorCode::AlreadyExists)
    } else if !campaign.is_active {
        Some(ErrorCode::CampaignNotActive)
    } else if campaign.is_finalized {
        Some(ErrorCode::CampaignFinalized)
    } else if now < campaign.start_time {
        Some(ErrorCode::CampaignNotStarted)
    } else if now > campaign.end_time {
        Some(ErrorCode::CampaignEnded)
    } else if tier.tier_id != tier_id {
        Some(ErrorCode::InvalidTier)
    } else if amount < tier.min_amount {
        Some(ErrorCode::AmountBelowMinimum)
    } else if tier.max_amount != 0 && amount > tier.max_amount {
        Some(ErrorCode::AmountAboveMaximum)
    } else if tier.max_backers != 0 && tier.current_backers >= tier.max_backers {
        Some(ErrorCode::TierFull)
    } else if !mint_matches {
        Some(ErrorCode::InvalidMint)
    } else if tier.current_backers + 1 > u32::MAX || campaign.raised_amount + amount > u64::MAX
        || campaign.backers_count + 1 > u64::MAX {
        Some(ErrorCode::MathOverflow)
    } else {
        None
    }
}

/// The campaign after a contribution of `amount` was taken.
pub open spec fn campaign_backed(campaign: Campaign, amount: u64) -> Campaign {
    Campaign {
        raised_amount: (campaign.raised_amount + amount) as u64,
        backers_count: (campaign.backers_count + 1) as u64,
        ..campaign
    }
}

/// The tier after one more backer joined it.
pub open spec fn tier_joined(tier: CampaignTier) -> CampaignTier {
    CampaignTier { current_backers: (tier.current_backers + 1) as u32, ..tier }
}

/// The receipt written for a contribution.
pub open spec fn receipt(
    bump: u8,
    backer: Address,
    campaign_key: Address,
    tier_id: u8,
    amount: u64,
    now: i64,
) -> Backing {
    Backing {
        bump,
        backer,
        campaign: campaign_key,
        tier_id,
        amount,
        backed_at: now,
        is_refunded: false,
    }
}

/// The movement that `signer` authorizes by signing the operation.
pub open spec fn deposit(
    currency: Currency,
    from: Address,
    to: Address,
    signer: Address,
    amount: u64,
) -> Transfer {
    Transfer { currency, from, to, authority: signer, amount, seeds: None }
}

/// What a native-currency contribution does when the clock reads `clock`:
/// the records afterwards and the movement into escrow, or the refusal.
pub open spec fn back_campaign_sol_outcome(
    ctx: BackCampaignSol,
    tier_id: u8,
    amount: u64,
    clock: Option<i64>,
) -> Result<(BackCampaignSol, Transfer), ErrorCode> {
    if ctx.backing.record is Some {
        Err(ErrorCode::AlreadyExists)
    } else if clock is None {
        Err(ErrorCode::ClockUnavailable)
    } else {
        let now = clock->0;
        match backing_refusal(ctx.campaign, ctx.tier, false, true, tier_id, amount, now) {
            Some(e) => Err(e),
            None => Ok(
                (
                    BackCampaignSol {
                        campaign: campaign_backed(ctx.campaign, amount),
                        tier: tier_joined(ctx.tier),
                        backing: Slot {
                            record: Some(
                                receipt(
                                    ctx.backing.bump,
                                    ctx.backer,
                                    ctx.campaign_key,
                                    tier_id,
                                    amount,
                                    now,
                                ),
                            ),
                            ..ctx.backing
                        },
                        ..ctx
                    },
                    deposit(Currency::Native, ctx.backer, ctx.vault.address, ctx.backer, amount),
                ),
            ),
        }
    }
}

/// What a token contribution does when the clock reads `clock`.
pub open spec fn back_campaign_token_outcome(
    ctx: BackCampaignToken,
    tier_id: u8,
    amount: u64,
    clock: Option<i64>,
) -> Result<(BackCampaignToken, Transfer), ErrorCode> {
    if ctx.backing.record is Some {
        Err(ErrorCode::AlreadyExists)
    } else if clock is None {
        Err(ErrorCode::ClockUnavailable)
    } else {
        let now = clock->0;
        match backing_refusal(
            ctx.campaign,
            ctx.tier,
            false,
            ctx.campaign.currency_mint == ctx.currency_mint,
            tier_id,
            amount,
            now,
        ) {
            Some(e) => Err(e),
            None => Ok(
                (
                    BackCampaignToken {
                        campaign: campaign_backed(ctx.campaign, amount),
                        tier: tier_joined(ctx.tier),
                        backing: Slot {
                            record: Some(
                                receipt(
                                    ctx.backing.bump,
                                    ctx.backer,
                                    ctx.campaign_key,
                                    tier_id,
                                    amount,
                                    now,
                                ),
                            ),
                            ..ctx.backing
                        },
                        ..ctx
                    },
                    deposit(
                        Currency::Token,
                        ctx.backer_token,
                        ctx.vault_token.address,
                        ctx.backer,
                        amount,
                    ),
                ),
            ),
        }
    }
}

/// The checks that both contributions share, and the three counters as they
/// stand afterwards: the tier's backers, the campaign's raised amount and its
/// backers.
fn check_backing(
    campaign: &Campaign,
    tier: &CampaignTier,
    occupied: bool,
    mint_matches: bool,
    tier_id: u8,
    amount: u64,
    now: i64,
) -> (r: Result<(u32, u64, u64), ErrorCode>)
    ensures
        (match backing_refusal(*campaign, *tier, occupied, mint_matches, tier_id, amount, now) {
            Some(e) => r == Err::<(u32, u64, u64), ErrorCode>(e),
            None => r == Ok::<(u32, u64, u64), ErrorCode>(
                (
                    tier_joined(*tier).current_backers,
                    campaign_backed(*campaign, amount).raised_amount,
                    campaign_backed(*campaign, amount).backers_count,
                ),
            ),
        }),
{
    if occupied {
        return Err(ErrorCode::AlreadyExists);
    }
    if !campaign.is_active {
        return Err(ErrorCode::CampaignNotActive);
    }
    if campaign.is_finalized {
        return Err(ErrorCode::CampaignFinalized);
    }
    if now < campaign.start_time {
        return Err(ErrorCode::CampaignNotStarted);
    }
    if now > campaign.end_time {
        return Err(ErrorCode::CampaignEnded);
    }
    if tier.tier_id != tier_id {
        return Err(ErrorCode::InvalidTier);
    }
    if amount < tier.min_amount {
        return Err(ErrorCode::AmountBelowMinimum);
    }
    if tier.max_amount != 0 && amount > tier.max_amount {
        return Err(ErrorCode::AmountAboveMaximum);
    }
    if tier.max_backers != 0 && tier.current_backers >= tier.max_backers {
        return Err(ErrorCode::TierFull);
    }
    if !mint_matches {
        return Err(ErrorCode::InvalidMint);
    }
    let joined = match tier.current_backers.checked_add(1) {
        Some(v) => v,
        None => { return Err(ErrorCode::MathOverflow); },
    };
    let raised = match campaign.raised_amount.checked_add(amount) {
        Some(v) => v,
        None => { return Err(ErrorCode::MathOverflow); },
    };
    let backers = match campaign.backers_count.checked_add(1) {
        Some(v) => v,
        None => { return Err(ErrorCode::MathOverflow); },
    };
    Ok((joined, raised, backers))
}

/// Takes a native-currency contribution at time `now`.
pub fn back_campaign_sol_at(ctx: &mut BackCampaignSol, tier_id: u8, amount: u64, now: i64) -> (r:
    Result<Transfer, ErrorCode>)
    ensures
        (match back_campaign_sol_outcome(*old(ctx), tier_id, amount, Some(now)) {
            Ok((after, moved)) => *final(ctx) == after && r == Ok::<Transfer, ErrorCode>(moved),
            Err(e) => *final(ctx) == *old(ctx) && r == Err::<Transfer, ErrorCode>(e),
        }),
        old(ctx).campaign.wf() ==> final(ctx).campaign.wf(),
        old(ctx).tier.wf() ==> final(ctx).tier.wf(),
{
    let (joined, raised, backers) = match check_backing(
        &ctx.campaign,
        &ctx.tier,
        ctx.backing.record.is_some(),
        true,
        tier_id,
        amount,
        now,
    ) {
        Ok(counters) => counters,
        Err(e) => { return Err(e); },
    };
    ctx.backing.record = Some(
        Backing {
            bump: ctx.backing.bump,
            backer: ctx.backer,
            campaign: ctx.campaign_key,
            tier_id,
            amount,
            backed_at: now,
            is_refunded: false,
        },
    );
    ctx.tier.current_backers = joined;
    ctx.campaign.raised_amount = raised;
    ctx.campaign.backers_count = backers;
    Ok(
        Transfer {
            currency: Currency::Native,
            from: ctx.backer,
            to: ctx.vault.address,
            authority: ctx.backer,
            amount,
            seeds: None,
        },
    )
}

/// Takes a native-currency contribution at the time that the ledger's clock
/// reports.
pub fn back_campaign_sol(ctx: &mut BackCampaignSol, tier_id: u8, amount: u64) -> (r: Result<
    Transfer,
    ErrorCode,
>)
    ensures
        (exists|clock: Option<i64>|
            match #[trigger] back_campaign_sol_outcome(*old(ctx), tier_id, amount, clock) {
                Ok((after, moved)) => *final(ctx) == after && r == Ok::<Transfer, ErrorCode>(
                    moved,
                ),
                Err(e) => *final(ctx) == *old(ctx) && r == Err::<Transfer, ErrorCode>(e),
            }),
        old(ctx).campaign.wf() ==> final(ctx).campaign.wf(),
        old(ctx).tier.wf() ==> final(ctx).tier.wf(),
{
    match unix_timestamp() {
        Some(now) => back_campaign_sol_at(ctx, tier_id, amount, now),
        None => {
            if ctx.backing.record.is_some() {
                Err(ErrorCode::AlreadyExists)
            } else {
                assert(back_campaign_sol_outcome(*old(ctx), tier_id, amount, None::<i64>) is Err);
                Err(ErrorCode::ClockUnavailable)
            }
        },
    }
}

/// Takes a token contribution at time `now`.
pub fn back_campaign_token_at(
    ctx: &mut BackCampaignToken,
    tier_id: u8,
    amount: u64,
    now: i64,
) -> (r: Result<Transfer, ErrorCode>)
    ensures
        (match back_campaign_token_outcome(*old(ctx), tier_id, amount, Some(now)) {
            Ok((after, moved)) => *final(ctx) == after && r == Ok::<Transfer, ErrorCode>(moved),
            Err(e) => *final(ctx) == *old(ctx) && r == Err::<Transfer, ErrorCode>(e),
        }),
        old(ctx).campaign.wf() ==> final(ctx).campaign.wf(),
        old(ctx).tier.wf() ==> final(ctx).tier.wf(),
{
    let (joined, raised, backers) = match check_backing(
        &ctx.campaign,
        &ctx.tier,
        ctx.backing.record.is_some(),
        ctx.campaign.currency_mint == ctx.currency_mint,
        tier_id,
        amount,
        now,
    ) {
        Ok(counters) => counters,
        Err(e) => { return Err(e); },
    };
    ctx.backing.record = Some(
        Backing {
            bump: ctx.backing.bump,
            backer: ctx.backer,
            campaign: ctx.campaign_key,
            tier_id,
            amount,
            backed_at: now,
            is_refunded: false,
        },
    );
    ctx.tier.current_backers = joined;
    ctx.campaign.raised_amount = raised;
    ctx.campaign.backers_count = backers;
    Ok(
        Transfer {
            currency: Currency::Token,
            from: ctx.backer_token,
            to: ctx.vault_token.address,
            authority: ctx.backer,
            amount,
            seeds: None,
        },
    )
}

/// Takes a token contribution at the time that the ledger's clock reports.
pub fn back_campaign_token(ctx: &mut BackCampaignToken, tier_id: u8, amount: u64) -> (r: Result<
    Transfer,
    ErrorCode,
>)
    ensures
        (exists|clock: Option<i64>|
            match #[trigger] back_campaign_token_outcome(*old(ctx), tier_id, amount, clock) {
                Ok((after, moved)) => *final(ctx) == after && r == Ok::<Transfer, ErrorCode>(
                    moved,
                ),
                Err(e) => *final(ctx) == *old(ctx) && r == Err::<Transfer, ErrorCode>(e),
            }),
        old(ctx).campaign.wf() ==> final(ctx).campaign.wf(),
        old(ctx).tier.wf() ==> final(ctx).tier.wf(),
{
    match unix_timestamp() {
        Some(now) => back_campaign_token_at(ctx, tier_id, amount, now),
        None => {
            if ctx.backing.record.is_some() {
                Err(ErrorCode::AlreadyExists)
            } else {
                assert(back_campaign_token_outcome(*old(ctx), tier_id, amount, None::<i64>) is Err);
                Err(ErrorCode::ClockUnavailable)
            }
        },
    }
}

} // verus!
