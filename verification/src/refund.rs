//! Refunds: once a campaign that missed its goal is finalized, each backer
//! takes back what the receipt says.

use crate::address::{Address, Currency};
use crate::error::ErrorCode;
use crate::escrow::{Escrow, EscrowSeeds, Transfer};
use crate::state::{Backing, Campaign};
use vstd::prelude::*;

verus! {

/// What a refund from the native-currency escrow touches.
#[derive(Clone, Debug, PartialEq, Eq)]
pub struct ClaimRefundSol {
    pub campaign: Campaign,
    pub vault: Escrow,
    /// The caller's receipt for this campaign.
    pub backing: Backing,
    /// The caller who signed.
    pub backer: Address,
}

/// What a refund from the token escrow touches.
#[derive(Clone, Debug, PartialEq, Eq)]
pub struct ClaimRefundToken {
    pub campaign: Campaign,
    pub vault_token: Escrow,
    pub currency_mint: Address,
    /// The backer's token holding, which receives the funds.
    pub backer_token: Address,
    /// The caller's receipt for this campaign.
    pub backing: Backing,
    /// The caller who signed.
    pub backer: Address,
}

/// Why `backer` is refused the refund of `backing`, `None` where it is paid.
pub open spec fn refund_refusal(campaign: Campaign, backing: Backing, backer: Address) -> Option<
    ErrorCode,
> {
    if !campaign.is_finalized {
        Some(ErrorCode::CampaignNotFinalized)
    } else if campaign.goal_reached() {
        Some(ErrorCode::GoalReached)
    } else if backing.is_refunded {
        Some(ErrorCode::AlreadyRefunded)
    } else if backing.backer != backer {
        Some(ErrorCode::Unauthorized)
    } else {
        None
    }
}

/// The receipt once its amount was paid back.
pub open spec fn refunded(backing: Backing) -> Backing {
    Backing { is_refunded: true, ..backing }
}

/// The movement that pays `amount` out of `escrow` to `receiver` under the
/// escrow's seeds.
pub open spec fn repayment(
    currency: Currency,
    escrow: Escrow,
    farmer: Address,
    campaign_id: u64,
    receiver: Address,
    amount: u64,
) -> Transfer {
    Transfer {
        currency,
        from: escrow.address,
        to: receiver,
        authority: escrow.address,
        amount,
        seeds: Some(EscrowSeeds { currency, farmer, campaign_id, bump: escrow.bump }),
    }
}

/// What `claim_refund_sol` does on `ctx`: the records afterwards and the
/// movement to carry out, or the refusal.
pub open spec fn claim_refund_sol_outcome(ctx: ClaimRefundSol) -> Result<
    (ClaimRefundSol, Transfer),
    ErrorCode,
> {
    match refund_refusal(ctx.campaign, ctx.backing, ctx.backer) {
        Some(e) => Err(e),
        None => Ok(
            (
                ClaimRefundSol { backing: refunded(ctx.backing), ..ctx },
                repayment(
                    Currency::Native,
                    ctx.vault,
                    ctx.campaign.farmer,
                    ctx.campaign.campaign_id,
                    ctx.backer,
                    ctx.backing.amount,
                ),
            ),
        ),
    }
}

/// What `claim_refund_token` does on `ctx`.
pub open spec fn claim_refund_token_outcome(ctx: ClaimRefundToken) -> Result<
    (ClaimRefundToken, Transfer),
    ErrorCode,
> {
    match refund_refusal(ctx.campaign, ctx.backing, ctx.backer) {
        Some(e) => Err(e),
        None => Ok(
            (
                ClaimRefundToken { backing: refunded(ctx.backing), ..ctx },
                repayment(
                    Currency::Token,
                    ctx.vault_token,
                    ctx.campaign.farmer,
                    ctx.campaign.campaign_id,
                    ctx.backer_token,
                    ctx.backing.amount,
                ),
            ),
        ),
    }
}

/// The checks that both refunds share.
fn check_refund(campaign: &Campaign, backing: &Backing, backer: &Address) -> (r: Result<
    (),
    ErrorCode,
>)
    ensures
        (match refund_refusal(*campaign, *backing, *backer) {
            Some(e) => r == Err::<(), ErrorCode>(e),
            None => r is Ok,
        }),
{
    if !campaign.is_finalized {
        return Err(ErrorCode::CampaignNotFinalized);
    }
    if campaign.raised_amount >= campaign.goal_amount {
        return Err(ErrorCode::GoalReached);
    }
    if backing.is_refunded {
        return Err(ErrorCode::AlreadyRefunded);
    }
    if backing.backer != *backer {
        return Err(ErrorCode::Unauthorized);
    }
    Ok(())
}

/// Pays a backer's contribution back from the native-currency escrow of a
/// finalized campaign that missed its goal.
pub fn claim_refund_sol(ctx: &mut ClaimRefundSol) -> (r: Result<Transfer, ErrorCode>)
    ensures
        (match claim_refund_sol_outcome(*old(ctx)) {
            Ok((after, moved)) => *final(ctx) == after && r == Ok::<Transfer, ErrorCode>(moved),
            Err(e) => *final(ctx) == *old(ctx) && r == Err::<Transfer, ErrorCode>(e),
        }),
{
    match check_refund(&ctx.campaign, &ctx.backing, &ctx.backer) {
        Ok(()) => {},
        Err(e) => { return Err(e); },
    }
    let moved = Transfer {
        currency: Currency::Native,
        from: ctx.vault.address,
        to: ctx.backer,
        authority: ctx.vault.address,
        amount: ctx.backing.amount,
        seeds: Some(
            EscrowSeeds {
                currency: Currency::Native,
                farmer: ctx.campaign.farmer,
                campaign_id: ctx.campaign.campaign_id,
                bump: ctx.vault.bump,
            },
        ),
    };
    ctx.backing.is_refunded = true;
    Ok(moved)
}

/// Pays a backer's contribution back from the token escrow of a finalized
/// campaign that missed its goal.
pub fn claim_refund_token(ctx: &mut ClaimRefundToken) -> (r: Result<Transfer, ErrorCode>)
    ensures
        (match claim_refund_token_outcome(*old(ctx)) {
            Ok((after, moved)) => *final(ctx) == after && r == Ok::<Transfer, ErrorCode>(moved),
            Err(e) => *final(ctx) == *old(ctx) && r == Err::<Transfer, ErrorCode>(e),
        }),
{
    match check_refund(&ctx.campaign, &ctx.backing, &ctx.backer) {
        Ok(()) => {},
        Err(e) => { return Err(e); },
    }
    let moved = Transfer {
        currency: Currency::Token,
        from: ctx.vault_token.address,
        to: ctx.backer_token,
        authority: ctx.vault_token.address,
        amount: ctx.backing.amount,
        seeds: Some(
            EscrowSeeds {
                currency: Currency::Token,
                farmer: ctx.campaign.farmer,
                campaign_id: ctx.campaign.campaign_id,
                bump: ctx.vault_token.bump,
            },
        ),
    };
    ctx.backing.is_refunded = true;
    Ok(moved)
}

} // verus!
