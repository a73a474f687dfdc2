//! Withdrawal: once a campaign that met its goal is finalized, its farmer
//! takes the escrow, less the platform's fee.

use crate::address::{Address, Currency};
use crate::error::ErrorCode;
use crate::escrow::{Escrow, EscrowSeeds, Transfer};
use crate::state::{Campaign, Config};
use vstd::prelude::*;

verus! {

/// What a withdrawal of the native-currency escrow touches.
#[derive(Clone, Debug, PartialEq, Eq)]
pub struct WithdrawFundsSol {
    pub config: Config,
    pub campaign: Campaign,
    pub vault: Escrow,
    /// Where the platform's fee goes.
    pub treasury: Address,
    /// The caller who signed.
    pub farmer: Address,
}

/// What a withdrawal of the token escrow touches.
#[derive(Clone, Debug, PartialEq, Eq)]
pub struct WithdrawFundsToken {
    pub config: Config,
    pub campaign: Campaign,
    pub vault_token: Escrow,
    pub currency_mint: Address,
    /// The farmer's token holding, which receives the funds.
    pub farmer_token: Address,
    /// The platform's token holding, which receives the fee.
    pub treasury_token: Address,
    /// The caller who signed.
    pub farmer: Address,
}

/// The platform's share of an escrow balance: `fee_bps` hundredths of a
/// percent of it, rounded down.
pub open spec fn platform_fee(balance: u64, fee_bps: u16) -> int {
    (balance as int * fee_bps as int) / 10000
}

/// Why a withdrawal by `farmer` of an escrow holding `balance` is refused,
/// `None` where it goes through.
pub open spec fn withdrawal_refusal(
    config: Config,
    campaign: Campaign,
    farmer: Address,
    balance: u64,
) -> Option<ErrorCode> {
    let fee = platform_fee(balance, config.fee_bps);
    if !campaign.is_finalized {
        Some(ErrorCode::CampaignNotFinalized)
    } else if !campaign.goal_reached() {
        Some(ErrorCode::GoalNotReached)
    } else if campaign.farmer != farmer {
        Some(ErrorCode::Unauthorized)
    } else if balance == 0 {
        Some(ErrorCode::NoFundsToWithdraw)
    } else if balance * config.fee_bps > u64::MAX {
        Some(ErrorCode::MathOverflow)
    } else if fee > balance {
        Some(ErrorCode::MathOverflow)
    } else if config.total_raised + (balance - fee) > u64::MAX {
        Some(ErrorCode::MathOverflow)
    } else {
        None
    }
}

/// The configuration after a withdrawal from an escrow holding `balance`:
/// the farmer's share is added to the platform's cumulative total.
pub open spec fn config_after_withdrawal(config: Config, balance: u64) -> Config {
    Config {
        total_raised: (config.total_raised + (balance - platform_fee(
            balance,
            config.fee_bps,
        ))) as u64,
        ..config
    }
}

/// The movements that empty `escrow`: the fee to `treasury`, left out where
/// it is zero, then the rest to `receiver`, both under the escrow's seeds.
pub open spec fn settlement(
    currency: Currency,
    escrow: Escrow,
    farmer: Address,
    campaign_id: u64,
    fee_bps: u16,
    treasury: Address,
    receiver: Address,
) -> Seq<Transfer> {
    let seeds = EscrowSeeds { currency, farmer, campaign_id, bump: escrow.bump };
    let fee = platform_fee(escrow.balance, fee_bps);
    let to_treasury = Transfer {
        currency,
        from: escrow.address,
        to: treasury,
        authority: escrow.address,
        amount: fee as u64,
        seeds: Some(seeds),
    };
    let to_farmer = Transfer {
        currency,
        from: escrow.address,
        to: receiver,
        authority: escrow.address,
        amount: (escrow.balance - fee) as u64,
        seeds: Some(seeds),
    };
    if fee > 0 {
        seq![to_treasury, to_farmer]
    } else {
        seq![to_farmer]
    }
}

/// What `withdraw_funds_sol` does on `ctx`: the records afterwards and the
/// movements to carry out, or the refusal.
pub open spec fn withdraw_funds_sol_outcome(ctx: WithdrawFundsSol) -> Result<
    (WithdrawFundsSol, Seq<Transfer>),
    ErrorCode,
> {
    match withdrawal_refusal(ctx.config, ctx.campaign, ctx.farmer, ctx.vault.balance) {
        Some(e) => Err(e),
        None => Ok(
            (
                WithdrawFundsSol {
                    config: config_after_withdrawal(ctx.config, ctx.vault.balance),
                    ..ctx
                },
                settlement(
                    Currency::Native,
                    ctx.vault,
                    ctx.farmer,
                    ctx.campaign.campaign_id,
                    ctx.config.fee_bps,
                    ctx.treasury,
                    ctx.farmer,
                ),
            ),
        ),
    }
}

/// What `withdraw_funds_token` does on `ctx`.
pub open spec fn withdraw_funds_token_outcome(ctx: WithdrawFundsToken) -> Result<
    (WithdrawFundsToken, Seq<Transfer>),
    ErrorCode,
> {
    match withdrawal_refusal(ctx.config, ctx.campaign, ctx.farmer, ctx.vault_token.balance) {
        Some(e) => Err(e),
        None => Ok(
            (
                WithdrawFundsToken {
                    config: config_after_withdrawal(ctx.config, ctx.vault_token.balance),
                    ..ctx
                },
                settlement(
                    Currency::Token,
                    ctx.vault_token,
                    ctx.farmer,
                    ctx.campaign.campaign_id,
                    ctx.config.fee_bps,
                    ctx.treasury_token,
                    ctx.farmer_token,
                ),
            ),
        ),
    }
}

/// The checks and the arithmetic that both withdrawals share: the fee, the
/// farmer's share and the platform's new cumulative total.
fn split_balance(config: &Config, campaign: &Campaign, farmer: &Address, balance: u64) -> (r:
    Result<(u64, u64, u64), ErrorCode>)
    ensures
        (match withdrawal_refusal(*config, *campaign, *farmer, balance) {
            Some(e) => r == Err::<(u64, u64, u64), ErrorCode>(e),
            None => r == Ok::<(u64, u64, u64), ErrorCode>(
                (
                    platform_fee(balance, config.fee_bps) as u64,
                    (balance - platform_fee(balance, config.fee_bps)) as u64,
                    config_after_withdrawal(*config, balance).total_raised,
                ),
            ),
        }),
{
    if !campaign.is_finalized {
        return Err(ErrorCode::CampaignNotFinalized);
    }
    if campaign.raised_amount < campaign.goal_amount {
        return Err(ErrorCode::GoalNotReached);
    }
    if campaign.farmer != *farmer {
        return Err(ErrorCode::Unauthorized);
    }
    if balance == 0 {
        return Err(ErrorCode::NoFundsToWithdraw);
    }
    let scaled = match balance.checked_mul(config.fee_bps as u64) {
        Some(v) => v,
        None => { return Err(ErrorCode::MathOverflow); },
    };
    let fee = match scaled.checked_div(10000) {
        Some(v) => v,
        None => { return Err(ErrorCode::MathOverflow); },
    };
    let farmer_amount = match balance.checked_sub(fee) {
        Some(v) => v,
        None => { return Err(ErrorCode::MathOverflow); },
    };
    let total = match config.total_raised.checked_add(farmer_amount) {
        Some(v) => v,
        None => { return Err(ErrorCode::MathOverflow); },
    };
    Ok((fee, farmer_amount, total))
}

/// The movements of a settlement, in the order in which they are carried out.
fn settle(
    currency: Currency,
    escrow: &Escrow,
    farmer: &Address,
    campaign_id: u64,
    fee_bps: u16,
    treasury: &Address,
    receiver: &Address,
    fee: u64,
    farmer_amount: u64,
) -> (r: Vec<Transfer>)
    requires
        fee == platform_fee(escrow.balance, fee_bps),
        farmer_amount == escrow.balance - fee,
    ensures
        r@ == settlement(currency, *escrow, *farmer, campaign_id, fee_bps, *treasury, *receiver),
{
    let seeds = EscrowSeeds { currency, farmer: *farmer, campaign_id, bump: escrow.bump };
    let mut r: Vec<Transfer> = Vec::new();
    if fee > 0 {
        r.push(
            Transfer {
                currency,
                from: escrow.address,
                to: *treasury,
                authority: escrow.address,
                amount: fee,
                seeds: Some(seeds),
            },
        );
    }
    r.push(
        Transfer {
            currency,
            from: escrow.address,
            to: *receiver,
            authority: escrow.address,
            amount: farmer_amount,
            seeds: Some(seeds),
        },
    );
    assert(r@ =~= settlement(
        currency,
        *escrow,
        *farmer,
        campaign_id,
        fee_bps,
        *treasury,
        *receiver,
    ));
    r
}

/// Releases a finalized campaign's native-currency escrow to its farmer,
/// less the platform's fee.
pub fn withdraw_funds_sol(ctx: &mut WithdrawFundsSol) -> (r: Result<Vec<Transfer>, ErrorCode>)
    ensures
        (match withdraw_funds_sol_outcome(*old(ctx)) {
            Ok((after, moves)) => *final(ctx) == after && r.is_ok() && r.unwrap()@ == moves,
            Err(e) => *final(ctx) == *old(ctx) && r == Err::<Vec<Transfer>, ErrorCode>(e),
        }),
        old(ctx).config.wf() ==> final(ctx).config.wf(),
{
    let (fee, farmer_amount, total) = match split_balance(
        &ctx.config,
        &ctx.campaign,
        &ctx.farmer,
        ctx.vault.balance,
    ) {
        Ok(parts) => parts,
        Err(e) => { return Err(e); },
    };
    let moves = settle(
        Currency::Native,
        &ctx.vault,
        &ctx.farmer,
        ctx.campaign.campaign_id,
        ctx.config.fee_bps,
        &ctx.treasury,
        &ctx.farmer,
        fee,
        farmer_amount,
    );
    ctx.config.total_raised = total;
    Ok(moves)
}

/// Releases a finalized campaign's token escrow to its farmer's token
/// holding, less the platform's fee.
pub fn withdraw_funds_token(ctx: &mut WithdrawFundsToken) -> (r: Result<Vec<Transfer>, ErrorCode>)
    ensures
        (match withdraw_funds_token_outcome(*old(ctx)) {
            Ok((after, moves)) => *final(ctx) == after && r.is_ok() && r.unwrap()@ == moves,
            Err(e) => *final(ctx) == *old(ctx) && r == Err::<Vec<Transfer>, ErrorCode>(e),
        }),
        old(ctx).config.wf() ==> final(ctx).config.wf(),
{
    let (fee, farmer_amount, total) = match split_balance(
        &ctx.config,
        &ctx.campaign,
        &ctx.farmer,
        ctx.vault_token.balance,
    ) {
        Ok(parts) => parts,
        Err(e) => { return Err(e); },
    };
    let moves = settle(
        Currency::Token,
        &ctx.vault_token,
        &ctx.farmer,
        ctx.campaign.campaign_id,
        ctx.config.fee_bps,
        &ctx.treasury_token,
        &ctx.farmer_token,
        fee,
        farmer_amount,
    );
    ctx.config.total_raised = total;
    Ok(moves)
}

} // verus!
