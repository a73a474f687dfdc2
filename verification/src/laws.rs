//! What holds of the operations taken together.

use crate::address::{located, Address, Currency};
use crate::campaign::{
    create_campaign_outcome, finalize_campaign_outcome, CreateCampaign, FinalizeCampaign,
};
use crate::error::ErrorCode;
use crate::escrow::{Escrow, Transfer};
use crate::intake::{
    back_campaign_sol_outcome, back_campaign_token_outcome, BackCampaignSol, BackCampaignToken,
};
use crate::refund::{
    claim_refund_sol_outcome, claim_refund_token_outcome, ClaimRefundSol, ClaimRefundToken,
};
use crate::state::{Campaign, MAX_FEE_BPS};
use crate::tier::{create_tier_outcome, CreateTier};
use crate::withdrawal::{
    platform_fee, settlement, withdraw_funds_sol_outcome, withdraw_funds_token_outcome,
    WithdrawFundsSol, WithdrawFundsToken,
};
use vstd::prelude::*;

verus! {

/// The sum of the amounts that a run of movements carries.
pub open spec fn moved(moves: Seq<Transfer>) -> int
    decreases moves.len(),
{
    if moves.len() == 0 {
        0
    } else {
        moved(moves.drop_last()) + moves.last().amount
    }
}

/// The sum of a run of amounts.
pub open spec fn sum(amounts: Seq<u64>) -> int
    decreases amounts.len(),
{
    if amounts.len() == 0 {
        0
    } else {
        sum(amounts.drop_last()) + amounts.last()
    }
}

/// A contribution of `amount` was taken from some backer, in either
/// currency, and turned the campaign `before` into `after`.
pub open spec fn contribution_taken(before: Campaign, amount: u64, after: Campaign) -> bool {
    ||| exists|ctx: BackCampaignSol, tier_id: u8, clock: Option<i64>|
        ctx.campaign == before && (match #[trigger] back_campaign_sol_outcome(
            ctx,
            tier_id,
            amount,
            clock,
        ) {
            Ok((next, _)) => next.campaign == after,
            Err(_) => false,
        })
    ||| exists|ctx: BackCampaignToken, tier_id: u8, clock: Option<i64>|
        ctx.campaign == before && (match #[trigger] back_campaign_token_outcome(
            ctx,
            tier_id,
            amount,
            clock,
        ) {
            Ok((next, _)) => next.campaign == after,
            Err(_) => false,
        })
}

/// `moves` splits `balance` between the platform and the farmer at the rate
/// `fee_bps`: the fee is the balance times the rate over 10000, rounded down;
/// it comes first and is left out where it is zero; the farmer's share is
/// the rest and comes last; together they are the balance.
pub open spec fn fee_split(moves: Seq<Transfer>, balance: u64, fee_bps: u16) -> bool {
    let fee = platform_fee(balance, fee_bps);
    &&& fee * 10000 <= balance * fee_bps < (fee + 1) * 10000
    &&& 0 <= fee <= balance
    &&& moves.last().amount == balance - fee
    &&& if fee > 0 {
        moves.len() == 2 && moves[0].amount == fee
    } else {
        moves.len() == 1
    }
    &&& moved(moves) == balance
}

/// A withdrawal that goes through under a fee of at most the whole splits
/// the escrow balance between the platform and the farmer, and so moves
/// exactly the balance.
pub proof fn law_fee_split(native: WithdrawFundsSol, token: WithdrawFundsToken)
    requires
        native.config.fee_bps <= MAX_FEE_BPS,
        token.config.fee_bps <= MAX_FEE_BPS,
    ensures
        (match withdraw_funds_sol_outcome(native) {
            Ok((_, moves)) => fee_split(moves, native.vault.balance, native.config.fee_bps),
            Err(_) => true,
        }),
        (match withdraw_funds_token_outcome(token) {
            Ok((_, moves)) => fee_split(moves, token.vault_token.balance, token.config.fee_bps),
            Err(_) => true,
        }),
{
    if withdraw_funds_sol_outcome(native) is Ok {
        lemma_settlement_splits(
            Currency::Native,
            native.vault,
            native.farmer,
            native.campaign.campaign_id,
            native.config.fee_bps,
            native.treasury,
            native.farmer,
        );
    }
    if withdraw_funds_token_outcome(token) is Ok {
        lemma_settlement_splits(
            Currency::Token,
            token.vault_token,
            token.farmer,
            token.campaign.campaign_id,
            token.config.fee_bps,
            token.treasury_token,
            token.farmer_token,
        );
    }
}

proof fn lemma_settlement_splits(
    currency: Currency,
    escrow: Escrow,
    farmer: Address,
    campaign_id: u64,
    fee_bps: u16,
    treasury: Address,
    receiver: Address,
)
    requires
        fee_bps <= MAX_FEE_BPS,
    ensures
        fee_split(
            settlement(currency, escrow, farmer, campaign_id, fee_bps, treasury, receiver),
            escrow.balance,
            fee_bps,
        ),
{
    let balance = escrow.balance;
    let fee = platform_fee(balance, fee_bps);
    let moves = settlement(currency, escrow, farmer, campaign_id, fee_bps, treasury, receiver);
    assert(fee * 10000 <= balance * fee_bps < (fee + 1) * 10000 && 0 <= fee <= balance)
        by (nonlinear_arith)
        requires
            fee == (balance as int * fee_bps as int) / 10000,
            fee_bps <= 10000,
    ;
    reveal_with_fuel(moved, 3);
    if fee > 0 {
        assert(moves.drop_last().drop_last().len() == 0);
    } else {
        assert(moves.drop_last().len() == 0);
    }
}

/// A contribution that is taken leaves the backer's receipt in its slot, and
/// a contribution whose slot already holds a receipt is refused with
/// `AlreadyExists`, whatever its amount, its tier and the time: nothing is
/// changed and no movement of funds is returned. So no backer gets a second
/// receipt for one campaign.
pub proof fn law_one_receipt_per_backer(
    native: BackCampaignSol,
    token: BackCampaignToken,
    tier_id: u8,
    amount: u64,
    clock: Option<i64>,
)
    ensures
        (match back_campaign_sol_outcome(native, tier_id, amount, clock) {
            Ok((after, _)) => after.backing.record is Some,
            Err(_) => true,
        }),
        (match back_campaign_token_outcome(token, tier_id, amount, clock) {
            Ok((after, _)) => after.backing.record is Some,
            Err(_) => true,
        }),
        native.backing.record is Some ==> back_campaign_sol_outcome(native, tier_id, amount, clock)
            == Err::<(BackCampaignSol, Transfer), ErrorCode>(ErrorCode::AlreadyExists),
        token.backing.record is Some ==> back_campaign_token_outcome(
            token,
            tier_id,
            amount,
            clock,
        ) == Err::<(BackCampaignToken, Transfer), ErrorCode>(ErrorCode::AlreadyExists),
{
}

/// After contributions of `amounts` were taken one after the other, the
/// campaign has raised what it had raised before and the sum of the amounts:
/// exactly their sum where it began with nothing.
pub proof fn law_raised_is_sum(campaigns: Seq<Campaign>, amounts: Seq<u64>)
    requires
        campaigns.len() == amounts.len() + 1,
        forall|i: int|
            0 <= i < amounts.len() ==> contribution_taken(
                #[trigger] campaigns[i],
                amounts[i],
                campaigns[i + 1],
            ),
    ensures
        campaigns.last().raised_amount == campaigns[0].raised_amount + sum(amounts),
        campaigns[0].raised_amount == 0 ==> campaigns.last().raised_amount == sum(amounts),
    decreases amounts.len(),
{
    if amounts.len() > 0 {
        let n = amounts.len() as int;
        let earlier = campaigns.drop_last();
        assert forall|i: int| 0 <= i < n - 1 implies contribution_taken(
            #[trigger] earlier[i],
            amounts.drop_last()[i],
            earlier[i + 1],
        ) by {
            assert(contribution_taken(campaigns[i], amounts[i], campaigns[i + 1]));
        }
        law_raised_is_sum(earlier, amounts.drop_last());
        assert(contribution_taken(campaigns[n - 1], amounts[n - 1], campaigns[n]));
        lemma_contribution_adds(campaigns[n - 1], amounts[n - 1], campaigns[n]);
    }
}

proof fn lemma_contribution_adds(before: Campaign, amount: u64, after: Campaign)
    requires
        contribution_taken(before, amount, after),
    ensures
        after.raised_amount == before.raised_amount + amount,
{
}

/// An operation that would carry one of the counters past what it can hold
/// is refused: the raised amount, the number of backers of a campaign or of a
/// tier, the number of tiers, the number of campaigns, and the platform's
/// cumulative total.
pub proof fn law_overflow_is_refused(
    native: BackCampaignSol,
    token: BackCampaignToken,
    tier_id: u8,
    amount: u64,
    clock: Option<i64>,
    tier: CreateTier,
    name: String,
    min_amount: u64,
    max_amount: u64,
    benefits: String,
    max_backers: u32,
    campaign: CreateCampaign,
    campaign_id: u64,
    title: String,
    description: String,
    goal_amount: u64,
    duration_days: u64,
    withdraw_native: WithdrawFundsSol,
    withdraw_token: WithdrawFundsToken,
)
    ensures
        native.campaign.raised_amount + amount > u64::MAX || native.campaign.backers_count + 1
            > u64::MAX || native.tier.current_backers + 1 > u32::MAX ==> back_campaign_sol_outcome(
            native,
            tier_id,
            amount,
            clock,
        ) is Err,
        token.campaign.raised_amount + amount > u64::MAX || token.campaign.backers_count + 1
            > u64::MAX || token.tier.current_backers + 1 > u32::MAX ==> back_campaign_token_outcome(
            token,
            tier_id,
            amount,
            clock,
        ) is Err,
        tier.campaign.tiers_count + 1 > u8::MAX ==> create_tier_outcome(
            tier,
            tier_id,
            name,
            min_amount,
            max_amount,
            benefits,
            max_backers,
        ) is Err,
        campaign.config.total_campaigns + 1 > u64::MAX ==> create_campaign_outcome(
            campaign,
            campaign_id,
            title,
            description,
            goal_amount,
            duration_days,
            clock,
        ) is Err,
        withdraw_native.config.total_raised + (withdraw_native.vault.balance - platform_fee(
            withdraw_native.vault.balance,
            withdraw_native.config.fee_bps,
        )) > u64::MAX ==> withdraw_funds_sol_outcome(withdraw_native) is Err,
        withdraw_token.config.total_raised + (withdraw_token.vault_token.balance - platform_fee(
            withdraw_token.vault_token.balance,
            withdraw_token.config.fee_bps,
        )) > u64::MAX ==> withdraw_funds_token_outcome(withdraw_token) is Err,
{
}

/// No operation lowers what a campaign has raised.
pub proof fn law_raised_never_falls(
    native: BackCampaignSol,
    token: BackCampaignToken,
    tier_id: u8,
    amount: u64,
    clock: Option<i64>,
    tier: CreateTier,
    name: String,
    min_amount: u64,
    max_amount: u64,
    benefits: String,
    max_backers: u32,
    finalize: FinalizeCampaign,
    withdraw_native: WithdrawFundsSol,
    withdraw_token: WithdrawFundsToken,
    refund_native: ClaimRefundSol,
    refund_token: ClaimRefundToken,
)
    ensures
        (match back_campaign_sol_outcome(native, tier_id, amount, clock) {
            Ok((after, _)) => after.campaign.raised_amount >= native.campaign.raised_amount,
            Err(_) => true,
        }),
        (match back_campaign_token_outcome(token, tier_id, amount, clock) {
            Ok((after, _)) => after.campaign.raised_amount >= token.campaign.raised_amount,
            Err(_) => true,
        }),
        (match create_tier_outcome(
            tier,
            tier_id,
            name,
            min_amount,
            max_amount,
            benefits,
            max_backers,
        ) {
            Ok(after) => after.campaign.raised_amount == tier.campaign.raised_amount,
            Err(_) => true,
        }),
        (match finalize_campaign_outcome(finalize, clock) {
            Ok(after) => after.campaign.raised_amount == finalize.campaign.raised_amount,
            Err(_) => true,
        }),
        (match withdraw_funds_sol_outcome(withdraw_native) {
            Ok((after, _)) => after.campaign == withdraw_native.campaign,
            Err(_) => true,
        }),
        (match withdraw_funds_token_outcome(withdraw_token) {
            Ok((after, _)) => after.campaign == withdraw_token.campaign,
            Err(_) => true,
        }),
        (match claim_refund_sol_outcome(refund_native) {
            Ok((after, _)) => after.campaign == refund_native.campaign,
            Err(_) => true,
        }),
        (match claim_refund_token_outcome(refund_token) {
            Ok((after, _)) => after.campaign == refund_token.campaign,
            Err(_) => true,
        }),
{
}

/// A contribution before the campaign's start or after its end is refused,
/// whatever its amount. Within the window the time decides nothing: what is
/// taken at one time in it is taken at every other, and both ends belong to
/// it, so what is taken at some time is taken at the start and at the end as
/// well.
pub proof fn law_window_is_inclusive(
    native: BackCampaignSol,
    token: BackCampaignToken,
    tier_id: u8,
    amount: u64,
    now: i64,
    then: i64,
)
    ensures
        now < native.campaign.start_time || now > native.campaign.end_time
            ==> back_campaign_sol_outcome(native, tier_id, amount, Some(now)) is Err,
        now < token.campaign.start_time || now > token.campaign.end_time
            ==> back_campaign_token_outcome(token, tier_id, amount, Some(now)) is Err,
        native.campaign.start_time <= now <= native.campaign.end_time
            && native.campaign.start_time <= then <= native.campaign.end_time ==> (
        back_campaign_sol_outcome(native, tier_id, amount, Some(now)) is Ok
            <==> back_campaign_sol_outcome(native, tier_id, amount, Some(then)) is Ok),
        token.campaign.start_time <= now <= token.campaign.end_time && token.campaign.start_time
            <= then <= token.campaign.end_time ==> (back_campaign_token_outcome(
            token,
            tier_id,
            amount,
            Some(now),
        ) is Ok <==> back_campaign_token_outcome(token, tier_id, amount, Some(then)) is Ok),
        back_campaign_sol_outcome(native, tier_id, amount, Some(now)) is Ok ==> {
            &&& back_campaign_sol_outcome(
                native,
                tier_id,
                amount,
                Some(native.campaign.start_time),
            ) is Ok
            &&& back_campaign_sol_outcome(
                native,
                tier_id,
                amount,
                Some(native.campaign.end_time),
            ) is Ok
        },
        back_campaign_token_outcome(token, tier_id, amount, Some(now)) is Ok ==> {
            &&& back_campaign_token_outcome(
                token,
                tier_id,
                amount,
                Some(token.campaign.start_time),
            ) is Ok
            &&& back_campaign_token_outcome(
                token,
                tier_id,
                amount,
                Some(token.campaign.end_time),
            ) is Ok
        },
{
}

/// Of a finalized campaign either the farmer withdraws or the backers are
/// refunded, never both: where the goal was reached every refund is refused
/// with `GoalReached`, and where it was missed every withdrawal is refused
/// with `GoalNotReached`.
pub proof fn law_settlement_is_exclusive(
    refund_native: ClaimRefundSol,
    refund_token: ClaimRefundToken,
    withdraw_native: WithdrawFundsSol,
    withdraw_token: WithdrawFundsToken,
)
    requires
        refund_native.campaign.is_finalized,
        refund_token.campaign.is_finalized,
        withdraw_native.campaign.is_finalized,
        withdraw_token.campaign.is_finalized,
    ensures
        refund_native.campaign.goal_reached() ==> claim_refund_sol_outcome(refund_native) == Err::<
            (ClaimRefundSol, Transfer),
            ErrorCode,
        >(ErrorCode::GoalReached),
        refund_token.campaign.goal_reached() ==> claim_refund_token_outcome(refund_token) == Err::<
            (ClaimRefundToken, Transfer),
            ErrorCode,
        >(ErrorCode::GoalReached),
        !withdraw_native.campaign.goal_reached() ==> withdraw_funds_sol_outcome(withdraw_native)
            == Err::<(WithdrawFundsSol, Seq<Transfer>), ErrorCode>(ErrorCode::GoalNotReached),
        !withdraw_token.campaign.goal_reached() ==> withdraw_funds_token_outcome(withdraw_token)
            == Err::<(WithdrawFundsToken, Seq<Transfer>), ErrorCode>(ErrorCode::GoalNotReached),
{
}

/// Until a campaign is finalized every refund and every withdrawal is
/// refused with `CampaignNotFinalized`, also when its time is over.
pub proof fn law_nothing_leaves_before_finalization(
    refund_native: ClaimRefundSol,
    refund_token: ClaimRefundToken,
    withdraw_native: WithdrawFundsSol,
    withdraw_token: WithdrawFundsToken,
)
    ensures
        !refund_native.campaign.is_finalized ==> claim_refund_sol_outcome(refund_native) == Err::<
            (ClaimRefundSol, Transfer),
            ErrorCode,
        >(ErrorCode::CampaignNotFinalized),
        !refund_token.campaign.is_finalized ==> claim_refund_token_outcome(refund_token) == Err::<
            (ClaimRefundToken, Transfer),
            ErrorCode,
        >(ErrorCode::CampaignNotFinalized),
        !withdraw_native.campaign.is_finalized ==> withdraw_funds_sol_outcome(withdraw_native)
            == Err::<(WithdrawFundsSol, Seq<Transfer>), ErrorCode>(
            ErrorCode::CampaignNotFinalized,
        ),
        !withdraw_token.campaign.is_finalized ==> withdraw_funds_token_outcome(withdraw_token)
            == Err::<(WithdrawFundsToken, Seq<Transfer>), ErrorCode>(
            ErrorCode::CampaignNotFinalized,
        ),
{
}

/// Finalization is final: a finalized campaign is not finalized again, and
/// takes no contribution.
pub proof fn law_finalized_is_terminal(
    ctx: FinalizeCampaign,
    native: BackCampaignSol,
    token: BackCampaignToken,
    tier_id: u8,
    amount: u64,
    clock: Option<i64>,
)
    ensures
        (match finalize_campaign_outcome(ctx, clock) {
            Ok(after) => after.campaign.is_finalized && !after.campaign.is_active
                && finalize_campaign_outcome(after, clock) is Err,
            Err(_) => true,
        }),
        native.campaign.is_finalized ==> back_campaign_sol_outcome(native, tier_id, amount, clock)
            is Err,
        token.campaign.is_finalized ==> back_campaign_token_outcome(token, tier_id, amount, clock)
            is Err,
{
}

/// A refund is paid once: the receipt that a refund leaves behind is refused
/// a second refund with `AlreadyRefunded`.
pub proof fn law_refund_once(native: ClaimRefundSol, token: ClaimRefundToken)
    ensures
        (match claim_refund_sol_outcome(native) {
            Ok((after, moved)) => moved.amount == native.backing.amount && claim_refund_sol_outcome(
                after,
            ) == Err::<(ClaimRefundSol, Transfer), ErrorCode>(ErrorCode::AlreadyRefunded),
            Err(_) => true,
        }),
        (match claim_refund_token_outcome(token) {
            Ok((after, moved)) => moved.amount == token.backing.amount
                && claim_refund_token_outcome(after) == Err::<
                (ClaimRefundToken, Transfer),
                ErrorCode,
            >(ErrorCode::AlreadyRefunded),
            Err(_) => true,
        }),
{
}

/// A withdrawal moves the whole balance, so that the escrow is empty when
/// the movements are carried out; and from an empty escrow nothing is
/// withdrawn.
pub proof fn law_withdrawal_empties_escrow(native: WithdrawFundsSol, token: WithdrawFundsToken)
    ensures
        (match withdraw_funds_sol_outcome(native) {
            Ok((_, moves)) => moved(moves) == native.vault.balance,
            Err(_) => true,
        }),
        (match withdraw_funds_token_outcome(token) {
            Ok((_, moves)) => moved(moves) == token.vault_token.balance,
            Err(_) => true,
        }),
        native.vault.balance == 0 ==> withdraw_funds_sol_outcome(native) is Err,
        token.vault_token.balance == 0 ==> withdraw_funds_token_outcome(token) is Err,
{
    reveal_with_fuel(moved, 3);
    if withdraw_funds_sol_outcome(native) is Ok {
        let moves = withdraw_funds_sol_outcome(native)->Ok_0.1;
        assert(moves.len() == 2 ==> moves.drop_last().drop_last().len() == 0);
        assert(moves.len() == 1 ==> moves.drop_last().len() == 0);
    }
    if withdraw_funds_token_outcome(token) is Ok {
        let moves = withdraw_funds_token_outcome(token)->Ok_0.1;
        assert(moves.len() == 2 ==> moves.drop_last().drop_last().len() == 0);
        assert(moves.len() == 1 ==> moves.drop_last().len() == 0);
    }
}

/// Derivation is deterministic: two results that stand for the same derived
/// address and proof seed are the same result.
pub proof fn law_derivation_is_deterministic(
    first: Option<(Address, u8)>,
    second: Option<(Address, u8)>,
)
    requires
        located(first) == located(second),
    ensures
        first == second,
{
    match (first, second) {
        (Some((a, _)), Some((b, _))) => Address::lemma_bytes_decide(a, b),
        _ => {},
    }
}

} // verus!
