use crowdfund::{
    withdraw_funds_sol, withdraw_funds_token, Address, Campaign, Config, Currency, ErrorCode,
    Escrow, EscrowSeeds, Transfer, WithdrawFundsSol, WithdrawFundsToken,
};

fn key(n: u8) -> Address {
    Address { bytes: [n; 32] }
}

fn config(fee_bps: u16) -> Config {
    Config {
        bump: 255,
        authority: key(1),
        fee_bps,
        total_campaigns: 1,
        total_raised: 10_000,
        is_active: true,
        is_paused: false,
        version: 1,
    }
}

fn campaign() -> Campaign {
    Campaign {
        bump: 254,
        farmer: key(2),
        campaign_id: 77,
        title: String::from("Orchard"),
        description: String::from("Two hundred apple trees"),
        goal_amount: 1000,
        raised_amount: 1000,
        currency_mint: key(9),
        start_time: 0,
        end_time: 86_400,
        is_active: false,
        is_finalized: true,
        backers_count: 1,
        tiers_count: 1,
    }
}

fn native(fee_bps: u16, balance: u64) -> WithdrawFundsSol {
    WithdrawFundsSol {
        config: config(fee_bps),
        campaign: campaign(),
        vault: Escrow { address: key(11), bump: 253, balance },
        treasury: key(4),
        farmer: key(2),
    }
}

fn token(fee_bps: u16, balance: u64) -> WithdrawFundsToken {
    WithdrawFundsToken {
        config: config(fee_bps),
        campaign: campaign(),
        vault_token: Escrow { address: key(12), bump: 252, balance },
        currency_mint: key(9),
        farmer_token: key(14),
        treasury_token: key(15),
        farmer: key(2),
    }
}

fn amounts(moves: &[Transfer]) -> Vec<u64> {
    moves.iter().map(|m| m.amount).collect()
}

#[test]
fn fee_is_the_rate_times_the_balance_rounded_down() {
    for (fee_bps, balance, fee, rest) in [
        (250u16, 1_000u64, Some(25u64), 975u64),
        (250, 39, None, 39),
        (250, 40, Some(1), 39),
        (250, 79, Some(1), 78),
        (1, 9_999, None, 9_999),
        (1, 10_000, Some(1), 9_999),
        (0, 1_000, None, 1_000),
        (10_000, 1_000, Some(1_000), 0),
        (9_999, 1, None, 1),
        (3_333, 10, Some(3), 7),
        (250, 1, None, 1),
        (10_000, u64::MAX / 10_000, Some(u64::MAX / 10_000), 0),
    ] {
        let mut ctx = native(fee_bps, balance);
        ctx.config.total_raised = 0;
        let moves = withdraw_funds_sol(&mut ctx).unwrap();
        let expected: Vec<u64> = fee.into_iter().chain([rest]).collect();
        assert_eq!(amounts(&moves), expected);
        assert_eq!(moves.iter().map(|m| m.amount).sum::<u64>(), balance);
        assert_eq!(ctx.config.total_raised, rest);

        let mut ctx = token(fee_bps, balance);
        ctx.config.total_raised = 0;
        let moves = withdraw_funds_token(&mut ctx).unwrap();
        assert_eq!(amounts(&moves), expected);
        assert_eq!(ctx.config.total_raised, rest);
    }
}

#[test]
fn native_withdrawal_pays_treasury_then_farmer_under_the_escrow_seeds() {
    let mut ctx = native(250, 2_000);
    let seeds = Some(EscrowSeeds {
        currency: Currency::Native,
        farmer: key(2),
        campaign_id: 77,
        bump: 253,
    });
    assert_eq!(
        withdraw_funds_sol(&mut ctx),
        Ok(vec![
            Transfer {
                currency: Currency::Native,
                from: key(11),
                to: key(4),
                authority: key(11),
                amount: 50,
                seeds,
            },
            Transfer {
                currency: Currency::Native,
                from: key(11),
                to: key(2),
                authority: key(11),
                amount: 1_950,
                seeds,
            },
        ])
    );
    assert_eq!(
        ctx,
        WithdrawFundsSol { config: Config { total_raised: 11_950, ..config(250) }, ..native(250, 2_000) }
    );
}

#[test]
fn token_withdrawal_pays_the_token_holdings_under_the_escrow_seeds() {
    let mut ctx = token(250, 2_000);
    let seeds = Some(EscrowSeeds {
        currency: Currency::Token,
        farmer: key(2),
        campaign_id: 77,
        bump: 252,
    });
    assert_eq!(
        withdraw_funds_token(&mut ctx),
        Ok(vec![
            Transfer {
                currency: Currency::Token,
                from: key(12),
                to: key(15),
                authority: key(12),
                amount: 50,
                seeds,
            },
            Transfer {
                currency: Currency::Token,
                from: key(12),
                to: key(14),
                authority: key(12),
                amount: 1_950,
                seeds,
            },
        ])
    );
    assert_eq!(
        ctx,
        WithdrawFundsToken {
            config: Config { total_raised: 11_950, ..config(250) },
            ..token(250, 2_000)
        }
    );
}

#[test]
fn zero_fee_is_not_transferred() {
    let mut ctx = native(0, 500);
    let moves = withdraw_funds_sol(&mut ctx).unwrap();
    assert_eq!(moves.len(), 1);
    assert_eq!(moves[0].to, key(2));
    assert_eq!(moves[0].amount, 500);
}

#[test]
fn withdrawal_refusals_come_in_order() {
    let mut ctx = native(250, 0);
    ctx.campaign.is_finalized = false;
    ctx.campaign.raised_amount = 999;
    ctx.farmer = key(66);
    let before = ctx.clone();
    assert_eq!(withdraw_funds_sol(&mut ctx), Err(ErrorCode::CampaignNotFinalized));
    ctx.campaign.is_finalized = true;
    assert_eq!(withdraw_funds_sol(&mut ctx), Err(ErrorCode::GoalNotReached));
    ctx.campaign.raised_amount = 1000;
    assert_eq!(withdraw_funds_sol(&mut ctx), Err(ErrorCode::Unauthorized));
    ctx.farmer = key(2);
    assert_eq!(withdraw_funds_sol(&mut ctx), Err(ErrorCode::NoFundsToWithdraw));
    assert_eq!(ctx.config, before.config);
    ctx.vault.balance = 1;
    assert!(withdraw_funds_sol(&mut ctx).is_ok());

    let mut ctx = token(250, 0);
    ctx.campaign.is_finalized = false;
    ctx.campaign.raised_amount = 999;
    ctx.farmer = key(66);
    assert_eq!(withdraw_funds_token(&mut ctx), Err(ErrorCode::CampaignNotFinalized));
    ctx.campaign.is_finalized = true;
    assert_eq!(withdraw_funds_token(&mut ctx), Err(ErrorCode::GoalNotReached));
    ctx.campaign.raised_amount = 1001;
    assert_eq!(withdraw_funds_token(&mut ctx), Err(ErrorCode::Unauthorized));
    ctx.farmer = key(2);
    assert_eq!(withdraw_funds_token(&mut ctx), Err(ErrorCode::NoFundsToWithdraw));
    assert_eq!(ctx.config, config(250));
}

#[test]
fn withdrawal_arithmetic_fails_closed() {
    // The product of balance and rate does not fit 64 bits.
    let mut ctx = native(250, u64::MAX / 250 + 1);
    assert_eq!(withdraw_funds_sol(&mut ctx), Err(ErrorCode::MathOverflow));
    assert_eq!(ctx, native(250, u64::MAX / 250 + 1));
    let mut ctx = native(250, u64::MAX / 250);
    ctx.config.total_raised = 0;
    assert!(withdraw_funds_sol(&mut ctx).is_ok());

    // The platform's cumulative total does not fit 64 bits.
    let mut ctx = token(250, 1_000);
    ctx.config.total_raised = u64::MAX - 974;
    let before = ctx.clone();
    assert_eq!(withdraw_funds_token(&mut ctx), Err(ErrorCode::MathOverflow));
    assert_eq!(ctx, before);
    ctx.config.total_raised = u64::MAX - 975;
    assert!(withdraw_funds_token(&mut ctx).is_ok());
    assert_eq!(ctx.config.total_raised, u64::MAX);

    // A rate above the whole would take more than there is.
    let mut ctx = native(10_001, 10_000);
    assert_eq!(withdraw_funds_sol(&mut ctx), Err(ErrorCode::MathOverflow));
}
