use crowdfund::{
    back_campaign_sol_at, claim_refund_sol, create_campaign_at, create_tier, finalize_campaign_at,
    initialize_config, withdraw_funds_sol, Address, BackCampaignSol, Backing, Campaign,
    CampaignTier, ClaimRefundSol, Config, CreateCampaign, CreateTier, Currency, ErrorCode, Escrow,
    EscrowSeeds, FinalizeCampaign, InitializeConfig, Slot, Transfer, WithdrawFundsSol,
};

const START: i64 = 1_700_000_000;
const DEADLINE: i64 = START + 86_400;

fn key(n: u8) -> Address {
    Address { bytes: [n; 32] }
}

fn authority() -> Address {
    key(1)
}

fn farmer() -> Address {
    key(2)
}

fn backer() -> Address {
    key(3)
}

fn treasury() -> Address {
    key(4)
}

fn campaign_key() -> Address {
    key(10)
}

fn vault(balance: u64) -> Escrow {
    Escrow { address: key(11), bump: 253, balance }
}

fn vault_seeds() -> EscrowSeeds {
    EscrowSeeds { currency: Currency::Native, farmer: farmer(), campaign_id: 7, bump: 253 }
}

/// The platform at 2.5%, a one-day campaign for 1000 with one open tier from
/// 100, and one contribution of `amount` a second before the deadline.
fn campaign_backed_with(amount: u64) -> (Config, Campaign, CampaignTier, Backing) {
    let mut init = InitializeConfig { config: Slot { bump: 255, record: None }, authority: authority() };
    assert_eq!(initialize_config(&mut init, 250), Ok(()));
    let config = init.config.record.unwrap();

    let mut create = CreateCampaign {
        config,
        campaign: Slot { bump: 254, record: None },
        currency_mint: key(9),
        farmer: farmer(),
    };
    assert_eq!(
        create_campaign_at(
            &mut create,
            7,
            String::from("Spring wheat"),
            String::from("Seed and fuel for forty hectares"),
            1000,
            1,
            START
        ),
        Ok(())
    );
    let campaign = create.campaign.record.clone().unwrap();
    assert_eq!(campaign.start_time, START);
    assert_eq!(campaign.end_time, DEADLINE);
    assert_eq!(create.config.total_campaigns, 1);

    let mut tier = CreateTier {
        campaign_key: campaign_key(),
        campaign,
        tier: Slot { bump: 252, record: None },
        farmer: farmer(),
    };
    assert_eq!(
        create_tier(&mut tier, 0, String::from("Friend"), 100, 0, String::from("A postcard"), 0),
        Ok(())
    );
    assert_eq!(tier.campaign.tiers_count, 1);

    let mut back = BackCampaignSol {
        campaign_key: campaign_key(),
        campaign: tier.campaign.clone(),
        tier: tier.tier.record.clone().unwrap(),
        vault: vault(0),
        backing: Slot { bump: 251, record: None },
        backer: backer(),
    };
    assert_eq!(
        back_campaign_sol_at(&mut back, 0, amount, DEADLINE - 1),
        Ok(Transfer {
            currency: Currency::Native,
            from: backer(),
            to: key(11),
            authority: backer(),
            amount,
            seeds: None,
        })
    );
    assert_eq!(back.campaign.raised_amount, amount);
    assert_eq!(back.campaign.backers_count, 1);
    assert_eq!(back.tier.current_backers, 1);
    let backing = back.backing.record.unwrap();
    assert_eq!(
        backing,
        Backing {
            bump: 251,
            backer: backer(),
            campaign: campaign_key(),
            tier_id: 0,
            amount,
            backed_at: DEADLINE - 1,
            is_refunded: false,
        }
    );
    (create.config, back.campaign, back.tier, backing)
}

fn finalized(campaign: Campaign) -> Campaign {
    let mut ctx = FinalizeCampaign { campaign, authority: key(77) };
    assert_eq!(finalize_campaign_at(&mut ctx, DEADLINE), Err(ErrorCode::CampaignNotEnded));
    assert_eq!(finalize_campaign_at(&mut ctx, DEADLINE + 1), Ok(()));
    assert!(ctx.campaign.is_finalized);
    assert!(!ctx.campaign.is_active);
    ctx.campaign
}

#[test]
fn goal_met_at_the_deadline_pays_the_farmer_less_the_fee() {
    let (config, campaign, _tier, backing) = campaign_backed_with(1000);
    let campaign = finalized(campaign);

    let mut withdraw = WithdrawFundsSol {
        config,
        campaign: campaign.clone(),
        vault: vault(1000),
        treasury: treasury(),
        farmer: farmer(),
    };
    let moves = withdraw_funds_sol(&mut withdraw).unwrap();
    assert_eq!(
        moves,
        vec![
            Transfer {
                currency: Currency::Native,
                from: key(11),
                to: treasury(),
                authority: key(11),
                amount: 25,
                seeds: Some(vault_seeds()),
            },
            Transfer {
                currency: Currency::Native,
                from: key(11),
                to: farmer(),
                authority: key(11),
                amount: 975,
                seeds: Some(vault_seeds()),
            },
        ]
    );
    assert_eq!(withdraw.config.total_raised, 975);

    // The escrow is empty now: a second withdrawal finds nothing.
    withdraw.vault = vault(0);
    assert_eq!(withdraw_funds_sol(&mut withdraw), Err(ErrorCode::NoFundsToWithdraw));
    assert_eq!(withdraw.config.total_raised, 975);

    // And no backer is refunded.
    let mut refund = ClaimRefundSol { campaign, vault: vault(0), backing, backer: backer() };
    assert_eq!(claim_refund_sol(&mut refund), Err(ErrorCode::GoalReached));
    assert!(!refund.backing.is_refunded);
}

#[test]
fn goal_missed_refunds_the_backer_once() {
    let (config, campaign, _tier, backing) = campaign_backed_with(500);
    let campaign = finalized(campaign);

    let mut withdraw = WithdrawFundsSol {
        config,
        campaign: campaign.clone(),
        vault: vault(500),
        treasury: treasury(),
        farmer: farmer(),
    };
    assert_eq!(withdraw_funds_sol(&mut withdraw), Err(ErrorCode::GoalNotReached));
    assert_eq!(withdraw.config, config);

    let mut refund = ClaimRefundSol { campaign, vault: vault(500), backing, backer: backer() };
    assert_eq!(
        claim_refund_sol(&mut refund),
        Ok(Transfer {
            currency: Currency::Native,
            from: key(11),
            to: backer(),
            authority: key(11),
            amount: 500,
            seeds: Some(vault_seeds()),
        })
    );
    assert!(refund.backing.is_refunded);
    assert_eq!(refund.backing.amount, 500);
    assert_eq!(claim_refund_sol(&mut refund), Err(ErrorCode::AlreadyRefunded));
}

#[test]
fn nothing_leaves_escrow_before_finalization() {
    let (config, campaign, _tier, backing) = campaign_backed_with(1000);
    // The window is over, but nobody has finalized the campaign.
    let mut withdraw = WithdrawFundsSol {
        config,
        campaign: campaign.clone(),
        vault: vault(1000),
        treasury: treasury(),
        farmer: farmer(),
    };
    assert_eq!(withdraw_funds_sol(&mut withdraw), Err(ErrorCode::CampaignNotFinalized));
    let mut refund = ClaimRefundSol { campaign, vault: vault(1000), backing, backer: backer() };
    assert_eq!(claim_refund_sol(&mut refund), Err(ErrorCode::CampaignNotFinalized));

    let (config, campaign, _tier, backing) = campaign_backed_with(500);
    let mut withdraw = WithdrawFundsSol {
        config,
        campaign: campaign.clone(),
        vault: vault(500),
        treasury: treasury(),
        farmer: farmer(),
    };
    assert_eq!(withdraw_funds_sol(&mut withdraw), Err(ErrorCode::CampaignNotFinalized));
    let mut refund = ClaimRefundSol { campaign, vault: vault(500), backing, backer: backer() };
    assert_eq!(claim_refund_sol(&mut refund), Err(ErrorCode::CampaignNotFinalized));
    assert!(!refund.backing.is_refunded);
}

#[test]
fn a_backer_contributes_to_a_campaign_once() {
    let (_config, campaign, tier, backing) = campaign_backed_with(500);
    let mut again = BackCampaignSol {
        campaign_key: campaign_key(),
        campaign: campaign.clone(),
        tier: tier.clone(),
        vault: vault(500),
        backing: Slot { bump: 251, record: Some(backing) },
        backer: backer(),
    };
    assert_eq!(
        back_campaign_sol_at(&mut again, 0, 200, DEADLINE - 1),
        Err(ErrorCode::AlreadyExists)
    );
    assert_eq!(again.campaign, campaign);
    assert_eq!(again.tier, tier);
    assert_eq!(again.backing.record, Some(backing));
}

#[test]
fn raised_amount_is_the_sum_of_the_contributions() {
    let (_config, mut campaign, mut tier, _backing) = campaign_backed_with(100);
    let amounts: [u64; 4] = [250, 100, 4_000, 101];
    let mut expected: u64 = 100;
    for (i, amount) in amounts.iter().enumerate() {
        let mut ctx = BackCampaignSol {
            campaign_key: campaign_key(),
            campaign,
            tier,
            vault: vault(expected),
            backing: Slot { bump: 250, record: None },
            backer: key(100 + i as u8),
        };
        assert!(back_campaign_sol_at(&mut ctx, 0, *amount, START + 5).is_ok());
        expected += *amount;
        assert_eq!(ctx.campaign.raised_amount, expected);
        campaign = ctx.campaign;
        tier = ctx.tier;
    }
    assert_eq!(campaign.raised_amount, 4_551);
    assert_eq!(campaign.backers_count, 5);
    assert_eq!(tier.current_backers, 5);
}
