use anchor_lang::prelude::Pubkey;
use crowdfund::address::{
    backing_address, campaign_address, config_address, escrow_address, program_id, tier_address,
};
use crowdfund::{Address, Currency, EscrowSeeds};
use std::str::FromStr;

fn program() -> Pubkey {
    Pubkey::from_str("7ETsTKTvvjbE89kEQJARuJcUnN18n28Fy972zik2tAnN").unwrap()
}

fn address(key: &Pubkey) -> Address {
    Address { bytes: key.to_bytes() }
}

fn expected(seeds: &[&[u8]]) -> Option<(Address, u8)> {
    let (key, bump) = Pubkey::find_program_address(seeds, &program());
    Some((address(&key), bump))
}

#[test]
fn program_id_is_the_deployed_address() {
    assert_eq!(program_id().bytes, program().to_bytes());
}

#[test]
fn addresses_compare_by_their_bytes() {
    let mut bytes = [7u8; 32];
    assert_eq!(Address { bytes }, Address { bytes: [7u8; 32] });
    bytes[31] = 8;
    assert_ne!(Address { bytes }, Address { bytes: [7u8; 32] });
    bytes[31] = 7;
    bytes[0] = 6;
    assert_ne!(Address { bytes }, Address { bytes: [7u8; 32] });
    assert_eq!(Address { bytes: [9u8; 32] }.to_vec(), vec![9u8; 32]);
}

#[test]
fn config_address_is_derived_from_the_authority() {
    let authority = Pubkey::new_from_array([5; 32]);
    let found = config_address(&address(&authority));
    assert_eq!(found, expected(&[b"config", authority.as_ref()]));
    assert_ne!(found.unwrap().0, address(&authority));
    let other = Pubkey::new_from_array([6; 32]);
    assert_ne!(config_address(&address(&other)), found);
}

#[test]
fn campaign_address_is_derived_from_farmer_and_number() {
    let farmer = Pubkey::new_from_array([21; 32]);
    let found = campaign_address(&address(&farmer), 0x0102_0304_0506_0708);
    assert_eq!(
        found,
        expected(&[b"campaign", farmer.as_ref(), &[8, 7, 6, 5, 4, 3, 2, 1]])
    );
    assert_ne!(campaign_address(&address(&farmer), 1), found);
}

#[test]
fn escrow_addresses_differ_by_currency() {
    let farmer = Pubkey::new_from_array([21; 32]);
    let id: u64 = 42;
    let native = escrow_address(Currency::Native, &address(&farmer), id);
    let token = escrow_address(Currency::Token, &address(&farmer), id);
    assert_eq!(native, expected(&[b"vault", farmer.as_ref(), &id.to_le_bytes()]));
    assert_eq!(token, expected(&[b"vault_token", farmer.as_ref(), &id.to_le_bytes()]));
    assert_ne!(native.unwrap().0, token.unwrap().0);
}

#[test]
fn tier_address_is_derived_from_campaign_and_tier() {
    let campaign = Pubkey::new_from_array([33; 32]);
    assert_eq!(
        tier_address(&address(&campaign), 200),
        expected(&[b"tier", campaign.as_ref(), &[200]])
    );
    assert_ne!(tier_address(&address(&campaign), 0), tier_address(&address(&campaign), 1));
}

#[test]
fn backing_address_is_derived_from_campaign_and_backer() {
    let campaign = Pubkey::new_from_array([33; 32]);
    let backer = Pubkey::new_from_array([44; 32]);
    assert_eq!(
        backing_address(&address(&campaign), &address(&backer)),
        expected(&[b"backing", campaign.as_ref(), backer.as_ref()])
    );
    assert_ne!(
        backing_address(&address(&campaign), &address(&backer)),
        backing_address(&address(&backer), &address(&campaign))
    );
}

#[test]
fn escrow_seeds_reproduce_the_escrow_address() {
    let farmer = Pubkey::new_from_array([21; 32]);
    for currency in [Currency::Native, Currency::Token] {
        let (at, bump) = escrow_address(currency, &address(&farmer), 42).unwrap();
        let seeds = EscrowSeeds { currency, farmer: address(&farmer), campaign_id: 42, bump };
        let parts = seeds.to_parts();
        let tag: &[u8] = match currency {
            Currency::Native => b"vault",
            Currency::Token => b"vault_token",
        };
        assert_eq!(
            parts,
            vec![tag.to_vec(), vec![21u8; 32], vec![42, 0, 0, 0, 0, 0, 0, 0], vec![bump]]
        );
        let slices: Vec<&[u8]> = parts.iter().map(|p| p.as_slice()).collect();
        let signed_for = Pubkey::create_program_address(&slices, &program()).unwrap();
        assert_eq!(address(&signed_for), at);
    }
}
