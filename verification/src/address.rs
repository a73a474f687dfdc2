//! Addresses, and where each record lives: every record's address is derived
//! from a text that names its kind and from the fields that identify it.

use vstd::prelude::*;

verus! {

/// A 32-byte ledger address: the identity of a caller or the place of a record.
#[derive(Clone, Copy, Debug, Eq)]
pub struct Address {
    pub bytes: [u8; 32],
}

impl PartialEq for Address {
    fn eq(&self, other: &Address) -> (r: bool) {
        let mut i: usize = 0;
        while i < 32
            invariant
                i <= 32,
                forall|j: int| 0 <= j < i ==> self.bytes[j] == other.bytes[j],
            decreases 32 - i,
        {
            if self.bytes[i] != other.bytes[i] {
                return false;
            }
            i += 1;
        }
        proof {
            assert(self.bytes =~= other.bytes);
        }
        true
    }
}

impl vstd::std_specs::cmp::PartialEqSpecImpl for Address {
    open spec fn obeys_eq_spec() -> bool {
        true
    }

    open spec fn eq_spec(&self, other: &Address) -> bool {
        *self == *other
    }
}

impl Address {
    /// The address as a byte vector, for use as a derivation seed.
    pub fn to_vec(&self) -> (r: Vec<u8>)
        ensures
            r@ == self.bytes@,
    {
        vstd::slice::slice_to_vec(self.bytes.as_slice())
    }

    /// Two addresses with the same bytes are the same address.
    pub proof fn lemma_bytes_decide(a: Address, b: Address)
        requires
            a.bytes@ == b.bytes@,
        ensures
            a == b,
    {
        assert(forall|i: int| 0 <= i < 32 ==> a.bytes[i] == a.bytes@[i]);
        assert(forall|i: int| 0 <= i < 32 ==> b.bytes[i] == b.bytes@[i]);
        assert(a.bytes =~= b.bytes);
    }
}

/// Which of a campaign's two escrow holdings is meant.
#[derive(Clone, Copy, Debug, PartialEq, Eq, Structural)]
pub enum Currency {
    /// The ledger's native currency.
    Native,
    /// The fungible token named by the campaign's currency identifier.
    Token,
}

/// The bytes of the text with which a record's seeds begin.
pub open spec fn tag(text: Seq<char>) -> Seq<u8> {
    vstd::utf8::encode_utf8(text)
}

/// Seeds of the platform configuration kept for `authority`.
pub open spec fn config_seeds(authority: Address) -> Seq<Seq<u8>> {
    seq![tag("config"@), authority.bytes@]
}

/// Seeds of the campaign that `farmer` numbered `campaign_id`.
pub open spec fn campaign_seeds(farmer: Address, campaign_id: u64) -> Seq<Seq<u8>> {
    seq![tag("campaign"@), farmer.bytes@, vstd::bytes::spec_u64_to_le_bytes(campaign_id)]
}

/// Seeds of the escrow holding of that campaign in the given currency.
pub open spec fn escrow_seeds(currency: Currency, farmer: Address, campaign_id: u64) -> Seq<
    Seq<u8>,
> {
    seq![
        match currency {
            Currency::Native => tag("vault"@),
            Currency::Token => tag("vault_token"@),
        },
        farmer.bytes@,
        vstd::bytes::spec_u64_to_le_bytes(campaign_id),
    ]
}

/// Seeds of tier `tier_id` of the campaign stored at `campaign`.
pub open spec fn tier_seeds(campaign: Address, tier_id: u8) -> Seq<Seq<u8>> {
    seq![tag("tier"@), campaign.bytes@, seq![tier_id]]
}

/// Seeds of the receipt of `backer` for the campaign stored at `campaign`.
pub open spec fn backing_seeds(campaign: Address, backer: Address) -> Seq<Seq<u8>> {
    seq![tag("backing"@), campaign.bytes@, backer.bytes@]
}

/// The address under which this program is deployed, written
/// `7ETsTKTvvjbE89kEQJARuJcUnN18n28Fy972zik2tAnN` in the ledger's notation.
pub open spec fn program_id_bytes() -> Seq<u8> {
    seq![
        92u8, 153u8, 13u8, 208u8, 89u8, 38u8, 108u8, 154u8, 91u8, 137u8, 219u8, 189u8, 254u8,
        230u8, 59u8, 3u8, 223u8, 80u8, 116u8, 154u8, 52u8, 117u8, 193u8, 170u8, 48u8, 131u8,
        189u8, 189u8, 49u8, 188u8, 121u8, 51u8,
    ]
}

/// The address under which this program is deployed.
pub fn program_id() -> (r: Address)
    ensures
        r.bytes@ == program_id_bytes(),
{
    let r = Address {
        bytes: [
            92u8, 153u8, 13u8, 208u8, 89u8, 38u8, 108u8, 154u8, 91u8, 137u8, 219u8, 189u8, 254u8,
            230u8, 59u8, 3u8, 223u8, 80u8, 116u8, 154u8, 52u8, 117u8, 193u8, 170u8, 48u8, 131u8,
            189u8, 189u8, 49u8, 188u8, 121u8, 51u8,
        ],
    };
    assert(r.bytes@ =~= program_id_bytes());
    r
}

/// The address and proof seed that the ledger derives from `seeds` for the
/// program deployed at `program`; `None` where it derives none.
pub uninterp spec fn derived_address(seeds: Seq<Seq<u8>>, program: Seq<u8>) -> Option<
    (Seq<u8>, u8),
>;

/// The seeds as sequences of bytes.
pub open spec fn seed_views(seeds: Seq<Vec<u8>>) -> Seq<Seq<u8>> {
    Seq::new(seeds.len(), |i: int| seeds[i]@)
}

/// A derivation result with the address taken by its bytes.
pub open spec fn located(found: Option<(Address, u8)>) -> Option<(Seq<u8>, u8)> {
    match found {
        Some((at, bump)) => Some((at.bytes@, bump)),
        None => None,
    }
}

/// `Pubkey::try_find_program_address` of the ledger's SDK: the result is a
/// function of the seeds and the program address alone, here named
/// `derived_address`. Nothing more is claimed of it.
#[verifier::external_body]
fn find_address(seeds: &Vec<Vec<u8>>, program: &Address) -> (r: Option<(Address, u8)>)
    ensures
        located(r) == derived_address(seed_views(seeds@), program.bytes@),
{
    let parts: Vec<&[u8]> = seeds.iter().map(|s| s.as_slice()).collect();
    let owner = anchor_lang::prelude::Pubkey::new_from_array(program.bytes);
    anchor_lang::prelude::Pubkey::try_find_program_address(&parts, &owner)
        .map(|(key, bump)| (Address { bytes: key.to_bytes() }, bump))
}

fn tag_bytes(text: &str) -> (r: Vec<u8>)
    ensures
        r@ == tag(text@),
{
    vstd::slice::slice_to_vec(text.as_bytes())
}

fn three_seeds(head: Vec<u8>, owner: Vec<u8>, tail: Vec<u8>) -> (r: Vec<Vec<u8>>)
    ensures
        seed_views(r@) == seq![head@, owner@, tail@],
{
    let mut r: Vec<Vec<u8>> = Vec::new();
    r.push(head);
    r.push(owner);
    r.push(tail);
    assert(seed_views(r@) =~= seq![head@, owner@, tail@]);
    r
}

/// The seeds of an escrow holding, as byte vectors.
pub(crate) fn escrow_seed_parts(currency: Currency, farmer: &Address, campaign_id: u64) -> (r:
    Vec<Vec<u8>>)
    ensures
        seed_views(r@) == escrow_seeds(currency, *farmer, campaign_id),
{
    let head = match currency {
        Currency::Native => tag_bytes("vault"),
        Currency::Token => tag_bytes("vault_token"),
    };
    three_seeds(head, farmer.to_vec(), vstd::bytes::u64_to_le_bytes(campaign_id))
}

/// Where the platform configuration kept for `authority` lives.
pub fn config_address(authority: &Address) -> (r: Option<(Address, u8)>)
    ensures
        located(r) == derived_address(config_seeds(*authority), program_id_bytes()),
{
    let mut seeds: Vec<Vec<u8>> = Vec::new();
    seeds.push(tag_bytes("config"));
    seeds.push(authority.to_vec());
    assert(seed_views(seeds@) =~= config_seeds(*authority));
    find_address(&seeds, &program_id())
}

/// Where the campaign that `farmer` numbered `campaign_id` lives.
pub fn campaign_address(farmer: &Address, campaign_id: u64) -> (r: Option<(Address, u8)>)
    ensures
        located(r) == derived_address(campaign_seeds(*farmer, campaign_id), program_id_bytes()),
{
    let seeds = three_seeds(
        tag_bytes("campaign"),
        farmer.to_vec(),
        vstd::bytes::u64_to_le_bytes(campaign_id),
    );
    find_address(&seeds, &program_id())
}

/// Where the escrow holding of that campaign in the given currency lives.
pub fn escrow_address(currency: Currency, farmer: &Address, campaign_id: u64) -> (r: Option<
    (Address, u8),
>)
    ensures
        located(r) == derived_address(
            escrow_seeds(currency, *farmer, campaign_id),
            program_id_bytes(),
        ),
{
    let seeds = escrow_seed_parts(currency, farmer, campaign_id);
    find_address(&seeds, &program_id())
}

/// Where tier `tier_id` of the campaign stored at `campaign` lives.
pub fn tier_address(campaign: &Address, tier_id: u8) -> (r: Option<(Address, u8)>)
    ensures
        located(r) == derived_address(tier_seeds(*campaign, tier_id), program_id_bytes()),
{
    let tail: Vec<u8> = vec![tier_id];
    assert(tail@ =~= seq![tier_id]);
    let seeds = three_seeds(tag_bytes("tier"), campaign.to_vec(), tail);
    find_address(&seeds, &program_id())
}

/// Where the receipt of `backer` for the campaign stored at `campaign` lives.
pub fn backing_address(campaign: &Address, backer: &Address) -> (r: Option<(Address, u8)>)
    ensures
        located(r) == derived_address(backing_seeds(*campaign, *backer), program_id_bytes()),
{
    let seeds = three_seeds(tag_bytes("backing"), campaign.to_vec(), backer.to_vec());
    find_address(&seeds, &program_id())
}

} // verus!
