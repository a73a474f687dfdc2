//! Escrow holdings and the movements of funds into and out of them.

use crate::address::{escrow_seed_parts, escrow_seeds, seed_views, Address, Currency};
use vstd::prelude::*;

verus! {

/// A campaign's fund-holding record: it belongs to its own derivation, so
/// funds leave it only under that derivation's seeds.
#[derive(Clone, Copy, Debug, PartialEq, Eq)]
pub struct Escrow {
    pub address: Address,
    /// The proof seed with which `address` was derived.
    pub bump: u8,
    /// The funds held when the operation began.
    pub balance: u64,
}

/// What authorizes a movement out of an escrow holding: the fields from which
/// the holding's address was derived, and its proof seed.
#[derive(Clone, Copy, Debug, PartialEq, Eq)]
pub struct EscrowSeeds {
    pub currency: Currency,
    pub farmer: Address,
    pub campaign_id: u64,
    pub bump: u8,
}

impl EscrowSeeds {
    /// The seeds as the transfer primitive takes them: those of the holding's
    /// address, then the proof seed as a seed of one byte.
    pub open spec fn parts(self) -> Seq<Seq<u8>> {
        escrow_seeds(self.currency, self.farmer, self.campaign_id).push(seq![self.bump])
    }

    /// The seeds as byte vectors, to hand to the transfer primitive.
    pub fn to_parts(&self) -> (r: Vec<Vec<u8>>)
        ensures
            seed_views(r@) == self.parts(),
    {
        let mut r = escrow_seed_parts(self.currency, &self.farmer, self.campaign_id);
        let last: Vec<u8> = vec![self.bump];
        assert(last@ =~= seq![self.bump]);
        r.push(last);
        assert(seed_views(r@) =~= self.parts());
        r
    }
}

/// One movement of funds that the caller of an operation has to carry out
/// with the ledger's transfer primitive for `currency`.
#[derive(Clone, Copy, Debug, PartialEq, Eq)]
pub struct Transfer {
    pub currency: Currency,
    pub from: Address,
    pub to: Address,
    /// Who authorizes the movement: the caller that signed the operation, or
    /// the escrow holding itself.
    pub authority: Address,
    pub amount: u64,
    /// The seeds that stand for the authority's signature where the authority
    /// is an escrow holding; `None` where the caller signed.
    pub seeds: Option<EscrowSeeds>,
}

} // verus!
