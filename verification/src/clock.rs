//! The ledger's clock.

use anchor_lang::prelude::{Clock, SolanaSysvar};
use vstd::prelude::*;

verus! {

/// `Clock::get` of the ledger's SDK, reduced to the clock's `unix_timestamp`.
/// The runtime decides what comes back, so nothing is claimed of it: `None`
/// stands for the SDK's error, which is what it returns where no runtime
/// provides a clock.
#[verifier::external_body]
pub(crate) fn unix_timestamp() -> (r: Option<i64>) {
    match Clock::get() {
        Ok(clock) => Some(clock.unix_timestamp),
        Err(_) => None,
    }
}

} // verus!
