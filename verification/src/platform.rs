//! The platform's configuration.

use crate::address::Address;
use crate::error::ErrorCode;
use crate::state::{Config, Slot, MAX_FEE_BPS};
use vstd::prelude::*;

verus! {

/// The version written into a new configuration.
pub const CONFIG_VERSION: u8 = 1;

/// What the creation of the platform configuration touches.
#[derive(Clone, Copy, Debug, PartialEq, Eq)]
pub struct InitializeConfig {
    /// The place of the configuration kept for `authority`.
    pub config: Slot<Config>,
    /// The caller who signed, and who administers the platform from now on.
    pub authority: Address,
}

/// The configuration as it is created: in service, with nothing counted yet.
pub open spec fn new_config(bump: u8, authority: Address, fee_bps: u16) -> Config {
    Config {
        bump,
        authority,
        fee_bps,
        total_campaigns: 0,
        total_raised: 0,
        is_active: true,
        is_paused: false,
        version: CONFIG_VERSION,
    }
}

/// What `initialize_config` does on `ctx`: the records afterwards, or the
/// refusal.
pub open spec fn initialize_config_outcome(ctx: InitializeConfig, fee_bps: u16) -> Result<
    InitializeConfig,
    ErrorCode,
> {
    if ctx.config.record is Some {
        Err(ErrorCode::AlreadyExists)
    } else if fee_bps > MAX_FEE_BPS {
        Err(ErrorCode::InvalidFee)
    } else {
        Ok(
            InitializeConfig {
                config: Slot {
                    record: Some(new_config(ctx.config.bump, ctx.authority, fee_bps)),
                    ..ctx.config
                },
                ..ctx
            },
        )
    }
}

/// Creates the platform configuration with a fee of `fee_bps` hundredths of
/// a percent.
pub fn initialize_config(ctx: &mut InitializeConfig, fee_bps: u16) -> (r: Result<(), ErrorCode>)
    ensures
        (match initialize_config_outcome(*old(ctx), fee_bps) {
            Ok(after) => *final(ctx) == after && r is Ok,
            Err(e) => *final(ctx) == *old(ctx) && r == Err::<(), ErrorCode>(e),
        }),
        r is Ok ==> final(ctx).config.record is Some && final(ctx).config.record->0.wf(),
{
    if ctx.config.record.is_some() {
        return Err(ErrorCode::AlreadyExists);
    }
    if fee_bps > MAX_FEE_BPS {
        return Err(ErrorCode::InvalidFee);
    }
    ctx.config.record = Some(
        Config {
            bump: ctx.config.bump,
            authority: ctx.authority,
            fee_bps,
            total_campaigns: 0,
            total_raised: 0,
            is_active: true,
            is_paused: false,
            version: CONFIG_VERSION,
        },
    );
    Ok(())
}

} // verus!
