use crate::error::AppError;
use crate::identity::Identity;
use crate::state::config::{bounds_error, bounds_valid};
use crate::state::Config;
use vstd::prelude::*;

verus! {

/// What the creation of the configuration reads: the caller, who becomes the
/// authority, the vault that collects the fees, and the derivation nonce of
/// the configuration record.
#[derive(Clone, Copy, Debug, PartialEq, Eq)]
pub struct Initialize {
    /// The caller.
    pub authority: Identity,
    pub fee_vault: Identity,
    /// Derivation nonce of the configuration record.
    pub bump: u8,
}

impl Initialize {
    /// The rules on heartbeat bounds, in the order in which they are checked:
    /// the minimum period is positive, the maximum exceeds it, and the minimum
    /// interval is positive.
    pub open spec fn spec_validate(
        &self,
        min_heartbeat_period: u32,
        max_heartbeat_period: u32,
        min_heartbeat_interval: u32,
    ) -> Result<(), AppError> {
        match bounds_error(min_heartbeat_period, max_heartbeat_period, min_heartbeat_interval) {
            Some(e) => Err(e),
            None => Ok(()),
        }
    }

    /// Checks the heartbeat bounds of a new configuration.
    pub fn validate(
        &self,
        min_heartbeat_period: u32,
        max_heartbeat_period: u32,
        min_heartbeat_interval: u32,
    ) -> (r: Result<(), AppError>)
        ensures
            r == self.spec_validate(
                min_heartbeat_period,
                max_heartbeat_period,
                min_heartbeat_interval,
            ),
            r is Ok <==> bounds_valid(
                min_heartbeat_period,
                max_heartbeat_period,
                min_heartbeat_interval,
            ),
            r matches Err(e) ==> e == AppError::InvalidMinimumHeartbeatPeriod || e
                == AppError::InvalidMaximumHeartbeatPeriod || e
                == AppError::InvalidMinimumHeartbeatInterval,
    {
        if min_heartbeat_period == 0 {
            return Err(AppError::InvalidMinimumHeartbeatPeriod);
        }
        if max_heartbeat_period <= min_heartbeat_period {
            return Err(AppError::InvalidMaximumHeartbeatPeriod);
        }
        if min_heartbeat_interval == 0 {
            return Err(AppError::InvalidMinimumHeartbeatInterval);
        }
        Ok(())
    }

    /// The stored configuration, or the error with which the initialization
    /// is refused.
    pub open spec fn spec_initialize(
        &self,
        token_fee_bps: u16,
        nft_fee_lamports: u64,
        min_heartbeat_period: u32,
        max_heartbeat_period: u32,
        min_heartbeat_interval: u32,
    ) -> Result<Config, AppError> {
        match bounds_error(min_heartbeat_period, max_heartbeat_period, min_heartbeat_interval) {
            Some(e) => Err(e),
            None => Ok(
                self.spec_new_config(
                    token_fee_bps,
                    nft_fee_lamports,
                    min_heartbeat_period,
                    max_heartbeat_period,
                    min_heartbeat_interval,
                ),
            ),
        }
    }

    /// The configuration a successful initialization stores.
    pub open spec fn spec_new_config(
        &self,
        token_fee_bps: u16,
        nft_fee_lamports: u64,
        min_heartbeat_period: u32,
        max_heartbeat_period: u32,
        min_heartbeat_interval: u32,
    ) -> Config {
        Config {
            authority: self.authority,
            fee_vault: self.fee_vault,
            token_fee_bps,
            nft_fee_lamports,
            min_heartbeat_period,
            max_heartbeat_period,
            min_heartbeat_interval,
            paused: false,
            bump: self.bump,
        }
    }
}

/// Creates the configuration, with the caller as its authority and the pause
/// off.
///
/// Refused where the heartbeat bounds break a rule: a minimum period of zero
/// (`InvalidMinimumHeartbeatPeriod`), a maximum that does not exceed the
/// minimum (`InvalidMaximumHeartbeatPeriod`), or a minimum interval of zero
/// (`InvalidMinimumHeartbeatInterval`).
pub fn handler(
    ctx: &Initialize,
    token_fee_bps: u16,
    nft_fee_lamports: u64,
    min_heartbeat_period: u32,
    max_heartbeat_period: u32,
    min_heartbeat_interval: u32,
) -> (r: Result<Config, AppError>)
    ensures
        r == ctx.spec_initialize(
            token_fee_bps,
            nft_fee_lamports,
            min_heartbeat_period,
            max_heartbeat_period,
            min_heartbeat_interval,
        ),
        r is Ok <==> bounds_valid(
            min_heartbeat_period,
            max_heartbeat_period,
            min_heartbeat_interval,
        ),
        r matches Err(e) ==> Some(e) == bounds_error(
            min_heartbeat_period,
            max_heartbeat_period,
            min_heartbeat_interval,
        ),
        r matches Ok(config) ==> {
            &&& config == ctx.spec_new_config(
                token_fee_bps,
                nft_fee_lamports,
                min_heartbeat_period,
                max_heartbeat_period,
                min_heartbeat_interval,
            )
            &&& !config.paused
            &&& config.wf()
        },
{
    ctx.validate(min_heartbeat_period, max_heartbeat_period, min_heartbeat_interval)?;
    Ok(
        Config {
            authority: ctx.authority,
            fee_vault: ctx.fee_vault,
            token_fee_bps,
            nft_fee_lamports,
            min_heartbeat_period,
            max_heartbeat_period,
            min_heartbeat_interval,
            paused: false,
            bump: ctx.bump,
        },
    )
}

} // verus!
