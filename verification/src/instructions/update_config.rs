use crate::error::AppError;
use crate::identity::Identity;
use crate::state::Config;
use vstd::prelude::*;

verus! {

/// What a change of the configuration reads and writes: the caller and the
/// stored configuration.
#[derive(Clone, Copy, Debug, PartialEq, Eq)]
pub struct UpdateConfig {
    /// The caller.
    pub authority: Identity,
    pub config: Config,
}

/// The fields of a change of the configuration. A field that is `None` is
/// left as it is.
#[derive(Clone, Copy, Debug, PartialEq, Eq)]
pub struct ConfigUpdate {
    pub token_fee_bps: Option<u16>,
    pub nft_fee_lamports: Option<u64>,
    pub min_heartbeat_period: Option<u32>,
    pub max_heartbeat_period: Option<u32>,
    pub min_heartbeat_interval: Option<u32>,
    pub paused: Option<bool>,
}

impl ConfigUpdate {
    /// The configuration with every field that is present put in place of the
    /// stored one.
    pub open spec fn spec_apply(&self, config: Config) -> Config {
        Config {
            authority: config.authority,
            fee_vault: config.fee_vault,
            token_fee_bps: match self.token_fee_bps {
                Some(v) => v,
                None => config.token_fee_bps,
            },
            nft_fee_lamports: match self.nft_fee_lamports {
                Some(v) => v,
                None => config.nft_fee_lamports,
            },
            min_heartbeat_period: match self.min_heartbeat_period {
                Some(v) => v,
                None => config.min_heartbeat_period,
            },
            max_heartbeat_period: match self.max_heartbeat_period {
                Some(v) => v,
                None => config.max_heartbeat_period,
            },
            min_heartbeat_interval: match self.min_heartbeat_interval {
                Some(v) => v,
                None => config.min_heartbeat_interval,
            },
            paused: match self.paused {
                Some(v) => v,
                None => config.paused,
            },
            bump: config.bump,
        }
    }

    /// The rule a change breaks, if any. Only the fields that are present are
    /// held to the rules, each against the values that would be stored: a
    /// minimum period must be positive; where either bound of the period
    /// changes, the maximum must exceed the minimum; a minimum interval must
    /// be positive.
    pub open spec fn spec_broken_rule(&self, config: Config) -> Option<AppError> {
        let merged = self.spec_apply(config);
        if self.min_heartbeat_period == Some(0u32) {
            Some(AppError::InvalidMinimumHeartbeatPeriod)
        } else if (self.min_heartbeat_period is Some || self.max_heartbeat_period is Some)
            && merged.max_heartbeat_period <= merged.min_heartbeat_period {
            Some(AppError::InvalidMaximumHeartbeatPeriod)
        } else if self.min_heartbeat_interval == Some(0u32) {
            Some(AppError::InvalidMinimumHeartbeatInterval)
        } else {
            None
        }
    }
}

impl UpdateConfig {
    /// The error with which a change is refused, if it is: the caller is not
    /// the stored authority, or a field that is present breaks a rule.
    pub open spec fn spec_error(&self, update: ConfigUpdate) -> Option<AppError> {
        if self.authority != self.config.authority {
            Some(AppError::Unauthorized)
        } else {
            update.spec_broken_rule(self.config)
        }
    }

    /// The context after the change: every field that is present replaces the
    /// stored one where the change succeeds, and nothing changes where it is
    /// refused.
    pub open spec fn spec_after(&self, update: ConfigUpdate) -> UpdateConfig {
        if self.spec_error(update) is None {
            UpdateConfig { config: update.spec_apply(self.config), ..*self }
        } else {
            *self
        }
    }
}

/// The authority changes the configuration.
///
/// Each argument that is `Some` replaces the stored field; each that is
/// `None` leaves it. Only the stored authority may call, else the change is
/// refused with `Unauthorized`. The fields that are present are checked
/// before any is stored, so a refused change leaves the configuration as it
/// was, and a valid configuration stays valid.
pub fn handler(
    ctx: &mut UpdateConfig,
    token_fee_bps: Option<u16>,
    nft_fee_lamports: Option<u64>,
    min_heartbeat_period: Option<u32>,
    max_heartbeat_period: Option<u32>,
    min_heartbeat_interval: Option<u32>,
    paused: Option<bool>,
) -> (r: Result<(), AppError>)
    ensures
        ({
            let update = ConfigUpdate {
                token_fee_bps,
                nft_fee_lamports,
                min_heartbeat_period,
                max_heartbeat_period,
                min_heartbeat_interval,
                paused,
            };
            &&& r is Ok <==> old(ctx).spec_error(update) is None
            &&& r matches Err(e) ==> old(ctx).spec_error(update) == Some(e)
            &&& *final(ctx) == old(ctx).spec_after(update)
        }),
        r is Err ==> *final(ctx) == *old(ctx),
        final(ctx).authority == old(ctx).authority,
        final(ctx).config.authority == old(ctx).config.authority,
        final(ctx).config.fee_vault == old(ctx).config.fee_vault,
        old(ctx).config.wf() ==> final(ctx).config.wf(),
{
    if ctx.authority != ctx.config.authority {
        return Err(AppError::Unauthorized);
    }
    let mut next: Config = ctx.config;
    if let Some(v) = token_fee_bps {
        next.token_fee_bps = v;
    }
    if let Some(v) = nft_fee_lamports {
        next.nft_fee_lamports = v;
    }
    if let Some(v) = min_heartbeat_period {
        if v == 0 {
            return Err(AppError::InvalidMinimumHeartbeatPeriod);
        }
        next.min_heartbeat_period = v;
    }
    if let Some(v) = max_heartbeat_period {
        next.max_heartbeat_period = v;
    }
    if (min_heartbeat_period.is_some() || max_heartbeat_period.is_some())
        && next.max_heartbeat_period <= next.min_heartbeat_period {
        return Err(AppError::InvalidMaximumHeartbeatPeriod);
    }
    if let Some(v) = min_heartbeat_interval {
        if v == 0 {
            return Err(AppError::InvalidMinimumHeartbeatInterval);
        }
        next.min_heartbeat_interval = v;
    }
    if let Some(v) = paused {
        next.paused = v;
    }
    ctx.config = next;
    Ok(())
}

} // verus!
