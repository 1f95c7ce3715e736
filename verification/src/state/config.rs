use crate::identity::Identity;
use vstd::prelude::*;

verus! {

/// The global settings every operation reads: fee schedule, heartbeat bounds
/// and the emergency pause. There is one for the whole system.
#[derive(Clone, Copy, Debug, PartialEq, Eq)]
pub struct Config {
    /// The only identity that may change the configuration.
    pub authority: Identity,
    /// Where collected fees go.
    pub fee_vault: Identity,
    /// Proportional fee on native-currency and fungible-token claims, in basis points.
    pub token_fee_bps: u16,
    /// Flat fee on a unique-asset claim, in native-currency units.
    pub nft_fee_lamports: u64,
    /// Shortest heartbeat period a will may be created with, in seconds.
    pub min_heartbeat_period: u32,
    /// Longest heartbeat period a will may be created with, in seconds.
    pub max_heartbeat_period: u32,
    /// Least number of seconds between two heartbeats.
    pub min_heartbeat_interval: u32,
    /// Emergency pause.
    pub paused: bool,
    /// Derivation nonce of the configuration record.
    pub bump: u8,
}

/// The rules on heartbeat bounds: a positive minimum period, a maximum above
/// it, and a positive minimum interval.
pub open spec fn bounds_valid(
    min_heartbeat_period: u32,
    max_heartbeat_period: u32,
    min_heartbeat_interval: u32,
) -> bool {
    &&& min_heartbeat_period > 0
    &&& max_heartbeat_period > min_heartbeat_period
    &&& min_heartbeat_interval > 0
}

/// The error that names the first rule on heartbeat bounds that is broken,
/// `None` where all hold.
pub open spec fn bounds_error(
    min_heartbeat_period: u32,
    max_heartbeat_period: u32,
    min_heartbeat_interval: u32,
) -> Option<crate::error::AppError> {
    if min_heartbeat_period == 0 {
        Some(crate::error::AppError::InvalidMinimumHeartbeatPeriod)
    } else if max_heartbeat_period <= min_heartbeat_period {
        Some(crate::error::AppError::InvalidMaximumHeartbeatPeriod)
    } else if min_heartbeat_interval == 0 {
        Some(crate::error::AppError::InvalidMinimumHeartbeatInterval)
    } else {
        None
    }
}

impl Config {
    /// The invariant of a stored configuration.
    pub open spec fn wf(&self) -> bool {
        bounds_valid(
            self.min_heartbeat_period,
            self.max_heartbeat_period,
            self.min_heartbeat_interval,
        )
    }
}

/// A set of bounds breaks no rule exactly when it is valid.
pub proof fn lemma_bounds_error_iff_invalid(
    min_heartbeat_period: u32,
    max_heartbeat_period: u32,
    min_heartbeat_interval: u32,
)
    ensures
        bounds_error(min_heartbeat_period, max_heartbeat_period, min_heartbeat_interval) is None
            <==> bounds_valid(min_heartbeat_period, max_heartbeat_period, min_heartbeat_interval),
{
}

} // verus!
