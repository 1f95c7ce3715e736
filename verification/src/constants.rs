use vstd::prelude::*;

verus! {

/// Seconds in one minute.
pub const SECONDS_PER_MINUTE: u32 = 60;

/// Seconds in one hour.
pub const SECONDS_PER_HOUR: u32 = 3_600;

/// Seconds in one day.
pub const SECONDS_PER_DAY: u32 = 86_400;

/// Seconds in one week.
pub const SECONDS_PER_WEEK: u32 = 604_800;

/// The shortest heartbeat period a configuration would usually allow: one day.
pub const MIN_HEARTBEAT_PERIOD: u32 = SECONDS_PER_DAY;

/// The usual least spacing of heartbeats: one minute.
pub const MIN_HEARTBEAT_INTERVAL: u32 = 60;

/// The usual flat fee on the claim of a unique asset, in native-currency units.
pub const NFT_SERVICE_FEE_LAMPORTS: u64 = 1_000_000;

/// A unique asset moves whole: the amount of its transfer is always one.
pub const NFT_AMOUNT: u32 = 1;

/// Window after nominal expiry during which a will cannot yet be triggered.
pub const TRIGGER_GRACE_PERIOD: u32 = 300;

/// Denominator of a fee given in basis points.
pub const BPS_DENOMINATOR: u64 = 10_000;

} // verus!
