use vstd::prelude::*;

verus! {

/// Every way an operation on a will or on the configuration can be refused.
///
/// A refused operation changes nothing and moves nothing.
#[derive(Clone, Copy, Debug, PartialEq, Eq, Structural)]
pub enum AppError {
    /// An amount does not fit the integer type that carries it.
    Overflow,
    /// A subtraction would go below zero.
    Underflow,
    /// A deposit of zero was asked for.
    InvalidAmount,
    /// The paying party does not hold the amount plus the minimum reserve.
    InsufficientBalance,
    /// A balance of zero where a positive one is needed.
    ZeroBalance,
    /// The caller is not the identity the operation is reserved for.
    Unauthorized,
    /// The minimum heartbeat period is zero.
    InvalidMinimumHeartbeatPeriod,
    /// The maximum heartbeat period does not exceed the minimum.
    InvalidMaximumHeartbeatPeriod,
    /// The minimum heartbeat interval is zero.
    InvalidMinimumHeartbeatInterval,
    /// A heartbeat period above the configured maximum.
    InvalidHeartbeatPeriod,
    /// A heartbeat period below the configured minimum, or a heartbeat sent
    /// before the minimum interval since the last one has passed.
    HeartbeatPeriodTooShort,
    /// A heartbeat sent too soon after the last one.
    HeartbeatTooFrequent,
    /// The emergency pause is on.
    ProgramPaused,
    /// The will is not in a status that admits the operation.
    InvalidWillStatus,
    /// The heartbeat period has already run out; a heartbeat no longer helps.
    WillAlreadyExpired,
    /// The supply of a unique asset is not exactly one.
    InvalidNftSupply,
    /// A unique asset has decimals.
    InvalidNftDecimals,
    /// The testator does not hold the unique asset.
    NftNotOwned,
    /// The heartbeat period has not run out yet.
    WillNotExpired,
    /// The heartbeat period has run out, the grace period has not.
    StillInGracePeriod,
    /// Only an active will can be triggered.
    CannotTriggerInactiveWill,
    /// The vault holds nothing of the asset claimed.
    NoAssetsToClaim,
    /// The balance does not cover the fee.
    InsuffcientBalanceForFees,
    /// Nothing is left to claim after fee and reserve.
    NoClaimableAmount,
    /// The will has not been triggered.
    WillNotTriggered,
    /// The will has been triggered or claimed; the testator can no longer withdraw.
    CannotWithdrawAfterTriggered,
    /// The will has already been withdrawn.
    AlreadyWithdrawn,
    /// The vault holds nothing to withdraw.
    NoAssetsToWithdraw,
    /// Nothing is left to withdraw after the reserve.
    NoWithdrawableAmount,
    /// The balance does not cover the minimum reserve.
    InsufficientBalanceForRent,
}

} // verus!
