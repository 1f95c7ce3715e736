use crate::constants::TRIGGER_GRACE_PERIOD;
use crate::error::AppError;
use crate::identity::Identity;
use vstd::prelude::*;

verus! {

/// Where a will stands in its life.
#[derive(Clone, Copy, Debug, PartialEq, Eq, Structural)]
pub enum WillStatus {
    /// Newly created, nothing deposited yet.
    Created,
    /// Assets are in the vault and the heartbeat timer runs.
    Active,
    /// The timer ran out: the beneficiary may claim.
    Triggered,
    /// The beneficiary has claimed the native currency.
    Claimed,
    /// The testator has taken the assets back.
    Withdrawn,
}

/// What can happen to a will.
#[derive(Clone, Copy, Debug, PartialEq, Eq, Structural)]
pub enum WillEvent {
    /// The testator deposits an asset of any kind.
    Deposit,
    /// The testator proves liveness.
    Heartbeat,
    /// Anyone declares the will expired.
    Trigger,
    /// The beneficiary claims the native currency.
    ClaimNative,
    /// The beneficiary claims a fungible token or a unique asset.
    ClaimToken,
    /// The testator withdraws.
    Withdraw,
}

impl WillStatus {
    /// The status an event leads to, or the error with which a will in this
    /// status refuses it. This is the whole transition table; guards on time,
    /// identity and amounts are checked by the operations themselves.
    pub open spec fn spec_transition(self, event: WillEvent) -> Result<WillStatus, AppError> {
        match event {
            WillEvent::Deposit => match self {
                WillStatus::Created | WillStatus::Active => Ok(WillStatus::Active),
                _ => Err(AppError::InvalidWillStatus),
            },
            WillEvent::Heartbeat => match self {
                WillStatus::Active => Ok(WillStatus::Active),
                _ => Err(AppError::InvalidWillStatus),
            },
            WillEvent::Trigger => match self {
                WillStatus::Active => Ok(WillStatus::Triggered),
                _ => Err(AppError::InvalidWillStatus),
            },
            WillEvent::ClaimNative => match self {
                WillStatus::Triggered | WillStatus::Claimed => Ok(WillStatus::Claimed),
                _ => Err(AppError::InvalidWillStatus),
            },
            WillEvent::ClaimToken => match self {
                WillStatus::Triggered => Ok(WillStatus::Triggered),
                _ => Err(AppError::InvalidWillStatus),
            },
            WillEvent::Withdraw => match self {
                WillStatus::Created | WillStatus::Active => Ok(WillStatus::Withdrawn),
                WillStatus::Triggered | WillStatus::Claimed => Err(
                    AppError::CannotWithdrawAfterTriggered,
                ),
                WillStatus::Withdrawn => Err(AppError::AlreadyWithdrawn),
            },
        }
    }

    /// How far a status is along the lifecycle. The two ends, `Claimed` and
    /// `Withdrawn`, both come after everything else.
    pub open spec fn rank(self) -> nat {
        match self {
            WillStatus::Created => 0,
            WillStatus::Active => 1,
            WillStatus::Triggered => 2,
            WillStatus::Claimed => 3,
            WillStatus::Withdrawn => 3,
        }
    }

    /// Checks an event against the transition table.
    pub fn transition(self, event: WillEvent) -> (next: Result<WillStatus, AppError>)
        ensures
            next == self.spec_transition(event),
    {
        match event {
            WillEvent::Deposit => match self {
                WillStatus::Created | WillStatus::Active => Ok(WillStatus::Active),
                _ => Err(AppError::InvalidWillStatus),
            },
            WillEvent::Heartbeat => match self {
                WillStatus::Active => Ok(WillStatus::Active),
                _ => Err(AppError::InvalidWillStatus),
            },
            WillEvent::Trigger => match self {
                WillStatus::Active => Ok(WillStatus::Triggered),
                _ => Err(AppError::InvalidWillStatus),
            },
            WillEvent::ClaimNative => match self {
                WillStatus::Triggered | WillStatus::Claimed => Ok(WillStatus::Claimed),
                _ => Err(AppError::InvalidWillStatus),
            },
            WillEvent::ClaimToken => match self {
                WillStatus::Triggered => Ok(WillStatus::Triggered),
                _ => Err(AppError::InvalidWillStatus),
            },
            WillEvent::Withdraw => match self {
                WillStatus::Created | WillStatus::Active => Ok(WillStatus::Withdrawn),
                WillStatus::Triggered | WillStatus::Claimed => Err(
                    AppError::CannotWithdrawAfterTriggered,
                ),
                WillStatus::Withdrawn => Err(AppError::AlreadyWithdrawn),
            },
        }
    }
}

/// A custody record: one testator, one beneficiary, one vault and a liveness
/// timer.
#[derive(Clone, Copy, Debug, PartialEq, Eq)]
pub struct Will {
    /// Who locked the assets and must prove liveness.
    pub testator: Identity,
    /// Who may claim once the will is triggered.
    pub beneficiary: Identity,
    /// The vault that holds the assets of this will.
    pub vault: Identity,
    /// Seconds the testator may stay silent; fixed at creation, within the
    /// bounds configured at that time.
    pub heartbeat_period: u32,
    pub status: WillStatus,
    /// When the will was created.
    pub created_at: i64,
    /// When the testator last proved liveness.
    pub last_heartbeat: i64,
    /// When the will was triggered, once it has been.
    pub trigger_at: Option<i64>,
    /// Derivation nonce of the will record.
    pub bump: u8,
    /// Derivation nonce of the vault.
    pub vault_bump: u8,
}

impl Will {
    /// The invariant of a will: it carries a trigger time exactly when it has
    /// been triggered.
    pub open spec fn wf(&self) -> bool {
        self.trigger_at is Some <==> (self.status == WillStatus::Triggered || self.status
            == WillStatus::Claimed)
    }

    /// The first moment at which the heartbeat period has run out.
    pub open spec fn expiry(&self) -> int {
        self.last_heartbeat + self.heartbeat_period
    }

    /// The first moment at which the will can be triggered: expiry plus the
    /// grace period.
    pub open spec fn triggerable_at(&self) -> int {
        self.expiry() + TRIGGER_GRACE_PERIOD
    }

    /// This will after a deposit at `now`: active, with the timer restarted.
    pub open spec fn spec_deposited(self, now: i64) -> Will {
        Will { status: WillStatus::Active, last_heartbeat: now, ..self }
    }

    /// This will after a heartbeat at `now`: the timer restarted.
    pub open spec fn spec_refreshed(self, now: i64) -> Will {
        Will { last_heartbeat: now, ..self }
    }

    /// This will after it was triggered at `now`.
    pub open spec fn spec_triggered(self, now: i64) -> Will {
        Will { status: WillStatus::Triggered, trigger_at: Some(now), ..self }
    }

    /// This will with another status and nothing else changed.
    pub open spec fn spec_with_status(self, status: WillStatus) -> Will {
        Will { status, ..self }
    }

    /// Seconds from the last heartbeat to `now`; negative where `now` lies
    /// before it.
    pub open spec fn since_heartbeat(&self, now: i64) -> int {
        now - self.last_heartbeat
    }

    /// Whether at least `interval` seconds lie between the last heartbeat and
    /// `now`.
    pub fn interval_elapsed(&self, now: i64, interval: u32) -> (elapsed: bool)
        ensures
            elapsed == (self.since_heartbeat(now) >= interval),
    {
        let since: i128 = now as i128 - self.last_heartbeat as i128;
        since >= interval as i128
    }

    /// Whether the heartbeat period has run out at `now`.
    pub fn is_expired(&self, now: i64) -> (expired: bool)
        ensures
            expired == (now >= self.expiry()),
    {
        let expiry: i128 = self.last_heartbeat as i128 + self.heartbeat_period as i128;
        now as i128 >= expiry
    }

    /// Whether the grace period after expiry is over at `now`.
    pub fn grace_elapsed(&self, now: i64) -> (elapsed: bool)
        ensures
            elapsed == (now >= self.triggerable_at()),
    {
        let expiry: i128 = self.last_heartbeat as i128 + self.heartbeat_period as i128;
        now as i128 >= expiry + TRIGGER_GRACE_PERIOD as i128
    }
}

/// No event leads back: whatever a will admits takes it to a status at least
/// as far along as the one it had.
pub proof fn lemma_lifecycle_never_regresses(status: WillStatus, event: WillEvent)
    ensures
        status.spec_transition(event) matches Ok(next) ==> next.rank() >= status.rank(),
{
}

/// The two ends absorb: a withdrawn will admits nothing, and a claimed will
/// admits only a further native-currency claim, which leaves it claimed.
pub proof fn lemma_terminal_statuses_absorb(event: WillEvent)
    ensures
        WillStatus::Withdrawn.spec_transition(event) is Err,
        WillStatus::Claimed.spec_transition(event) matches Ok(next) ==> event
            == WillEvent::ClaimNative && next == WillStatus::Claimed,
{
}

/// A will is triggered only from `Active`, withdrawn only before it is
/// triggered, and claimed only after.
pub proof fn lemma_claim_and_withdraw_exclude(status: WillStatus)
    ensures
        !(status.spec_transition(WillEvent::Withdraw) is Ok && status.spec_transition(
            WillEvent::ClaimNative,
        ) is Ok),
        !(status.spec_transition(WillEvent::Withdraw) is Ok && status.spec_transition(
            WillEvent::ClaimToken,
        ) is Ok),
        status.spec_transition(WillEvent::Trigger) is Ok <==> status == WillStatus::Active,
{
}

} // verus!
