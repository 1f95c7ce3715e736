use crate::error::AppError;
use crate::identity::Identity;
use crate::state::{Config, Will, WillEvent, WillStatus};
use vstd::prelude::*;

verus! {

/// What a heartbeat reads: the caller, the configuration, the will and the
/// current time. Only `will` is written.
#[derive(Clone, Copy, Debug, PartialEq, Eq)]
pub struct SendHeartbeat {
    /// The caller.
    pub testator: Identity,
    pub config: Config,
    pub will: Will,
    /// The current time.
    pub now: i64,
}

impl SendHeartbeat {
    /// The guards of a heartbeat, in the order in which they are checked: the
    /// caller is the testator, the will is active, the minimum interval since
    /// the last heartbeat has passed, and the heartbeat period has not run
    /// out. The pause does not stop a heartbeat.
    pub open spec fn spec_validate(&self) -> Result<(), AppError> {
        if self.testator != self.will.testator {
            Err(AppError::Unauthorized)
        } else {
            match self.will.status.spec_transition(WillEvent::Heartbeat) {
                Err(e) => Err(e),
                Ok(_) => if self.will.since_heartbeat(self.now)
                    < self.config.min_heartbeat_interval {
                    Err(AppError::HeartbeatPeriodTooShort)
                } else if self.now >= self.will.expiry() {
                    Err(AppError::WillAlreadyExpired)
                } else {
                    Ok(())
                },
            }
        }
    }

    /// The context after the heartbeat: the timer restarted where it
    /// succeeds, and nothing changes where it is refused.
    pub open spec fn spec_after(&self) -> SendHeartbeat {
        if self.spec_validate() is Ok {
            SendHeartbeat { will: self.will.spec_refreshed(self.now), ..*self }
        } else {
            *self
        }
    }

    /// Checks the guards of a heartbeat.
    pub fn validate(&self) -> (r: Result<(), AppError>)
        ensures
            r == self.spec_validate(),
            r is Ok <==> {
                &&& self.testator == self.will.testator
                &&& self.will.status == WillStatus::Active
                &&& self.now - self.will.last_heartbeat >= self.config.min_heartbeat_interval
                &&& self.now < self.will.last_heartbeat + self.will.heartbeat_period
            },
    {
        if self.testator != self.will.testator {
            return Err(AppError::Unauthorized);
        }
        match self.will.status.transition(WillEvent::Heartbeat) {
            Err(e) => {
                return Err(e);
            },
            Ok(_) => {},
        }
        if !self.will.interval_elapsed(self.now, self.config.min_heartbeat_interval) {
            return Err(AppError::HeartbeatPeriodTooShort);
        }
        if self.will.is_expired(self.now) {
            return Err(AppError::WillAlreadyExpired);
        }
        Ok(())
    }
}

/// The testator proves liveness: the timer of the will restarts at the
/// current time.
///
/// A heartbeat sent before the minimum interval has passed is refused with
/// `HeartbeatPeriodTooShort`; one sent at or after expiry is refused with
/// `WillAlreadyExpired`, so that a heartbeat cannot revive an expired will. A
/// refused heartbeat leaves the context as it was.
pub fn handler(ctx: &mut SendHeartbeat) -> (r: Result<(), AppError>)
    ensures
        r == old(ctx).spec_validate(),
        *final(ctx) == old(ctx).spec_after(),
        r is Err ==> *final(ctx) == *old(ctx),
        r is Ok ==> final(ctx).will == old(ctx).will.spec_refreshed(old(ctx).now),
        old(ctx).will.wf() ==> final(ctx).will.wf(),
{
    ctx.validate()?;
    ctx.will.last_heartbeat = ctx.now;
    Ok(())
}

/// A heartbeat by the testator of an active will is refused with
/// `HeartbeatPeriodTooShort` before the minimum interval has passed, and,
/// once it has, with `WillAlreadyExpired` at or after expiry.
pub proof fn lemma_heartbeat_timing(ctx: SendHeartbeat)
    requires
        ctx.testator == ctx.will.testator,
        ctx.will.status == WillStatus::Active,
    ensures
        ctx.will.since_heartbeat(ctx.now) < ctx.config.min_heartbeat_interval
            ==> ctx.spec_validate() == Err::<(), AppError>(AppError::HeartbeatPeriodTooShort),
        ctx.will.since_heartbeat(ctx.now) >= ctx.config.min_heartbeat_interval && ctx.now
            >= ctx.will.expiry() ==> ctx.spec_validate() == Err::<(), AppError>(
            AppError::WillAlreadyExpired,
        ),
{
}

/// After a heartbeat has succeeded, another one by the testator before the
/// minimum interval has passed since is refused with
/// `HeartbeatPeriodTooShort`.
pub proof fn lemma_heartbeat_again_too_soon(first: SendHeartbeat, second: SendHeartbeat)
    requires
        first.spec_validate() is Ok,
        second.will == first.spec_after().will,
        second.testator == first.testator,
        second.now - first.now < second.config.min_heartbeat_interval,
    ensures
        second.spec_validate() == Err::<(), AppError>(AppError::HeartbeatPeriodTooShort),
{
}

} // verus!
