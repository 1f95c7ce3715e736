use crate::error::AppError;
use crate::identity::Identity;
use crate::state::{Config, Will, WillEvent, WillStatus};
use vstd::prelude::*;

verus! {

/// What a trigger reads: the caller, the will, the configuration and the
/// current time. Only `will` is written.
#[derive(Clone, Copy, Debug, PartialEq, Eq)]
pub struct TriggerWill {
    /// The caller. Anyone may trigger an expired will.
    pub keeper: Identity,
    pub will: Will,
    pub config: Config,
    /// The current time.
    pub now: i64,
}

impl TriggerWill {
    /// The guards of a trigger, in the order in which they are checked: the
    /// will is active, the system is not paused, the heartbeat period has run
    /// out, and so has the grace period after it.
    pub open spec fn spec_validate(&self) -> Result<(), AppError> {
        match self.will.status.spec_transition(WillEvent::Trigger) {
            Err(e) => Err(e),
            Ok(_) => if self.config.paused {
                Err(AppError::ProgramPaused)
            } else if self.now < self.will.expiry() {
                Err(AppError::WillNotExpired)
            } else if self.now < self.will.triggerable_at() {
                Err(AppError::StillInGracePeriod)
            } else {
                Ok(())
            },
        }
    }

    /// The context after the trigger: the will is triggered and carries the
    /// time where the trigger succeeds, and nothing changes where it is
    /// refused.
    pub open spec fn spec_after(&self) -> TriggerWill {
        if self.spec_validate() is Ok {
            TriggerWill { will: self.will.spec_triggered(self.now), ..*self }
        } else {
            *self
        }
    }

    /// Checks the guards of a trigger.
    pub fn validate(&self) -> (r: Result<(), AppError>)
        ensures
            r == self.spec_validate(),
            r is Ok <==> {
                &&& self.will.status == WillStatus::Active
                &&& !self.config.paused
                &&& self.now >= self.will.last_heartbeat + self.will.heartbeat_period
                    + crate::constants::TRIGGER_GRACE_PERIOD
            },
    {
        match self.will.status.transition(WillEvent::Trigger) {
            Err(e) => {
                return Err(e);
            },
            Ok(_) => {},
        }
        if self.config.paused {
            return Err(AppError::ProgramPaused);
        }
        if !self.will.is_expired(self.now) {
            return Err(AppError::WillNotExpired);
        }
        if !self.will.grace_elapsed(self.now) {
            return Err(AppError::StillInGracePeriod);
        }
        Ok(())
    }
}

/// Anyone declares an expired will triggered, after which the beneficiary
/// may claim.
///
/// The will must be active and the heartbeat period plus the grace period
/// must have passed since the last heartbeat. The will becomes `Triggered`
/// and records the current time. A refused trigger leaves the context as it
/// was.
pub fn handler(ctx: &mut TriggerWill) -> (r: Result<(), AppError>)
    ensures
        r == old(ctx).spec_validate(),
        *final(ctx) == old(ctx).spec_after(),
        r is Err ==> *final(ctx) == *old(ctx),
        r is Ok ==> {
            &&& final(ctx).will == old(ctx).will.spec_triggered(old(ctx).now)
            &&& final(ctx).will.status == WillStatus::Triggered
            &&& final(ctx).will.trigger_at == Some(old(ctx).now)
        },
        r is Ok ==> old(ctx).now >= old(ctx).will.triggerable_at(),
        old(ctx).will.wf() ==> final(ctx).will.wf(),
{
    ctx.validate()?;
    ctx.will.status = WillStatus::Triggered;
    ctx.will.trigger_at = Some(ctx.now);
    Ok(())
}

/// A will is triggered at most once: after a trigger has succeeded, every
/// further trigger of that will is refused with `InvalidWillStatus`, at
/// whatever time, by whatever caller and under whatever configuration.
pub proof fn lemma_trigger_succeeds_once(first: TriggerWill, second: TriggerWill)
    requires
        first.spec_validate() is Ok,
        second.will == first.spec_after().will,
    ensures
        second.spec_validate() == Err::<(), AppError>(AppError::InvalidWillStatus),
        second.spec_after() == second,
{
}

/// A trigger before the grace period is over is refused: with
/// `WillNotExpired` before expiry, with `StillInGracePeriod` from expiry on.
pub proof fn lemma_trigger_waits_for_grace(ctx: TriggerWill)
    requires
        ctx.will.status == WillStatus::Active,
        !ctx.config.paused,
        ctx.now < ctx.will.triggerable_at(),
    ensures
        ctx.now < ctx.will.expiry() ==> ctx.spec_validate() == Err::<(), AppError>(
            AppError::WillNotExpired,
        ),
        ctx.now >= ctx.will.expiry() ==> ctx.spec_validate() == Err::<(), AppError>(
            AppError::StillInGracePeriod,
        ),
{
}

} // verus!
