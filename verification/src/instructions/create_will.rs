use crate::error::AppError;
use crate::identity::Identity;
use crate::state::{Config, Will, WillStatus};
use vstd::prelude::*;

verus! {

/// What the creation of a will reads: the caller, the configuration, the
/// vault set aside for the will with the two derivation nonces, and the
/// current time.
#[derive(Clone, Copy, Debug, PartialEq, Eq)]
pub struct CreateWill {
    /// The caller, who becomes the testator.
    pub testator: Identity,
    pub config: Config,
    /// The vault of the new will.
    pub vault: Identity,
    /// Derivation nonce of the will record.
    pub bump: u8,
    /// Derivation nonce of the vault.
    pub vault_bump: u8,
    /// The current time.
    pub now: i64,
}

impl CreateWill {
    /// The guards of a creation, in the order in which they are checked: the
    /// heartbeat period is at least the configured minimum, the system is not
    /// paused, and the heartbeat period is at most the configured maximum.
    pub open spec fn spec_validate(&self, heartbeat_period: u32) -> Result<(), AppError> {
        if heartbeat_period < self.config.min_heartbeat_period {
            Err(AppError::HeartbeatPeriodTooShort)
        } else if self.config.paused {
            Err(AppError::ProgramPaused)
        } else if heartbeat_period > self.config.max_heartbeat_period {
            Err(AppError::InvalidHeartbeatPeriod)
        } else {
            Ok(())
        }
    }

    /// The will a creation makes: in status `Created`, with creation time and
    /// last heartbeat both at the current time, and no trigger time.
    pub open spec fn spec_new_will(&self, beneficiary: Identity, heartbeat_period: u32) -> Will {
        Will {
            testator: self.testator,
            beneficiary,
            vault: self.vault,
            heartbeat_period,
            status: WillStatus::Created,
            created_at: self.now,
            last_heartbeat: self.now,
            trigger_at: None,
            bump: self.bump,
            vault_bump: self.vault_bump,
        }
    }

    /// The new will, or the error with which the creation is refused.
    pub open spec fn spec_create(&self, beneficiary: Identity, heartbeat_period: u32) -> Result<
        Will,
        AppError,
    > {
        match self.spec_validate(heartbeat_period) {
            Err(e) => Err(e),
            Ok(_) => Ok(self.spec_new_will(beneficiary, heartbeat_period)),
        }
    }

    /// Checks the guards of a creation.
    pub fn validate(&self, heartbeat_period: u32) -> (r: Result<(), AppError>)
        ensures
            r == self.spec_validate(heartbeat_period),
            r is Ok <==> self.config.min_heartbeat_period <= heartbeat_period
                <= self.config.max_heartbeat_period && !self.config.paused,
            heartbeat_period < self.config.min_heartbeat_period ==> r == Err::<(), AppError>(
                AppError::HeartbeatPeriodTooShort,
            ),
            heartbeat_period >= self.config.min_heartbeat_period && self.config.paused ==> r
                == Err::<(), AppError>(AppError::ProgramPaused),
            heartbeat_period >= self.config.min_heartbeat_period && !self.config.paused
                && heartbeat_period > self.config.max_heartbeat_period ==> r == Err::<
                (),
                AppError,
            >(AppError::InvalidHeartbeatPeriod),
    {
        if heartbeat_period < self.config.min_heartbeat_period {
            return Err(AppError::HeartbeatPeriodTooShort);
        }
        if self.config.paused {
            return Err(AppError::ProgramPaused);
        }
        if heartbeat_period > self.config.max_heartbeat_period {
            return Err(AppError::InvalidHeartbeatPeriod);
        }
        Ok(())
    }
}

/// The caller creates a will in favour of `beneficiary`.
///
/// A period below the configured minimum is refused with
/// `HeartbeatPeriodTooShort`, whatever else holds; a creation while the
/// system is paused with `ProgramPaused`; a period above the configured
/// maximum with `InvalidHeartbeatPeriod`. So every will has a period within
/// the bounds that were configured when it was created. The new will is in
/// status `Created`, its creation time and last heartbeat are the current
/// time, and it has no trigger time.
pub fn handler(ctx: &CreateWill, beneficiary: Identity, heartbeat_period: u32) -> (r: Result<
    Will,
    AppError,
>)
    ensures
        r == ctx.spec_create(beneficiary, heartbeat_period),
        r is Ok <==> ctx.config.min_heartbeat_period <= heartbeat_period
            <= ctx.config.max_heartbeat_period && !ctx.config.paused,
        heartbeat_period > ctx.config.max_heartbeat_period ==> r is Err,
        heartbeat_period < ctx.config.min_heartbeat_period ==> r == Err::<Will, AppError>(
            AppError::HeartbeatPeriodTooShort,
        ),
        r matches Ok(will) ==> {
            &&& will.status == WillStatus::Created
            &&& will.last_heartbeat == will.created_at
            &&& will.created_at == ctx.now
            &&& will.trigger_at is None
            &&& will.testator == ctx.testator
            &&& will.beneficiary == beneficiary
            &&& will.heartbeat_period == heartbeat_period
            &&& ctx.config.min_heartbeat_period <= will.heartbeat_period
                <= ctx.config.max_heartbeat_period
            &&& will.wf()
        },
{
    ctx.validate(heartbeat_period)?;
    Ok(
        Will {
            testator: ctx.testator,
            beneficiary,
            vault: ctx.vault,
            heartbeat_period,
            status: WillStatus::Created,
            created_at: ctx.now,
            last_heartbeat: ctx.now,
            trigger_at: None,
            bump: ctx.bump,
            vault_bump: ctx.vault_bump,
        },
    )
}

} // verus!
