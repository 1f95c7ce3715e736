use crate::custody::{Asset, Transfer};
use crate::error::AppError;
use crate::fees::{spec_withdrawable, withdrawable};
use crate::identity::Identity;
use crate::state::{Config, Will, WillEvent, WillStatus};
use vstd::prelude::*;

verus! {

/// What a withdrawal reads: the caller, the will, the balance of its vault,
/// the configuration and the reserve the vault must keep. The balance is the
/// one before the withdrawal; only `will` is written.
#[derive(Clone, Copy, Debug, PartialEq, Eq)]
pub struct WithdrawSol {
    /// The caller.
    pub testator: Identity,
    pub will: Will,
    /// Native currency in the vault of the will.
    pub vault_lamports: u64,
    pub config: Config,
    /// What the vault must keep to stay alive.
    pub reserve: u64,
}

impl WithdrawSol {
    /// The guards on caller, status and pause, in the order in which they are
    /// checked: the caller is the testator, the will has not been triggered,
    /// claimed or withdrawn, and the system is not paused.
    pub open spec fn spec_guards(&self) -> Result<(), AppError> {
        if self.testator != self.will.testator {
            Err(AppError::Unauthorized)
        } else {
            match self.will.status.spec_transition(WillEvent::Withdraw) {
                Err(e) => Err(e),
                Ok(_) => if self.config.paused {
                    Err(AppError::ProgramPaused)
                } else {
                    Ok(())
                },
            }
        }
    }

    /// All the guards of a withdrawal: those on caller, status and pause,
    /// and last that the vault holds more than the reserve.
    pub open spec fn spec_validate(&self) -> Result<(), AppError> {
        match self.spec_guards() {
            Err(e) => Err(e),
            Ok(_) => match spec_withdrawable(self.vault_lamports, self.reserve) {
                Err(e) => Err(e),
                Ok(_) => Ok(()),
            },
        }
    }

    /// The transfer a withdrawal makes, or the error with which it is
    /// refused.
    pub open spec fn spec_withdraw(&self) -> Result<Transfer, AppError> {
        match self.spec_guards() {
            Err(e) => Err(e),
            Ok(_) => match spec_withdrawable(self.vault_lamports, self.reserve) {
                Err(e) => Err(e),
                Ok(amount) => Ok(
                    Transfer {
                        asset: Asset::Native,
                        from: self.will.vault,
                        to: self.will.testator,
                        amount,
                    },
                ),
            },
        }
    }

    /// The context after the withdrawal: the will is withdrawn where it
    /// succeeds, and nothing changes where it is refused.
    pub open spec fn spec_after(&self) -> WithdrawSol {
        if self.spec_withdraw() is Ok {
            WithdrawSol { will: self.will.spec_with_status(WillStatus::Withdrawn), ..*self }
        } else {
            *self
        }
    }

    /// Checks the guards of a withdrawal. It is `Ok` exactly where the
    /// withdrawal succeeds, and refuses with the error of the withdrawal.
    pub fn validate(&self) -> (r: Result<(), AppError>)
        ensures
            r == self.spec_validate(),
            r is Ok <==> {
                &&& self.testator == self.will.testator
                &&& (self.will.status == WillStatus::Created || self.will.status
                    == WillStatus::Active)
                &&& !self.config.paused
                &&& self.vault_lamports > self.reserve
            },
            r is Ok <==> self.spec_withdraw() is Ok,
            r matches Err(e) ==> self.spec_withdraw() == Err::<Transfer, AppError>(e),
    {
        if self.testator != self.will.testator {
            return Err(AppError::Unauthorized);
        }
        match self.will.status.transition(WillEvent::Withdraw) {
            Err(e) => {
                return Err(e);
            },
            Ok(_) => {},
        }
        if self.config.paused {
            return Err(AppError::ProgramPaused);
        }
        match withdrawable(self.vault_lamports, self.reserve) {
            Err(e) => Err(e),
            Ok(_) => Ok(()),
        }
    }
}

/// The testator takes the native currency back before the will is triggered.
///
/// All but the reserve goes from the vault to the testator and the will
/// becomes `Withdrawn`. Where the vault holds no more than the reserve the
/// withdrawal is refused with `NoWithdrawableAmount`. A refused withdrawal
/// leaves the context as it was.
pub fn handler(ctx: &mut WithdrawSol) -> (r: Result<Transfer, AppError>)
    ensures
        r == old(ctx).spec_withdraw(),
        r is Ok <==> old(ctx).spec_validate() is Ok,
        *final(ctx) == old(ctx).spec_after(),
        r is Err ==> *final(ctx) == *old(ctx),
        r matches Ok(t) ==> {
            &&& final(ctx).will.status == WillStatus::Withdrawn
            &&& t.amount > 0
            &&& t.amount + old(ctx).reserve == old(ctx).vault_lamports
            &&& t.to == old(ctx).will.testator
            &&& t.from == old(ctx).will.vault
        },
        old(ctx).testator == old(ctx).will.testator && (old(ctx).will.status
            == WillStatus::Triggered || old(ctx).will.status == WillStatus::Claimed) ==> r
            == Err::<Transfer, AppError>(AppError::CannotWithdrawAfterTriggered),
        old(ctx).testator == old(ctx).will.testator && old(ctx).will.status
            == WillStatus::Withdrawn ==> r == Err::<Transfer, AppError>(
            AppError::AlreadyWithdrawn,
        ),
        old(ctx).spec_guards() is Ok && old(ctx).vault_lamports <= old(ctx).reserve ==> r
            == Err::<Transfer, AppError>(AppError::NoWithdrawableAmount),
        old(ctx).will.wf() ==> final(ctx).will.wf(),
{
    ctx.validate()?;
    let amount: u64 = withdrawable(ctx.vault_lamports, ctx.reserve)?;
    let t = Transfer::native(ctx.will.vault, ctx.will.testator, amount);
    ctx.will.status = WillStatus::Withdrawn;
    Ok(t)
}

/// Once a will is triggered or claimed the testator cannot withdraw,
/// whatever the vault holds; once it is withdrawn, no further withdrawal
/// succeeds. A caller who is not the testator is refused as `Unauthorized`
/// before the status is looked at.
pub proof fn lemma_no_withdrawal_after_the_end(ctx: WithdrawSol)
    ensures
        ctx.will.status == WillStatus::Triggered || ctx.will.status == WillStatus::Claimed
            || ctx.will.status == WillStatus::Withdrawn ==> ctx.spec_withdraw() is Err,
        ctx.testator == ctx.will.testator && (ctx.will.status == WillStatus::Triggered
            || ctx.will.status == WillStatus::Claimed) ==> ctx.spec_withdraw() == Err::<
            Transfer,
            AppError,
        >(AppError::CannotWithdrawAfterTriggered),
        ctx.testator == ctx.will.testator && ctx.will.status == WillStatus::Withdrawn
            ==> ctx.spec_withdraw() == Err::<Transfer, AppError>(AppError::AlreadyWithdrawn),
        ctx.testator != ctx.will.testator ==> ctx.spec_withdraw() == Err::<Transfer, AppError>(
            AppError::Unauthorized,
        ),
{
}

/// A will is withdrawn at most once: after a withdrawal has succeeded, every
/// further withdrawal by the testator is refused with `AlreadyWithdrawn`,
/// whatever the vault holds.
pub proof fn lemma_withdraw_succeeds_once(first: WithdrawSol, second: WithdrawSol)
    requires
        first.spec_withdraw() is Ok,
        second.will == first.spec_after().will,
        second.testator == first.testator,
    ensures
        second.spec_withdraw() == Err::<Transfer, AppError>(AppError::AlreadyWithdrawn),
        second.spec_after() == second,
{
}

} // verus!
