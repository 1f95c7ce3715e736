use crate::custody::{Asset, Transfer};
use crate::error::AppError;
use crate::identity::Identity;
use crate::state::{Will, WillEvent, WillStatus};
use vstd::prelude::*;

verus! {

/// What a native-currency deposit reads: the caller and the native currency
/// the caller holds, the will, the reserve the caller must keep, and the
/// current time. The balance is the one before the deposit; only `will` is
/// written.
#[derive(Clone, Copy, Debug, PartialEq, Eq)]
pub struct DepositSol {
    /// The caller.
    pub testator: Identity,
    /// Native currency the caller holds.
    pub testator_lamports: u64,
    pub will: Will,
    /// What the caller's own balance must keep after the deposit.
    pub reserve: u64,
    /// The current time.
    pub now: i64,
}

impl DepositSol {
    /// The guards of a native-currency deposit, in the order in which they
    /// are checked: the caller is the testator, the amount is positive, the
    /// will is created or active, and the caller holds the amount on top of
    /// the reserve.
    pub open spec fn spec_validate(&self, amount: u64) -> Result<(), AppError> {
        if self.testator != self.will.testator {
            Err(AppError::Unauthorized)
        } else if amount == 0 {
            Err(AppError::InvalidAmount)
        } else {
            match self.will.status.spec_transition(WillEvent::Deposit) {
                Err(e) => Err(e),
                Ok(_) => if self.testator_lamports < amount + self.reserve {
                    Err(AppError::InsufficientBalance)
                } else {
                    Ok(())
                },
            }
        }
    }

    /// The transfer a deposit makes, or the error with which it is refused.
    pub open spec fn spec_deposit(&self, amount: u64) -> Result<Transfer, AppError> {
        match self.spec_validate(amount) {
            Err(e) => Err(e),
            Ok(_) => Ok(
                Transfer {
                    asset: Asset::Native,
                    from: self.will.testator,
                    to: self.will.vault,
                    amount,
                },
            ),
        }
    }

    /// The context after the deposit: the will is active and its timer
    /// restarted where the deposit succeeds, and nothing changes where it is
    /// refused.
    pub open spec fn spec_after(&self, amount: u64) -> DepositSol {
        if self.spec_validate(amount) is Ok {
            DepositSol { will: self.will.spec_deposited(self.now), ..*self }
        } else {
            *self
        }
    }

    /// Checks the guards of a native-currency deposit.
    pub fn validate(&self, amount: u64) -> (r: Result<(), AppError>)
        ensures
            r == self.spec_validate(amount),
            r is Ok <==> {
                &&& self.testator == self.will.testator
                &&& amount > 0
                &&& (self.will.status == WillStatus::Created || self.will.status
                    == WillStatus::Active)
                &&& self.testator_lamports >= amount + self.reserve
            },
    {
        if self.testator != self.will.testator {
            return Err(AppError::Unauthorized);
        }
        if amount == 0 {
            return Err(AppError::InvalidAmount);
        }
        match self.will.status.transition(WillEvent::Deposit) {
            Err(e) => {
                return Err(e);
            },
            Ok(_) => {},
        }
        let needed: u128 = amount as u128 + self.reserve as u128;
        if (self.testator_lamports as u128) < needed {
            return Err(AppError::InsufficientBalance);
        }
        Ok(())
    }
}

/// The testator deposits native currency into the vault of the will.
///
/// A deposit counts as proof of liveness: the will becomes `Active` if it was
/// `Created`, and its timer restarts at the current time. A refused deposit
/// leaves the context as it was.
pub fn handler(ctx: &mut DepositSol, amount: u64) -> (r: Result<Transfer, AppError>)
    ensures
        r == old(ctx).spec_deposit(amount),
        *final(ctx) == old(ctx).spec_after(amount),
        r is Err ==> *final(ctx) == *old(ctx),
        r is Ok ==> final(ctx).will == old(ctx).will.spec_deposited(old(ctx).now),
        old(ctx).will.wf() ==> final(ctx).will.wf(),
{
    ctx.validate(amount)?;
    let t = Transfer::native(ctx.will.testator, ctx.will.vault, amount);
    ctx.will.status = WillStatus::Active;
    ctx.will.last_heartbeat = ctx.now;
    Ok(t)
}

} // verus!
