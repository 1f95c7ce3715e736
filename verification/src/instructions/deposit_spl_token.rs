use crate::custody::{Asset, Transfer};
use crate::error::AppError;
use crate::identity::Identity;
use crate::state::{Will, WillEvent, WillStatus};
use vstd::prelude::*;

verus! {

/// What a fungible-token deposit reads: the caller, the will, the token and
/// the caller's balance of it, and the current time. The balance is the one
/// before the deposit; only `will` is written.
#[derive(Clone, Copy, Debug, PartialEq, Eq)]
pub struct DepositSplToken {
    /// The caller.
    pub testator: Identity,
    pub will: Will,
    /// The mint of the token deposited.
    pub mint: Identity,
    /// Units of the token the caller holds.
    pub testator_token_amount: u64,
    /// The current time.
    pub now: i64,
}

impl DepositSplToken {
    /// The guards of a fungible-token deposit, in the order in which they are
    /// checked: the caller is the testator and holds the amount, the amount
    /// is positive, and the will is created or active.
    pub open spec fn spec_validate(&self, amount: u64) -> Result<(), AppError> {
        if self.testator != self.will.testator {
            Err(AppError::Unauthorized)
        } else if self.testator_token_amount < amount {
            Err(AppError::InsufficientBalance)
        } else if amount == 0 {
            Err(AppError::InvalidAmount)
        } else {
            match self.will.status.spec_transition(WillEvent::Deposit) {
                Err(e) => Err(e),
                Ok(_) => Ok(()),
            }
        }
    }

    /// The transfer a deposit makes, or the error with which it is refused.
    pub open spec fn spec_deposit(&self, amount: u64) -> Result<Transfer, AppError> {
        match self.spec_validate(amount) {
            Err(e) => Err(e),
            Ok(_) => Ok(
                Transfer {
                    asset: Asset::Fungible { mint: self.mint },
                    from: self.will.testator,
                    to: self.will.vault,
                    amount,
                },
            ),
        }
    }

    /// The context after the deposit: the will is active and its timer
    /// restarted where the deposit succeeds, and nothing changes where it is
    /// refused.
    pub open spec fn spec_after(&self, amount: u64) -> DepositSplToken {
        if self.spec_validate(amount) is Ok {
            DepositSplToken { will: self.will.spec_deposited(self.now), ..*self }
        } else {
            *self
        }
    }

    /// Checks the guards of a fungible-token deposit.
    pub fn validate(&self, amount: u64) -> (r: Result<(), AppError>)
        ensures
            r == self.spec_validate(amount),
            r is Ok <==> {
                &&& self.testator == self.will.testator
                &&& 0 < amount <= self.testator_token_amount
                &&& (self.will.status == WillStatus::Created || self.will.status
                    == WillStatus::Active)
            },
    {
        if self.testator != self.will.testator {
            return Err(AppError::Unauthorized);
        }
        if self.testator_token_amount < amount {
            return Err(AppError::InsufficientBalance);
        }
        if amount == 0 {
            return Err(AppError::InvalidAmount);
        }
        match self.will.status.transition(WillEvent::Deposit) {
            Err(e) => Err(e),
            Ok(_) => Ok(()),
        }
    }
}

/// The testator deposits a fungible token into the vault of the will.
///
/// A deposit counts as proof of liveness: the will becomes `Active` if it was
/// `Created`, and its timer restarts at the current time. A refused deposit
/// leaves the context as it was.
pub fn handler(ctx: &mut DepositSplToken, amount: u64) -> (r: Result<Transfer, AppError>)
    ensures
        r == old(ctx).spec_deposit(amount),
        *final(ctx) == old(ctx).spec_after(amount),
        r is Err ==> *final(ctx) == *old(ctx),
        r is Ok ==> final(ctx).will == old(ctx).will.spec_deposited(old(ctx).now),
        old(ctx).will.wf() ==> final(ctx).will.wf(),
{
    ctx.validate(amount)?;
    let t = Transfer::fungible(ctx.mint, ctx.will.testator, ctx.will.vault, amount);
    ctx.will.status = WillStatus::Active;
    ctx.will.last_heartbeat = ctx.now;
    Ok(t)
}

} // verus!
