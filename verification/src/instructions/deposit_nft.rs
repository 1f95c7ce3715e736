use crate::custody::{Asset, Mint, Transfer};
use crate::error::AppError;
use crate::identity::Identity;
use crate::state::{Will, WillEvent, WillStatus};
use vstd::prelude::*;

verus! {

/// What a unique-asset deposit reads: the caller, the will, the asset's mint
/// and how many of it the caller holds, and the current time. The holding is
/// the one before the deposit; only `will` is written.
#[derive(Clone, Copy, Debug, PartialEq, Eq)]
pub struct DepositNft {
    /// The caller.
    pub testator: Identity,
    pub will: Will,
    pub nft_mint: Mint,
    /// Units of the asset the caller holds.
    pub testator_nft_amount: u64,
    /// The current time.
    pub now: i64,
}

impl DepositNft {
    /// The guards of a unique-asset deposit, in the order in which they are
    /// checked: the caller is the testator, the mint is that of a unique
    /// asset, the caller holds it, and the will is created or active.
    pub open spec fn spec_validate(&self) -> Result<(), AppError> {
        if self.testator != self.will.testator {
            Err(AppError::Unauthorized)
        } else {
            match self.nft_mint.spec_check_unique() {
                Err(e) => Err(e),
                Ok(_) => if self.testator_nft_amount != 1 {
                    Err(AppError::NftNotOwned)
                } else {
                    match self.will.status.spec_transition(WillEvent::Deposit) {
                        Err(e) => Err(e),
                        Ok(_) => Ok(()),
                    }
                },
            }
        }
    }

    /// The transfer a deposit makes, or the error with which it is refused.
    pub open spec fn spec_deposit(&self) -> Result<Transfer, AppError> {
        match self.spec_validate() {
            Err(e) => Err(e),
            Ok(_) => Ok(
                Transfer {
                    asset: Asset::Unique { mint: self.nft_mint.key },
                    from: self.will.testator,
                    to: self.will.vault,
                    amount: 1,
                },
            ),
        }
    }

    /// The context after the deposit: the will is active and its timer
    /// restarted where the deposit succeeds, and nothing changes where it is
    /// refused.
    pub open spec fn spec_after(&self) -> DepositNft {
        if self.spec_validate() is Ok {
            DepositNft { will: self.will.spec_deposited(self.now), ..*self }
        } else {
            *self
        }
    }

    /// Checks the guards of a unique-asset deposit.
    pub fn validate(&self) -> (r: Result<(), AppError>)
        ensures
            r == self.spec_validate(),
            r is Ok <==> {
                &&& self.testator == self.will.testator
                &&& self.nft_mint.supply == 1
                &&& self.nft_mint.decimals == 0
                &&& self.testator_nft_amount == 1
                &&& (self.will.status == WillStatus::Created || self.will.status
                    == WillStatus::Active)
            },
    {
        if self.testator != self.will.testator {
            return Err(AppError::Unauthorized);
        }
        self.nft_mint.check_unique()?;
        if self.testator_nft_amount != 1 {
            return Err(AppError::NftNotOwned);
        }
        match self.will.status.transition(WillEvent::Deposit) {
            Err(e) => Err(e),
            Ok(_) => Ok(()),
        }
    }
}

/// The testator deposits a unique asset into the vault of the will.
///
/// A deposit counts as proof of liveness: the will becomes `Active` if it was
/// `Created`, and its timer restarts at the current time. A refused deposit
/// leaves the context as it was.
pub fn handler(ctx: &mut DepositNft) -> (r: Result<Transfer, AppError>)
    ensures
        r == old(ctx).spec_deposit(),
        *final(ctx) == old(ctx).spec_after(),
        r is Err ==> *final(ctx) == *old(ctx),
        r is Ok ==> final(ctx).will == old(ctx).will.spec_deposited(old(ctx).now),
        old(ctx).will.wf() ==> final(ctx).will.wf(),
{
    ctx.validate()?;
    let t = Transfer::unique(ctx.nft_mint.key, ctx.will.testator, ctx.will.vault);
    ctx.will.status = WillStatus::Active;
    ctx.will.last_heartbeat = ctx.now;
    Ok(t)
}

} // verus!
