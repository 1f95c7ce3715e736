use crate::custody::{fee_transfer, spec_fee_transfer, Asset, Disbursement, Transfer};
use crate::error::AppError;
use crate::fees::{
    lemma_fee_within_balance, settle_token, spec_proportional_fee, spec_settle_token,
};
use crate::identity::Identity;
use crate::state::{Config, Will, WillEvent, WillStatus};
use vstd::prelude::*;

verus! {

/// What a fungible-token claim reads: the caller, the will, the token and
/// the vault's balance of it, and the configuration. The balance is the one
/// before the claim; the claim writes nothing.
#[derive(Clone, Copy, Debug, PartialEq, Eq)]
pub struct ClaimSplToken {
    /// The caller.
    pub beneficiary: Identity,
    pub will: Will,
    /// The mint of the token claimed.
    pub mint: Identity,
    /// Units of the token in the vault of the will.
    pub vault_token_amount: u64,
    pub config: Config,
}

impl ClaimSplToken {
    /// The guards on status, caller, holding and pause, in the order in which
    /// they are checked: the will is triggered, the caller is its
    /// beneficiary, the vault holds some of the token, and the system is not
    /// paused.
    pub open spec fn spec_guards(&self) -> Result<(), AppError> {
        match self.will.status.spec_transition(WillEvent::ClaimToken) {
            Err(e) => Err(e),
            Ok(_) => if self.beneficiary != self.will.beneficiary {
                Err(AppError::Unauthorized)
            } else if self.vault_token_amount == 0 {
                Err(AppError::NoAssetsToClaim)
            } else if self.config.paused {
                Err(AppError::ProgramPaused)
            } else {
                Ok(())
            },
        }
    }

    /// All the guards of a fungible-token claim: those on status, caller,
    /// holding and pause, and last that the vault's balance covers the fee.
    pub open spec fn spec_validate(&self) -> Result<(), AppError> {
        match self.spec_guards() {
            Err(e) => Err(e),
            Ok(_) => match spec_settle_token(self.vault_token_amount, self.config.token_fee_bps) {
                Err(e) => Err(e),
                Ok(_) => Ok(()),
            },
        }
    }

    /// What the claim pays out, or the error with which it is refused.
    pub open spec fn spec_claim(&self) -> Result<Disbursement, AppError> {
        match self.spec_guards() {
            Err(e) => Err(e),
            Ok(_) => match spec_settle_token(self.vault_token_amount, self.config.token_fee_bps) {
                Err(e) => Err(e),
                Ok(s) => Ok(
                    Disbursement {
                        fee: spec_fee_transfer(
                            Asset::Fungible { mint: self.mint },
                            self.will.vault,
                            self.config.fee_vault,
                            s.fee,
                        ),
                        payout: Transfer {
                            asset: Asset::Fungible { mint: self.mint },
                            from: self.will.vault,
                            to: self.will.beneficiary,
                            amount: s.transferable,
                        },
                    },
                ),
            },
        }
    }

    /// Checks the guards of a fungible-token claim. It is `Ok` exactly
    /// where the claim succeeds, and refuses with the error of the claim.
    pub fn validate(&self) -> (r: Result<(), AppError>)
        ensures
            r == self.spec_validate(),
            r is Ok <==> {
                &&& self.will.status == WillStatus::Triggered
                &&& self.beneficiary == self.will.beneficiary
                &&& self.vault_token_amount > 0
                &&& !self.config.paused
                &&& spec_proportional_fee(self.vault_token_amount, self.config.token_fee_bps)
                    <= self.vault_token_amount
            },
            r is Ok <==> self.spec_claim() is Ok,
            r matches Err(e) ==> self.spec_claim() == Err::<Disbursement, AppError>(e),
    {
        match self.will.status.transition(WillEvent::ClaimToken) {
            Err(e) => {
                return Err(e);
            },
            Ok(_) => {},
        }
        if self.beneficiary != self.will.beneficiary {
            return Err(AppError::Unauthorized);
        }
        if self.vault_token_amount == 0 {
            return Err(AppError::NoAssetsToClaim);
        }
        if self.config.paused {
            return Err(AppError::ProgramPaused);
        }
        match settle_token(self.vault_token_amount, self.config.token_fee_bps) {
            Err(e) => Err(e),
            Ok(_) => Ok(()),
        }
    }
}

/// The beneficiary claims one fungible token of a triggered will.
///
/// The fee is `vault_token_amount * token_fee_bps / 10000`, rounded down; all
/// the rest goes to the beneficiary, so the two transfers empty the vault of
/// this token. The will stays `Triggered`, so that the other assets can still
/// be claimed.
pub fn handler(ctx: &ClaimSplToken) -> (r: Result<Disbursement, AppError>)
    ensures
        r == ctx.spec_claim(),
        r is Ok <==> ctx.spec_validate() is Ok,
        r matches Ok(d) ==> {
            &&& d.payout.to == ctx.will.beneficiary
            &&& d.payout.from == ctx.will.vault
            &&& (match d.fee {
                Some(f) => f.amount as int,
                None => 0,
            }) + d.payout.amount == ctx.vault_token_amount
        },
        ctx.spec_guards() is Ok && ctx.config.token_fee_bps <= 10000 ==> r is Ok,
{
    proof {
        if ctx.config.token_fee_bps <= 10000 {
            lemma_fee_within_balance(ctx.vault_token_amount, ctx.config.token_fee_bps);
        }
    }
    ctx.validate()?;
    let s = settle_token(ctx.vault_token_amount, ctx.config.token_fee_bps)?;
    let asset = Asset::Fungible { mint: ctx.mint };
    let fee = fee_transfer(asset, ctx.will.vault, ctx.config.fee_vault, s.fee);
    let payout = Transfer::fungible(ctx.mint, ctx.will.vault, ctx.will.beneficiary, s.transferable);
    Ok(Disbursement { fee, payout })
}

} // verus!
