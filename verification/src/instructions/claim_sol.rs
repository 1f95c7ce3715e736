use crate::custody::{fee_transfer, spec_fee_transfer, Asset, Disbursement, Transfer};
use crate::error::AppError;
use crate::fees::{
    lemma_no_claim_at_or_below_reserve, settle_native, spec_net, spec_settle_native,
};
use crate::identity::Identity;
use crate::state::{Config, Will, WillEvent, WillStatus};
use vstd::prelude::*;

verus! {

/// What a native-currency claim reads: the caller, the will, the balance of
/// its vault, the configuration and the reserve the vault must keep. The
/// balance is the one before the claim; only `will` is written.
#[derive(Clone, Copy, Debug, PartialEq, Eq)]
pub struct ClaimSol {
    /// The caller.
    pub beneficiary: Identity,
    pub will: Will,
    /// Native currency in the vault of the will.
    pub vault_lamports: u64,
    pub config: Config,
    /// What the vault must keep to stay alive.
    pub reserve: u64,
}

impl ClaimSol {
    /// The guards on status, caller and pause, in the order in which they are
    /// checked: the will is triggered or already claimed, the caller is its
    /// beneficiary, and the system is not paused.
    pub open spec fn spec_guards(&self) -> Result<(), AppError> {
        match self.will.status.spec_transition(WillEvent::ClaimNative) {
            Err(e) => Err(e),
            Ok(_) => if self.beneficiary != self.will.beneficiary {
                Err(AppError::Unauthorized)
            } else if self.config.paused {
                Err(AppError::ProgramPaused)
            } else {
                Ok(())
            },
        }
    }

    /// All the guards of a native-currency claim: those on status, caller
    /// and pause, and last that something is left to pay out after fee and
    /// reserve.
    pub open spec fn spec_validate(&self) -> Result<(), AppError> {
        match self.spec_guards() {
            Err(e) => Err(e),
            Ok(_) => match spec_settle_native(
                self.vault_lamports,
                self.config.token_fee_bps,
                self.reserve,
            ) {
                Err(e) => Err(e),
                Ok(_) => Ok(()),
            },
        }
    }

    /// What the claim pays out, or the error with which it is refused.
    pub open spec fn spec_claim(&self) -> Result<Disbursement, AppError> {
        match self.spec_guards() {
            Err(e) => Err(e),
            Ok(_) => match spec_settle_native(
                self.vault_lamports,
                self.config.token_fee_bps,
                self.reserve,
            ) {
                Err(e) => Err(e),
                Ok(s) => Ok(
                    Disbursement {
                        fee: spec_fee_transfer(
                            Asset::Native,
                            self.will.vault,
                            self.config.fee_vault,
                            s.fee,
                        ),
                        payout: Transfer {
                            asset: Asset::Native,
                            from: self.will.vault,
                            to: self.will.beneficiary,
                            amount: s.transferable,
                        },
                    },
                ),
            },
        }
    }

    /// The context after the claim: the will is claimed where the claim
    /// succeeds, and nothing changes where it is refused.
    pub open spec fn spec_after(&self) -> ClaimSol {
        if self.spec_claim() is Ok {
            ClaimSol { will: self.will.spec_with_status(WillStatus::Claimed), ..*self }
        } else {
            *self
        }
    }

    /// Checks the guards of a native-currency claim. It is `Ok` exactly
    /// where the claim succeeds, and refuses with the error of the claim.
    pub fn validate(&self) -> (r: Result<(), AppError>)
        ensures
            r == self.spec_validate(),
            r is Ok <==> {
                &&& (self.will.status == WillStatus::Triggered || self.will.status
                    == WillStatus::Claimed)
                &&& self.beneficiary == self.will.beneficiary
                &&& !self.config.paused
                &&& spec_net(self.vault_lamports, self.config.token_fee_bps) > self.reserve
            },
            r is Ok ==> self.vault_lamports > self.reserve,
            r is Ok <==> self.spec_claim() is Ok,
            r matches Err(e) ==> self.spec_claim() == Err::<Disbursement, AppError>(e),
    {
        match self.will.status.transition(WillEvent::ClaimNative) {
            Err(e) => {
                return Err(e);
            },
            Ok(_) => {},
        }
        if self.beneficiary != self.will.beneficiary {
            return Err(AppError::Unauthorized);
        }
        if self.config.paused {
            return Err(AppError::ProgramPaused);
        }
        match settle_native(self.vault_lamports, self.config.token_fee_bps, self.reserve) {
            Err(e) => Err(e),
            Ok(_) => Ok(()),
        }
    }
}

/// A claim on a vault that holds no more than the reserve is refused: with
/// `NoClaimableAmount` where the guards hold, with the guard's error
/// otherwise.
pub proof fn lemma_no_claim_below_reserve(ctx: ClaimSol)
    requires
        ctx.vault_lamports <= ctx.reserve,
    ensures
        ctx.spec_claim() is Err,
        ctx.spec_validate() is Err,
        ctx.spec_guards() is Ok ==> ctx.spec_claim() == Err::<Disbursement, AppError>(
            AppError::NoClaimableAmount,
        ),
{
    lemma_no_claim_at_or_below_reserve(ctx.vault_lamports, ctx.config.token_fee_bps, ctx.reserve);
}

/// A will that has been claimed admits a further native-currency claim: the
/// guards on status, caller and pause still hold for the beneficiary, who can
/// claim again what has reached the vault since, and the will stays
/// `Claimed`.
pub proof fn lemma_claim_again(first: ClaimSol, second: ClaimSol)
    requires
        first.spec_claim() is Ok,
        second.will == first.spec_after().will,
        second.beneficiary == first.beneficiary,
        !second.config.paused,
    ensures
        second.spec_guards() is Ok,
        second.spec_after().will == second.will,
{
}

/// The beneficiary claims the native currency of a triggered will.
///
/// The fee is `vault_lamports * token_fee_bps / 10000`, rounded down; the
/// vault keeps the reserve; the rest goes to the beneficiary and the will
/// becomes `Claimed`. Where nothing is left for the beneficiary the claim is
/// refused with `NoClaimableAmount`. A refused claim leaves the context as it
/// was.
pub fn handler(ctx: &mut ClaimSol) -> (r: Result<Disbursement, AppError>)
    ensures
        r == old(ctx).spec_claim(),
        r is Ok <==> old(ctx).spec_validate() is Ok,
        *final(ctx) == old(ctx).spec_after(),
        r is Err ==> *final(ctx) == *old(ctx),
        r matches Ok(d) ==> {
            &&& final(ctx).will.status == WillStatus::Claimed
            &&& d.payout.amount > 0
            &&& d.payout.to == old(ctx).will.beneficiary
            &&& d.payout.from == old(ctx).will.vault
            &&& old(ctx).vault_lamports - (match d.fee {
                Some(f) => f.amount as int,
                None => 0,
            }) - d.payout.amount == old(ctx).reserve
        },
        old(ctx).spec_guards() is Ok && old(ctx).vault_lamports <= old(ctx).reserve ==> r
            == Err::<Disbursement, AppError>(AppError::NoClaimableAmount),
        old(ctx).will.wf() ==> final(ctx).will.wf(),
{
    proof {
        if ctx.vault_lamports <= ctx.reserve {
            lemma_no_claim_below_reserve(*ctx);
        }
    }
    ctx.validate()?;
    let s = settle_native(ctx.vault_lamports, ctx.config.token_fee_bps, ctx.reserve)?;
    let fee = fee_transfer(Asset::Native, ctx.will.vault, ctx.config.fee_vault, s.fee);
    let payout = Transfer::native(ctx.will.vault, ctx.will.beneficiary, s.transferable);
    ctx.will.status = WillStatus::Claimed;
    Ok(Disbursement { fee, payout })
}

} // verus!
