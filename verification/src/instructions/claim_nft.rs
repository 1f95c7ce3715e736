use crate::custody::{fee_transfer, spec_fee_transfer, Asset, Disbursement, Mint, Transfer};
use crate::error::AppError;
use crate::identity::Identity;
use crate::state::{Config, Will, WillEvent, WillStatus};
use vstd::prelude::*;

verus! {

/// What a unique-asset claim reads: the caller and the native currency the
/// caller holds, the will, the asset's mint and how many of it the vault
/// holds, the configuration, and the reserve the caller must keep. The
/// balances are those before the claim; the claim writes nothing.
#[derive(Clone, Copy, Debug, PartialEq, Eq)]
pub struct ClaimNft {
    /// The caller.
    pub beneficiary: Identity,
    /// Native currency the caller holds.
    pub beneficiary_lamports: u64,
    pub will: Will,
    pub nft_mint: Mint,
    /// Units of the asset in the vault of the will.
    pub vault_nft_amount: u64,
    pub config: Config,
    /// What the caller's own balance must keep after paying the fee.
    pub reserve: u64,
}

impl ClaimNft {
    /// Whether the caller can pay the flat fee and keep the reserve. A fee of
    /// zero asks for nothing.
    pub open spec fn spec_fee_covered(&self) -> bool {
        self.config.nft_fee_lamports > 0 ==> self.beneficiary_lamports
            >= self.config.nft_fee_lamports + self.reserve
    }

    /// The guards of a unique-asset claim, in the order in which they are
    /// checked: the will is triggered, the caller is its beneficiary, the
    /// mint is that of a unique asset, the vault holds it, the system is not
    /// paused, and the caller can pay the flat fee.
    pub open spec fn spec_validate(&self) -> Result<(), AppError> {
        match self.will.status.spec_transition(WillEvent::ClaimToken) {
            Err(e) => Err(e),
            Ok(_) => if self.beneficiary != self.will.beneficiary {
                Err(AppError::Unauthorized)
            } else {
                match self.nft_mint.spec_check_unique() {
                    Err(e) => Err(e),
                    Ok(_) => if self.vault_nft_amount != 1 {
                        Err(AppError::NoAssetsToClaim)
                    } else if self.config.paused {
                        Err(AppError::ProgramPaused)
                    } else if !self.spec_fee_covered() {
                        Err(AppError::InsuffcientBalanceForFees)
                    } else {
                        Ok(())
                    },
                }
            },
        }
    }

    /// What the claim pays out, or the error with which it is refused. The
    /// fee is flat and comes out of the caller's own balance: the asset cannot
    /// be divided.
    pub open spec fn spec_claim(&self) -> Result<Disbursement, AppError> {
        match self.spec_validate() {
            Err(e) => Err(e),
            Ok(_) => Ok(
                Disbursement {
                    fee: spec_fee_transfer(
                        Asset::Native,
                        self.beneficiary,
                        self.config.fee_vault,
                        self.config.nft_fee_lamports,
                    ),
                    payout: Transfer {
                        asset: Asset::Unique { mint: self.nft_mint.key },
                        from: self.will.vault,
                        to: self.will.beneficiary,
                        amount: 1,
                    },
                },
            ),
        }
    }

    /// Checks the guards of a unique-asset claim.
    pub fn validate(&self) -> (r: Result<(), AppError>)
        ensures
            r == self.spec_validate(),
            r is Ok <==> {
                &&& self.will.status == WillStatus::Triggered
                &&& self.beneficiary == self.will.beneficiary
                &&& self.nft_mint.supply == 1
                &&& self.nft_mint.decimals == 0
                &&& self.vault_nft_amount == 1
                &&& !self.config.paused
                &&& self.spec_fee_covered()
            },
    {
        match self.will.status.transition(WillEvent::ClaimToken) {
            Err(e) => {
                return Err(e);
            },
            Ok(_) => {},
        }
        if self.beneficiary != self.will.beneficiary {
            return Err(AppError::Unauthorized);
        }
        self.nft_mint.check_unique()?;
        if self.vault_nft_amount != 1 {
            return Err(AppError::NoAssetsToClaim);
        }
        if self.config.paused {
            return Err(AppError::ProgramPaused);
        }
        let fee: u64 = self.config.nft_fee_lamports;
        if fee > 0 {
            let needed: u128 = fee as u128 + self.reserve as u128;
            if (self.beneficiary_lamports as u128) < needed {
                return Err(AppError::InsuffcientBalanceForFees);
            }
        }
        Ok(())
    }
}

/// The beneficiary claims one unique asset of a triggered will.
///
/// The flat fee `nft_fee_lamports`, where it is positive, goes from the
/// beneficiary's own balance to the fee vault; the asset goes from the vault
/// to the beneficiary. The will stays `Triggered`, so that the other assets
/// can still be claimed.
pub fn handler(ctx: &ClaimNft) -> (r: Result<Disbursement, AppError>)
    ensures
        r == ctx.spec_claim(),
        r matches Ok(d) ==> {
            &&& d.payout.amount == 1
            &&& d.payout.to == ctx.will.beneficiary
            &&& d.payout.from == ctx.will.vault
            &&& d.fee is Some <==> ctx.config.nft_fee_lamports > 0
        },
{
    ctx.validate()?;
    let fee = fee_transfer(
        Asset::Native,
        ctx.beneficiary,
        ctx.config.fee_vault,
        ctx.config.nft_fee_lamports,
    );
    let payout = Transfer::unique(ctx.nft_mint.key, ctx.will.vault, ctx.will.beneficiary);
    Ok(Disbursement { fee, payout })
}

} // verus!
