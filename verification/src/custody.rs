use crate::constants::NFT_AMOUNT;
use crate::error::AppError;
use crate::identity::Identity;
use vstd::prelude::*;

verus! {

/// The kinds of asset a vault can hold.
#[derive(Clone, Copy, Debug, PartialEq, Eq)]
pub enum Asset {
    /// The ledger's native currency.
    Native,
    /// A fungible token, named by its mint.
    Fungible { mint: Identity },
    /// A unique asset, named by its mint. It moves whole: the amount is one.
    Unique { mint: Identity },
}

/// What the guards read of a token mint.
#[derive(Clone, Copy, Debug, PartialEq, Eq)]
pub struct Mint {
    /// The address of the mint, which names the token.
    pub key: Identity,
    /// Units in existence.
    pub supply: u64,
    /// Decimal places of one unit.
    pub decimals: u8,
}

impl Mint {
    /// The check that a mint is that of a unique asset: its supply is exactly
    /// one, and it has no decimals. The supply is looked at first.
    pub open spec fn spec_check_unique(&self) -> Result<(), AppError> {
        if self.supply != 1 {
            Err(AppError::InvalidNftSupply)
        } else if self.decimals != 0 {
            Err(AppError::InvalidNftDecimals)
        } else {
            Ok(())
        }
    }

    /// Checks that this is the mint of a unique asset.
    pub fn check_unique(&self) -> (r: Result<(), AppError>)
        ensures
            r == self.spec_check_unique(),
            r is Ok <==> self.supply == 1 && self.decimals == 0,
    {
        if self.supply != 1 {
            Err(AppError::InvalidNftSupply)
        } else if self.decimals != 0 {
            Err(AppError::InvalidNftDecimals)
        } else {
            Ok(())
        }
    }
}

/// One movement of an asset, decided by an operation and carried out by the
/// host. `from` and `to` are the owners of the balances that are debited and
/// credited.
#[derive(Clone, Copy, Debug, PartialEq, Eq)]
pub struct Transfer {
    pub asset: Asset,
    pub from: Identity,
    pub to: Identity,
    pub amount: u64,
}

/// What a claim pays out: the fee, where one is due, and the payment to the
/// beneficiary. The fee moves first.
#[derive(Clone, Copy, Debug, PartialEq, Eq)]
pub struct Disbursement {
    pub fee: Option<Transfer>,
    pub payout: Transfer,
}

impl Transfer {
    /// A movement of native currency.
    pub fn native(from: Identity, to: Identity, amount: u64) -> (t: Transfer)
        ensures
            t == (Transfer { asset: Asset::Native, from, to, amount }),
    {
        Transfer { asset: Asset::Native, from, to, amount }
    }

    /// A movement of a fungible token.
    pub fn fungible(mint: Identity, from: Identity, to: Identity, amount: u64) -> (t: Transfer)
        ensures
            t == (Transfer { asset: Asset::Fungible { mint }, from, to, amount }),
    {
        Transfer { asset: Asset::Fungible { mint }, from, to, amount }
    }

    /// The movement of a unique asset.
    pub fn unique(mint: Identity, from: Identity, to: Identity) -> (t: Transfer)
        ensures
            t == (Transfer { asset: Asset::Unique { mint }, from, to, amount: NFT_AMOUNT as u64 }),
            t.amount == 1,
    {
        Transfer { asset: Asset::Unique { mint }, from, to, amount: NFT_AMOUNT as u64 }
    }
}

/// The fee transfer of a claim: present exactly when the fee is positive.
pub open spec fn spec_fee_transfer(asset: Asset, from: Identity, to: Identity, fee: u64) -> Option<
    Transfer,
> {
    if fee > 0 {
        Some(Transfer { asset, from, to, amount: fee })
    } else {
        None
    }
}

/// The fee transfer of a claim: none where the fee is zero.
pub fn fee_transfer(asset: Asset, from: Identity, to: Identity, fee: u64) -> (t: Option<Transfer>)
    ensures
        t == spec_fee_transfer(asset, from, to, fee),
{
    if fee > 0 {
        Some(Transfer { asset, from, to, amount: fee })
    } else {
        None
    }
}

} // verus!
