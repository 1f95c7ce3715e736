use crate::constants::BPS_DENOMINATOR;
use crate::error::AppError;
use vstd::prelude::*;

verus! {

/// The proportional fee on a balance: `balance * fee_bps / 10000`, rounded
/// down.
pub open spec fn spec_proportional_fee(balance: u64, fee_bps: u16) -> int {
    (balance * fee_bps) / (BPS_DENOMINATOR as int)
}

/// What is left of a balance after the proportional fee, never below zero.
pub open spec fn spec_net(balance: u64, fee_bps: u16) -> int {
    if spec_proportional_fee(balance, fee_bps) >= balance {
        0
    } else {
        balance - spec_proportional_fee(balance, fee_bps)
    }
}

/// What can leave a vault that must keep `reserve`: `amount - reserve`, never
/// below zero.
pub open spec fn spec_transferable(amount: int, reserve: u64) -> int {
    if amount <= reserve {
        0
    } else {
        amount - reserve
    }
}

/// The figures of a claim: the fee, the balance net of the fee, and the part
/// of the net that is paid out.
#[derive(Clone, Copy, Debug, PartialEq, Eq, Structural)]
pub struct Settlement {
    pub fee: u64,
    pub net: u64,
    pub transferable: u64,
}

/// The product of a balance and a rate in basis points fits 128 bits.
proof fn lemma_product_bound(balance: u64, fee_bps: u16)
    ensures
        0 <= balance * fee_bps <= 0xffff_ffff_ffff_ffff * 0xffff,
{
    assert(0 <= balance * fee_bps <= 0xffff_ffff_ffff_ffff * 0xffff) by (nonlinear_arith)
        requires
            0 <= balance <= 0xffff_ffff_ffff_ffff,
            0 <= fee_bps <= 0xffff,
    ;
}

/// With a rate of at most 10000 basis points the fee never exceeds the
/// balance, and fee and net add up to the balance.
pub proof fn lemma_fee_within_balance(balance: u64, fee_bps: u16)
    requires
        fee_bps <= BPS_DENOMINATOR,
    ensures
        0 <= spec_proportional_fee(balance, fee_bps) <= balance,
        spec_proportional_fee(balance, fee_bps) + spec_net(balance, fee_bps) == balance,
{
    assert(0 <= balance * fee_bps <= balance * 10000) by (nonlinear_arith)
        requires
            0 <= balance,
            0 <= fee_bps <= 10000,
    ;
}

/// A rate of zero takes nothing; a rate of 10000 basis points takes all.
pub proof fn lemma_fee_extremes(balance: u64)
    ensures
        spec_proportional_fee(balance, 0) == 0,
        spec_proportional_fee(balance, 10000) == balance,
{
    assert(balance * 0 == 0);
    assert((balance * 10000) / 10000 == balance) by (nonlinear_arith);
}

/// The proportional fee on `balance` at `fee_bps` basis points. The product
/// is taken in 128 bits, so it cannot overflow; the quotient is rounded down.
pub fn proportional_fee(balance: u64, fee_bps: u16) -> (fee: u128)
    ensures
        fee == spec_proportional_fee(balance, fee_bps),
{
    proof {
        lemma_product_bound(balance, fee_bps);
    }
    let product: u128 = (balance as u128) * (fee_bps as u128);
    product / (BPS_DENOMINATOR as u128)
}

/// What is left of `balance` after the proportional fee; zero where the fee
/// reaches or exceeds the balance.
pub fn net_after_fee(balance: u64, fee_bps: u16) -> (net: u64)
    ensures
        net == spec_net(balance, fee_bps),
{
    let fee: u128 = proportional_fee(balance, fee_bps);
    if fee >= balance as u128 {
        0
    } else {
        balance - (fee as u64)
    }
}

/// What can leave a vault that holds `amount` and must keep `reserve`.
pub fn transferable_after_reserve(amount: u64, reserve: u64) -> (transferable: u64)
    ensures
        transferable == spec_transferable(amount as int, reserve),
{
    if amount <= reserve {
        0
    } else {
        amount - reserve
    }
}

/// The figures of a native-currency claim on a vault that holds `balance`
/// and must keep `reserve`, where something is left to pay out.
pub open spec fn spec_settle_native(balance: u64, fee_bps: u16, reserve: u64) -> Result<
    Settlement,
    AppError,
> {
    if spec_transferable(spec_net(balance, fee_bps), reserve) > 0 {
        Ok(
            Settlement {
                fee: spec_proportional_fee(balance, fee_bps) as u64,
                net: spec_net(balance, fee_bps) as u64,
                transferable: spec_transferable(spec_net(balance, fee_bps), reserve) as u64,
            },
        )
    } else {
        Err(AppError::NoClaimableAmount)
    }
}

/// Settles a native-currency claim: fee first, the reserve stays, the rest
/// is paid out. Refused with `NoClaimableAmount` where nothing is left to pay
/// out.
pub fn settle_native(balance: u64, fee_bps: u16, reserve: u64) -> (r: Result<Settlement, AppError>)
    ensures
        r == spec_settle_native(balance, fee_bps, reserve),
        r matches Ok(s) ==> {
            &&& s.fee == spec_proportional_fee(balance, fee_bps)
            &&& s.fee + s.net == balance
            &&& s.transferable + reserve == s.net
            &&& s.transferable > 0
        },
        r is Ok <==> spec_net(balance, fee_bps) > reserve,
{
    let fee: u128 = proportional_fee(balance, fee_bps);
    let net: u64 = net_after_fee(balance, fee_bps);
    let transferable: u64 = transferable_after_reserve(net, reserve);
    if transferable > 0 {
        Ok(Settlement { fee: fee as u64, net, transferable })
    } else {
        Err(AppError::NoClaimableAmount)
    }
}

/// The figures of a fungible-token claim on a vault balance of `total`: no
/// reserve is kept, so all of the net is paid out.
pub open spec fn spec_settle_token(total: u64, fee_bps: u16) -> Result<Settlement, AppError> {
    if spec_proportional_fee(total, fee_bps) > total {
        Err(AppError::InsuffcientBalanceForFees)
    } else {
        Ok(
            Settlement {
                fee: spec_proportional_fee(total, fee_bps) as u64,
                net: spec_net(total, fee_bps) as u64,
                transferable: spec_net(total, fee_bps) as u64,
            },
        )
    }
}

/// Settles a fungible-token claim. Refused with `InsuffcientBalanceForFees`
/// where the fee exceeds the balance, which a rate above 10000 basis points
/// can bring about.
pub fn settle_token(total: u64, fee_bps: u16) -> (r: Result<Settlement, AppError>)
    ensures
        r == spec_settle_token(total, fee_bps),
        r matches Ok(s) ==> s.fee + s.transferable == total && s.net == s.transferable,
        fee_bps <= BPS_DENOMINATOR ==> r is Ok,
{
    proof {
        if fee_bps <= BPS_DENOMINATOR {
            lemma_fee_within_balance(total, fee_bps);
        }
    }
    let fee: u128 = proportional_fee(total, fee_bps);
    if fee > total as u128 {
        Err(AppError::InsuffcientBalanceForFees)
    } else {
        let net: u64 = total - (fee as u64);
        Ok(Settlement { fee: fee as u64, net, transferable: net })
    }
}

/// What the testator can take back from a vault that holds `balance` and
/// must keep `reserve`.
pub open spec fn spec_withdrawable(balance: u64, reserve: u64) -> Result<u64, AppError> {
    if balance > reserve {
        Ok((balance - reserve) as u64)
    } else {
        Err(AppError::NoWithdrawableAmount)
    }
}

/// The amount of a withdrawal. Refused with `NoWithdrawableAmount` where the
/// vault holds no more than the reserve.
pub fn withdrawable(balance: u64, reserve: u64) -> (r: Result<u64, AppError>)
    ensures
        r == spec_withdrawable(balance, reserve),
{
    let amount: u64 = transferable_after_reserve(balance, reserve);
    if amount > 0 {
        Ok(amount)
    } else {
        Err(AppError::NoWithdrawableAmount)
    }
}

/// A native-currency claim on a vault that holds no more than the reserve
/// pays nothing, whatever the rate.
pub proof fn lemma_no_claim_at_or_below_reserve(balance: u64, fee_bps: u16, reserve: u64)
    requires
        balance <= reserve,
    ensures
        spec_settle_native(balance, fee_bps, reserve) == Err::<Settlement, AppError>(
            AppError::NoClaimableAmount,
        ),
{
    lemma_product_bound(balance, fee_bps);
}

/// A settled native-currency claim leaves exactly the reserve in the vault.
pub proof fn lemma_settlement_leaves_reserve(balance: u64, fee_bps: u16, reserve: u64)
    ensures
        spec_settle_native(balance, fee_bps, reserve) matches Ok(s) ==> balance - s.fee
            - s.transferable == reserve,
{
    lemma_product_bound(balance, fee_bps);
}

} // verus!
