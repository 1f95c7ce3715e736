//! A dead-man's-switch custody protocol.
//!
//! A testator locks assets into the vault of a will in favour of one
//! beneficiary and proves liveness by heartbeats. When the heartbeats stop for
//! longer than the heartbeat period plus a grace period, anyone may trigger
//! the will, and the beneficiary may claim the assets less a fee. Until the
//! will is triggered the testator may withdraw.
//!
//! Every operation is a function of a context, which holds what the host has
//! read (identities, balances, the clock), to the result and the transfers
//! the host is to carry out. An operation that is refused changes nothing.

pub mod constants;
pub mod custody;
pub mod error;
pub mod fees;
pub mod identity;
pub mod instructions;
pub mod lifecycle;
pub mod state;

use crate::custody::{Disbursement, Transfer};
use crate::error::AppError;
use crate::identity::Identity;
use crate::instructions::update_config::ConfigUpdate;
use crate::instructions::{
    ClaimSol, CreateWill, DepositSol, Initialize, SendHeartbeat, TriggerWill, UpdateConfig,
    WithdrawSol,
};
use crate::state::{Config, Will};
use vstd::prelude::*;

verus! {

/// Creates the configuration. See [`instructions::initialize::handler`].
pub fn initialize(
    ctx: &Initialize,
    token_fee_bps: u16,
    nft_fee_lamports: u64,
    min_heartbeat_period: u32,
    max_heartbeat_period: u32,
    min_heartbeat_interval: u32,
) -> (r: Result<Config, AppError>)
    ensures
        r == ctx.spec_initialize(
            token_fee_bps,
            nft_fee_lamports,
            min_heartbeat_period,
            max_heartbeat_period,
            min_heartbeat_interval,
        ),
        r matches Ok(config) ==> config.wf() && !config.paused,
{
    instructions::initialize::handler(
        ctx,
        token_fee_bps,
        nft_fee_lamports,
        min_heartbeat_period,
        max_heartbeat_period,
        min_heartbeat_interval,
    )
}

/// Creates a will. See [`instructions::create_will::handler`].
pub fn create_will(ctx: &CreateWill, beneficiary: Identity, heartbeat_period: u32) -> (r: Result<
    Will,
    AppError,
>)
    ensures
        r == ctx.spec_create(beneficiary, heartbeat_period),
        r is Ok <==> ctx.config.min_heartbeat_period <= heartbeat_period
            <= ctx.config.max_heartbeat_period && !ctx.config.paused,
        r matches Ok(will) ==> will.wf(),
{
    instructions::create_will::handler(ctx, beneficiary, heartbeat_period)
}

/// Deposits native currency. See [`instructions::deposit_sol::handler`].
pub fn deposit_sol(ctx: &mut DepositSol, amount: u64) -> (r: Result<Transfer, AppError>)
    ensures
        r == old(ctx).spec_deposit(amount),
        *final(ctx) == old(ctx).spec_after(amount),
        old(ctx).will.wf() ==> final(ctx).will.wf(),
{
    instructions::deposit_sol::handler(ctx, amount)
}

/// Records a heartbeat. See [`instructions::send_heartbeat::handler`].
pub fn send_heartbeat(ctx: &mut SendHeartbeat) -> (r: Result<(), AppError>)
    ensures
        r == old(ctx).spec_validate(),
        *final(ctx) == old(ctx).spec_after(),
        old(ctx).will.wf() ==> final(ctx).will.wf(),
{
    instructions::send_heartbeat::handler(ctx)
}

/// Triggers an expired will. See [`instructions::trigger_will::handler`].
pub fn trigger_will(ctx: &mut TriggerWill) -> (r: Result<(), AppError>)
    ensures
        r == old(ctx).spec_validate(),
        *final(ctx) == old(ctx).spec_after(),
        old(ctx).will.wf() ==> final(ctx).will.wf(),
{
    instructions::trigger_will::handler(ctx)
}

/// Claims the native currency. See [`instructions::claim_sol::handler`].
pub fn claim_sol(ctx: &mut ClaimSol) -> (r: Result<Disbursement, AppError>)
    ensures
        r == old(ctx).spec_claim(),
        *final(ctx) == old(ctx).spec_after(),
        old(ctx).will.wf() ==> final(ctx).will.wf(),
{
    instructions::claim_sol::handler(ctx)
}

/// Withdraws the native currency. See [`instructions::withdraw_sol::handler`].
pub fn withdraw_sol(ctx: &mut WithdrawSol) -> (r: Result<Transfer, AppError>)
    ensures
        r == old(ctx).spec_withdraw(),
        *final(ctx) == old(ctx).spec_after(),
        old(ctx).will.wf() ==> final(ctx).will.wf(),
{
    instructions::withdraw_sol::handler(ctx)
}

/// Changes the configuration. See [`instructions::update_config::handler`].
pub fn update_config(
    ctx: &mut UpdateConfig,
    token_fee_bps: Option<u16>,
    nft_fee_lamports: Option<u64>,
    min_heartbeat_period: Option<u32>,
    max_heartbeat_period: Option<u32>,
    min_heartbeat_interval: Option<u32>,
    paused: Option<bool>,
) -> (r: Result<(), AppError>)
    ensures
        ({
            let update = ConfigUpdate {
                token_fee_bps,
                nft_fee_lamports,
                min_heartbeat_period,
                max_heartbeat_period,
                min_heartbeat_interval,
                paused,
            };
            &&& r is Ok <==> old(ctx).spec_error(update) is None
            &&& r matches Err(e) ==> old(ctx).spec_error(update) == Some(e)
            &&& *final(ctx) == old(ctx).spec_after(update)
        }),
        old(ctx).config.wf() ==> final(ctx).config.wf(),
{
    instructions::update_config::handler(
        ctx,
        token_fee_bps,
        nft_fee_lamports,
        min_heartbeat_period,
        max_heartbeat_period,
        min_heartbeat_interval,
        paused,
    )
}

} // verus!
