use wasiat_online::custody::{Asset, Disbursement, Mint, Transfer};
use wasiat_online::error::AppError;
use wasiat_online::identity::Identity;
use wasiat_online::instructions::{
    claim_nft, claim_spl_token, deposit_nft, deposit_spl_token, ClaimNft, ClaimSol,
    ClaimSplToken, CreateWill, DepositNft, DepositSol, DepositSplToken, SendHeartbeat,
    TriggerWill, WithdrawSol,
};
use wasiat_online::state::{Config, Will, WillEvent, WillStatus};
use wasiat_online::{
    claim_sol, create_will, deposit_sol, send_heartbeat, trigger_will, withdraw_sol,
};

const TESTATOR: u8 = 1;
const BENEFICIARY: u8 = 2;
const VAULT: u8 = 3;
const FEE_VAULT: u8 = 9;
const STRANGER: u8 = 77;
const DAY: u32 = 86_400;
const RESERVE: u64 = 890_880;
const T0: i64 = 1_700_000_000;

fn who(n: u8) -> Identity {
    Identity::new([n; 32])
}

fn config() -> Config {
    Config {
        authority: who(100),
        fee_vault: who(FEE_VAULT),
        token_fee_bps: 250,
        nft_fee_lamports: 1_000_000,
        min_heartbeat_period: DAY,
        max_heartbeat_period: 365 * DAY,
        min_heartbeat_interval: 60,
        paused: false,
        bump: 255,
    }
}

fn paused() -> Config {
    Config { paused: true, ..config() }
}

fn will_in(status: WillStatus) -> Will {
    let triggered = status == WillStatus::Triggered || status == WillStatus::Claimed;
    Will {
        testator: who(TESTATOR),
        beneficiary: who(BENEFICIARY),
        vault: who(VAULT),
        heartbeat_period: DAY,
        status,
        created_at: T0,
        last_heartbeat: T0,
        trigger_at: if triggered { Some(T0 + DAY as i64 + 300) } else { None },
        bump: 254,
        vault_bump: 253,
    }
}

fn nft() -> Mint {
    Mint { key: who(50), supply: 1, decimals: 0 }
}

const ALL_STATUSES: [WillStatus; 5] = [
    WillStatus::Created,
    WillStatus::Active,
    WillStatus::Triggered,
    WillStatus::Claimed,
    WillStatus::Withdrawn,
];

// ---- the transition table

#[test]
fn transition_table_is_as_drawn() {
    let bad = Err(AppError::InvalidWillStatus);
    assert_eq!(WillStatus::Created.transition(WillEvent::Deposit), Ok(WillStatus::Active));
    assert_eq!(WillStatus::Active.transition(WillEvent::Deposit), Ok(WillStatus::Active));
    assert_eq!(WillStatus::Triggered.transition(WillEvent::Deposit), bad);
    assert_eq!(WillStatus::Claimed.transition(WillEvent::Deposit), bad);
    assert_eq!(WillStatus::Withdrawn.transition(WillEvent::Deposit), bad);

    assert_eq!(WillStatus::Created.transition(WillEvent::Heartbeat), bad);
    assert_eq!(WillStatus::Active.transition(WillEvent::Heartbeat), Ok(WillStatus::Active));
    assert_eq!(WillStatus::Triggered.transition(WillEvent::Heartbeat), bad);
    assert_eq!(WillStatus::Claimed.transition(WillEvent::Heartbeat), bad);
    assert_eq!(WillStatus::Withdrawn.transition(WillEvent::Heartbeat), bad);

    assert_eq!(WillStatus::Created.transition(WillEvent::Trigger), bad);
    assert_eq!(WillStatus::Active.transition(WillEvent::Trigger), Ok(WillStatus::Triggered));
    assert_eq!(WillStatus::Triggered.transition(WillEvent::Trigger), bad);
    assert_eq!(WillStatus::Claimed.transition(WillEvent::Trigger), bad);
    assert_eq!(WillStatus::Withdrawn.transition(WillEvent::Trigger), bad);

    assert_eq!(WillStatus::Created.transition(WillEvent::ClaimNative), bad);
    assert_eq!(WillStatus::Active.transition(WillEvent::ClaimNative), bad);
    assert_eq!(WillStatus::Triggered.transition(WillEvent::ClaimNative), Ok(WillStatus::Claimed));
    assert_eq!(WillStatus::Claimed.transition(WillEvent::ClaimNative), Ok(WillStatus::Claimed));
    assert_eq!(WillStatus::Withdrawn.transition(WillEvent::ClaimNative), bad);

    assert_eq!(WillStatus::Created.transition(WillEvent::ClaimToken), bad);
    assert_eq!(WillStatus::Active.transition(WillEvent::ClaimToken), bad);
    assert_eq!(WillStatus::Triggered.transition(WillEvent::ClaimToken), Ok(WillStatus::Triggered));
    assert_eq!(WillStatus::Claimed.transition(WillEvent::ClaimToken), bad);
    assert_eq!(WillStatus::Withdrawn.transition(WillEvent::ClaimToken), bad);

    assert_eq!(WillStatus::Created.transition(WillEvent::Withdraw), Ok(WillStatus::Withdrawn));
    assert_eq!(WillStatus::Active.transition(WillEvent::Withdraw), Ok(WillStatus::Withdrawn));
    assert_eq!(WillStatus::Triggered.transition(WillEvent::Withdraw), Err(AppError::CannotWithdrawAfterTriggered));
    assert_eq!(WillStatus::Claimed.transition(WillEvent::Withdraw), Err(AppError::CannotWithdrawAfterTriggered));
    assert_eq!(WillStatus::Withdrawn.transition(WillEvent::Withdraw), Err(AppError::AlreadyWithdrawn));
}

#[test]
fn timing_helpers_at_their_boundaries() {
    let will = will_in(WillStatus::Active);
    assert!(!will.is_expired(T0 + DAY as i64 - 1));
    assert!(will.is_expired(T0 + DAY as i64));
    assert!(!will.grace_elapsed(T0 + DAY as i64 + 299));
    assert!(will.grace_elapsed(T0 + DAY as i64 + 300));
    assert!(!will.interval_elapsed(T0 + 59, 60));
    assert!(will.interval_elapsed(T0 + 60, 60));
    assert!(will.interval_elapsed(T0, 0));
    assert!(!will.interval_elapsed(T0 - 1, 0));
}

#[test]
fn timing_helpers_do_not_overflow() {
    let late = Will { last_heartbeat: i64::MAX, heartbeat_period: u32::MAX, ..will_in(WillStatus::Active) };
    assert!(!late.is_expired(i64::MAX));
    assert!(!late.grace_elapsed(i64::MAX));
    assert!(!late.interval_elapsed(i64::MIN, u32::MAX));
    let early = Will { last_heartbeat: i64::MIN, heartbeat_period: 0, ..will_in(WillStatus::Active) };
    assert!(early.is_expired(i64::MIN));
    assert!(early.interval_elapsed(i64::MAX, u32::MAX));
    assert!(!early.grace_elapsed(i64::MIN + 299));
    assert!(early.grace_elapsed(i64::MIN + 300));
}

// ---- creation

fn create_ctx(config: Config) -> CreateWill {
    CreateWill { testator: who(TESTATOR), config, vault: who(VAULT), bump: 254, vault_bump: 253, now: T0 }
}

#[test]
fn create_will_refuses_a_period_below_the_minimum() {
    let ctx = create_ctx(config());
    for period in [0, 1, DAY / 2, DAY - 1] {
        assert_eq!(
            create_will(&ctx, who(BENEFICIARY), period),
            Err(AppError::HeartbeatPeriodTooShort)
        );
    }
    // the period is looked at before the pause
    assert_eq!(
        create_will(&create_ctx(paused()), who(BENEFICIARY), DAY - 1),
        Err(AppError::HeartbeatPeriodTooShort)
    );
}

#[test]
fn create_will_makes_a_created_will() {
    let ctx = create_ctx(config());
    for period in [DAY, DAY + 1, 30 * DAY, 365 * DAY - 1, 365 * DAY] {
        let will = create_will(&ctx, who(BENEFICIARY), period).unwrap();
        assert_eq!(will.status, WillStatus::Created);
        assert_eq!(will.created_at, T0);
        assert_eq!(will.last_heartbeat, will.created_at);
        assert_eq!(will.trigger_at, None);
        assert_eq!(will.heartbeat_period, period);
    }
    assert_eq!(create_will(&ctx, who(BENEFICIARY), DAY), Ok(will_in(WillStatus::Created)));
}

#[test]
fn create_will_refuses_a_period_above_the_maximum() {
    let ctx = create_ctx(config());
    for period in [365 * DAY + 1, 366 * DAY, u32::MAX] {
        assert_eq!(
            create_will(&ctx, who(BENEFICIARY), period),
            Err(AppError::InvalidHeartbeatPeriod)
        );
        assert_eq!(ctx.validate(period), Err(AppError::InvalidHeartbeatPeriod));
    }
    // the pause is looked at before the maximum
    assert_eq!(
        create_will(&create_ctx(paused()), who(BENEFICIARY), u32::MAX),
        Err(AppError::ProgramPaused)
    );
    // bounds that admit one period only
    let narrow = Config { min_heartbeat_period: 500, max_heartbeat_period: 500, ..config() };
    assert_eq!(
        create_will(&create_ctx(narrow), who(BENEFICIARY), 499),
        Err(AppError::HeartbeatPeriodTooShort)
    );
    assert!(create_will(&create_ctx(narrow), who(BENEFICIARY), 500).is_ok());
    assert_eq!(
        create_will(&create_ctx(narrow), who(BENEFICIARY), 501),
        Err(AppError::InvalidHeartbeatPeriod)
    );
    // bounds that admit none
    let empty = Config { min_heartbeat_period: 500, max_heartbeat_period: 400, ..config() };
    assert_eq!(
        create_will(&create_ctx(empty), who(BENEFICIARY), 450),
        Err(AppError::HeartbeatPeriodTooShort)
    );
    assert_eq!(
        create_will(&create_ctx(empty), who(BENEFICIARY), 500),
        Err(AppError::InvalidHeartbeatPeriod)
    );
}

#[test]
fn create_will_is_refused_while_paused() {
    assert_eq!(
        create_will(&create_ctx(paused()), who(BENEFICIARY), DAY),
        Err(AppError::ProgramPaused)
    );
    assert_eq!(create_ctx(paused()).validate(DAY), Err(AppError::ProgramPaused));
    assert_eq!(create_ctx(config()).validate(DAY), Ok(()));
}

// ---- deposits

fn deposit_ctx(will: Will, now: i64) -> DepositSol {
    DepositSol { testator: who(TESTATOR), testator_lamports: 10_000_000, will, reserve: RESERVE, now }
}

#[test]
fn first_deposit_activates_and_each_refreshes() {
    let mut will = will_in(WillStatus::Created);
    let times = [T0 + 10, T0 + 500, T0 + 499, T0 + 90_000];
    for (i, now) in times.iter().enumerate() {
        let before = will.status;
        let mut ctx = deposit_ctx(will, *now);
        let t = deposit_sol(&mut ctx, 1_000).unwrap();
        assert_eq!(
            t,
            Transfer { asset: Asset::Native, from: who(TESTATOR), to: who(VAULT), amount: 1_000 }
        );
        assert_eq!(before, if i == 0 { WillStatus::Created } else { WillStatus::Active });
        assert_eq!(ctx.will.status, WillStatus::Active);
        assert_eq!(ctx.will.last_heartbeat, *now);
        assert_eq!(
            ctx.will,
            Will { status: WillStatus::Active, last_heartbeat: *now, ..will_in(WillStatus::Created) }
        );
        will = ctx.will;
    }
}

#[test]
fn deposits_of_every_kind_refresh_the_timer() {
    let mut sol = deposit_ctx(will_in(WillStatus::Created), T0 + 5);
    deposit_sol(&mut sol, 1).unwrap();

    let mut token = DepositSplToken {
        testator: who(TESTATOR),
        will: sol.will,
        mint: who(40),
        testator_token_amount: 500,
        now: T0 + 7,
    };
    assert_eq!(
        deposit_spl_token::handler(&mut token, 500),
        Ok(Transfer {
            asset: Asset::Fungible { mint: who(40) },
            from: who(TESTATOR),
            to: who(VAULT),
            amount: 500
        })
    );
    assert_eq!(token.will.status, WillStatus::Active);
    assert_eq!(token.will.last_heartbeat, T0 + 7);

    let mut unique = DepositNft {
        testator: who(TESTATOR),
        will: token.will,
        nft_mint: nft(),
        testator_nft_amount: 1,
        now: T0 + 9,
    };
    assert_eq!(
        deposit_nft::handler(&mut unique),
        Ok(Transfer {
            asset: Asset::Unique { mint: who(50) },
            from: who(TESTATOR),
            to: who(VAULT),
            amount: 1
        })
    );
    assert_eq!(unique.will.last_heartbeat, T0 + 9);
    assert_eq!(unique.will.status, WillStatus::Active);
}

#[test]
fn a_token_or_unique_deposit_activates_a_created_will() {
    let mut token = DepositSplToken {
        testator: who(TESTATOR),
        will: will_in(WillStatus::Created),
        mint: who(40),
        testator_token_amount: 500,
        now: T0 + 7,
    };
    deposit_spl_token::handler(&mut token, 1).unwrap();
    assert_eq!(token.will.status, WillStatus::Active);
    let mut unique = DepositNft {
        testator: who(TESTATOR),
        will: will_in(WillStatus::Created),
        nft_mint: nft(),
        testator_nft_amount: 1,
        now: T0 + 9,
    };
    deposit_nft::handler(&mut unique).unwrap();
    assert_eq!(unique.will.status, WillStatus::Active);
}

#[test]
fn deposit_sol_guards() {
    let fresh = |status| deposit_ctx(will_in(status), T0 + 1);

    let mut ctx = DepositSol { testator: who(STRANGER), ..fresh(WillStatus::Active) };
    assert_eq!(deposit_sol(&mut ctx, 0), Err(AppError::Unauthorized));
    assert_eq!(ctx, DepositSol { testator: who(STRANGER), ..fresh(WillStatus::Active) });

    let mut ctx = fresh(WillStatus::Triggered);
    assert_eq!(deposit_sol(&mut ctx, 0), Err(AppError::InvalidAmount));

    for status in [WillStatus::Triggered, WillStatus::Claimed, WillStatus::Withdrawn] {
        let mut ctx = fresh(status);
        assert_eq!(deposit_sol(&mut ctx, 1), Err(AppError::InvalidWillStatus));
        assert_eq!(ctx, fresh(status));
    }

    let mut ctx = fresh(WillStatus::Active);
    assert_eq!(deposit_sol(&mut ctx, 10_000_000 - RESERVE + 1), Err(AppError::InsufficientBalance));
    assert_eq!(ctx, fresh(WillStatus::Active));
    assert!(deposit_sol(&mut ctx, 10_000_000 - RESERVE).is_ok());

    // amount plus reserve beyond 64 bits
    let mut ctx = DepositSol { testator_lamports: u64::MAX, reserve: 2, ..fresh(WillStatus::Active) };
    assert_eq!(deposit_sol(&mut ctx, u64::MAX - 1), Err(AppError::InsufficientBalance));
    assert!(deposit_sol(&mut ctx, u64::MAX - 2).is_ok());
}

#[test]
fn deposit_spl_token_guards() {
    let fresh = |status| DepositSplToken {
        testator: who(TESTATOR),
        will: will_in(status),
        mint: who(40),
        testator_token_amount: 500,
        now: T0 + 7,
    };
    let mut ctx = DepositSplToken { testator: who(STRANGER), ..fresh(WillStatus::Active) };
    assert_eq!(deposit_spl_token::handler(&mut ctx, 501), Err(AppError::Unauthorized));
    let mut ctx = fresh(WillStatus::Withdrawn);
    assert_eq!(deposit_spl_token::handler(&mut ctx, 501), Err(AppError::InsufficientBalance));
    assert_eq!(deposit_spl_token::handler(&mut ctx, 0), Err(AppError::InvalidAmount));
    assert_eq!(deposit_spl_token::handler(&mut ctx, 500), Err(AppError::InvalidWillStatus));
    assert_eq!(ctx, fresh(WillStatus::Withdrawn));
    assert_eq!(fresh(WillStatus::Created).validate(500), Ok(()));
}

#[test]
fn deposit_nft_guards() {
    let fresh = |status| DepositNft {
        testator: who(TESTATOR),
        will: will_in(status),
        nft_mint: nft(),
        testator_nft_amount: 1,
        now: T0 + 9,
    };
    let two = Mint { supply: 2, decimals: 3, ..nft() };
    let mut ctx = DepositNft { testator: who(STRANGER), nft_mint: two, ..fresh(WillStatus::Claimed) };
    assert_eq!(deposit_nft::handler(&mut ctx), Err(AppError::Unauthorized));
    let mut ctx = DepositNft { nft_mint: two, ..fresh(WillStatus::Claimed) };
    assert_eq!(deposit_nft::handler(&mut ctx), Err(AppError::InvalidNftSupply));
    let mut ctx = DepositNft { nft_mint: Mint { supply: 0, ..nft() }, ..fresh(WillStatus::Active) };
    assert_eq!(deposit_nft::handler(&mut ctx), Err(AppError::InvalidNftSupply));
    let mut ctx = DepositNft {
        nft_mint: Mint { decimals: 1, ..nft() },
        testator_nft_amount: 0,
        ..fresh(WillStatus::Claimed)
    };
    assert_eq!(deposit_nft::handler(&mut ctx), Err(AppError::InvalidNftDecimals));
    for held in [0, 2] {
        let mut ctx = DepositNft { testator_nft_amount: held, ..fresh(WillStatus::Claimed) };
        assert_eq!(deposit_nft::handler(&mut ctx), Err(AppError::NftNotOwned));
    }
    let mut ctx = fresh(WillStatus::Claimed);
    assert_eq!(deposit_nft::handler(&mut ctx), Err(AppError::InvalidWillStatus));
    assert_eq!(ctx, fresh(WillStatus::Claimed));
    assert_eq!(nft().check_unique(), Ok(()));
}

// ---- heartbeat

fn heartbeat_ctx(will: Will, now: i64) -> SendHeartbeat {
    SendHeartbeat { testator: who(TESTATOR), config: config(), will, now }
}

#[test]
fn heartbeat_restarts_the_timer() {
    let mut ctx = heartbeat_ctx(will_in(WillStatus::Active), T0 + 60);
    assert_eq!(send_heartbeat(&mut ctx), Ok(()));
    assert_eq!(ctx.will, Will { last_heartbeat: T0 + 60, ..will_in(WillStatus::Active) });
    // the last moment before expiry
    let mut ctx = heartbeat_ctx(will_in(WillStatus::Active), T0 + DAY as i64 - 1);
    assert_eq!(send_heartbeat(&mut ctx), Ok(()));
    assert_eq!(ctx.will.last_heartbeat, T0 + DAY as i64 - 1);
    assert_eq!(ctx.will.created_at, T0);
}

#[test]
fn heartbeat_too_soon_is_refused() {
    for now in [T0 - 5, T0, T0 + 1, T0 + 59] {
        let mut ctx = heartbeat_ctx(will_in(WillStatus::Active), now);
        assert_eq!(send_heartbeat(&mut ctx), Err(AppError::HeartbeatPeriodTooShort));
        assert_eq!(ctx, heartbeat_ctx(will_in(WillStatus::Active), now));
    }
}

#[test]
fn heartbeat_again_before_the_interval_is_refused() {
    let mut ctx = heartbeat_ctx(will_in(WillStatus::Active), T0 + 1_000);
    assert_eq!(send_heartbeat(&mut ctx), Ok(()));
    let mut again = heartbeat_ctx(ctx.will, T0 + 1_059);
    assert_eq!(send_heartbeat(&mut again), Err(AppError::HeartbeatPeriodTooShort));
    let mut again = heartbeat_ctx(ctx.will, T0 + 1_060);
    assert_eq!(send_heartbeat(&mut again), Ok(()));
}

#[test]
fn heartbeat_at_or_after_expiry_is_refused() {
    for now in [T0 + DAY as i64, T0 + DAY as i64 + 1, T0 + 10 * DAY as i64, i64::MAX] {
        let mut ctx = heartbeat_ctx(will_in(WillStatus::Active), now);
        assert_eq!(send_heartbeat(&mut ctx), Err(AppError::WillAlreadyExpired));
        assert_eq!(ctx.will, will_in(WillStatus::Active));
    }
}

#[test]
fn heartbeat_too_soon_comes_before_expired() {
    // an interval longer than the period: at expiry the interval has not passed
    let long = Config { min_heartbeat_interval: 2 * DAY, ..config() };
    let mut ctx = SendHeartbeat { config: long, ..heartbeat_ctx(will_in(WillStatus::Active), T0 + DAY as i64) };
    assert_eq!(send_heartbeat(&mut ctx), Err(AppError::HeartbeatPeriodTooShort));
}

#[test]
fn heartbeat_guards() {
    let mut ctx = SendHeartbeat { testator: who(STRANGER), ..heartbeat_ctx(will_in(WillStatus::Created), T0 + 60) };
    assert_eq!(send_heartbeat(&mut ctx), Err(AppError::Unauthorized));
    for status in [WillStatus::Created, WillStatus::Triggered, WillStatus::Claimed, WillStatus::Withdrawn] {
        let mut ctx = heartbeat_ctx(will_in(status), T0 + 60);
        assert_eq!(send_heartbeat(&mut ctx), Err(AppError::InvalidWillStatus));
        assert_eq!(ctx.will, will_in(status));
    }
}

#[test]
fn heartbeat_works_while_paused() {
    let mut ctx = SendHeartbeat { config: paused(), ..heartbeat_ctx(will_in(WillStatus::Active), T0 + 60) };
    assert_eq!(ctx.validate(), Ok(()));
    assert_eq!(send_heartbeat(&mut ctx), Ok(()));
    assert_eq!(ctx.will.last_heartbeat, T0 + 60);
}

// ---- trigger

fn trigger_ctx(will: Will, now: i64) -> TriggerWill {
    TriggerWill { keeper: who(STRANGER), will, config: config(), now }
}

#[test]
fn trigger_waits_for_expiry_and_grace() {
    let expiry = T0 + DAY as i64;
    for now in [i64::MIN, T0, expiry - 1] {
        let mut ctx = trigger_ctx(will_in(WillStatus::Active), now);
        assert_eq!(trigger_will(&mut ctx), Err(AppError::WillNotExpired));
        assert_eq!(ctx, trigger_ctx(will_in(WillStatus::Active), now));
    }
    for now in [expiry, expiry + 1, expiry + 299] {
        let mut ctx = trigger_ctx(will_in(WillStatus::Active), now);
        assert_eq!(trigger_will(&mut ctx), Err(AppError::StillInGracePeriod));
        assert_eq!(ctx.will, will_in(WillStatus::Active));
    }
    for now in [expiry + 300, expiry + 301, i64::MAX] {
        let mut ctx = trigger_ctx(will_in(WillStatus::Active), now);
        assert_eq!(trigger_will(&mut ctx), Ok(()));
        assert_eq!(
            ctx.will,
            Will { status: WillStatus::Triggered, trigger_at: Some(now), ..will_in(WillStatus::Active) }
        );
    }
}

#[test]
fn trigger_succeeds_only_once() {
    let now = T0 + DAY as i64 + 300;
    let mut ctx = trigger_ctx(will_in(WillStatus::Active), now);
    assert_eq!(trigger_will(&mut ctx), Ok(()));
    assert_eq!(trigger_will(&mut ctx), Err(AppError::InvalidWillStatus));
    let mut later = trigger_ctx(ctx.will, now + 1_000_000);
    assert_eq!(trigger_will(&mut later), Err(AppError::InvalidWillStatus));
    assert_eq!(later.will.trigger_at, Some(now));
}

#[test]
fn trigger_guards() {
    let now = T0 + DAY as i64 + 300;
    for status in [WillStatus::Created, WillStatus::Triggered, WillStatus::Claimed, WillStatus::Withdrawn] {
        let mut ctx = TriggerWill { config: paused(), ..trigger_ctx(will_in(status), now) };
        assert_eq!(trigger_will(&mut ctx), Err(AppError::InvalidWillStatus));
    }
    let mut ctx = TriggerWill { config: paused(), ..trigger_ctx(will_in(WillStatus::Active), T0) };
    assert_eq!(trigger_will(&mut ctx), Err(AppError::ProgramPaused));
    assert_eq!(ctx.will, will_in(WillStatus::Active));
}

#[test]
fn trigger_is_open_to_anyone() {
    let now = T0 + DAY as i64 + 300;
    for keeper in [TESTATOR, BENEFICIARY, STRANGER] {
        let mut ctx = TriggerWill { keeper: who(keeper), ..trigger_ctx(will_in(WillStatus::Active), now) };
        assert_eq!(trigger_will(&mut ctx), Ok(()));
    }
}

// ---- claims

fn claim_ctx(status: WillStatus, vault_lamports: u64) -> ClaimSol {
    ClaimSol { beneficiary: who(BENEFICIARY), will: will_in(status), vault_lamports, config: config(), reserve: RESERVE }
}

#[test]
fn claim_of_one_million_at_250_bps() {
    let mut ctx = claim_ctx(WillStatus::Triggered, 1_000_000);
    let d = claim_sol(&mut ctx).unwrap();
    assert_eq!(
        d,
        Disbursement {
            fee: Some(Transfer { asset: Asset::Native, from: who(VAULT), to: who(FEE_VAULT), amount: 25_000 }),
            payout: Transfer { asset: Asset::Native, from: who(VAULT), to: who(BENEFICIARY), amount: 84_120 },
        }
    );
    assert_eq!(ctx.will, will_in(WillStatus::Claimed));
    assert_eq!(1_000_000 - 25_000 - 84_120, RESERVE);
}

#[test]
fn claim_at_or_below_the_reserve_is_refused() {
    for balance in [0, 1, RESERVE - 1, RESERVE] {
        for status in [WillStatus::Triggered, WillStatus::Claimed] {
            let mut ctx = claim_ctx(status, balance);
            assert_eq!(claim_sol(&mut ctx), Err(AppError::NoClaimableAmount));
            assert_eq!(ctx, claim_ctx(status, balance));
        }
    }
    // just above the reserve the fee still eats the margin
    let mut ctx = claim_ctx(WillStatus::Triggered, RESERVE + 1);
    assert_eq!(claim_sol(&mut ctx), Err(AppError::NoClaimableAmount));
    assert_eq!(ctx.will.status, WillStatus::Triggered);
}

#[test]
fn claim_without_a_fee_moves_no_fee() {
    let free = Config { token_fee_bps: 0, ..config() };
    let mut ctx = ClaimSol { config: free, ..claim_ctx(WillStatus::Triggered, RESERVE + 1) };
    let d = claim_sol(&mut ctx).unwrap();
    assert_eq!(d.fee, None);
    assert_eq!(d.payout.amount, 1);
    // a fee that rounds down to nothing
    let mut ctx = ClaimSol { reserve: 0, ..claim_ctx(WillStatus::Triggered, 39) };
    let d = claim_sol(&mut ctx).unwrap();
    assert_eq!(d.fee, None);
    assert_eq!(d.payout.amount, 39);
}

#[test]
fn claim_again_after_the_first() {
    let mut ctx = claim_ctx(WillStatus::Triggered, 1_000_000);
    claim_sol(&mut ctx).unwrap();
    assert_eq!(ctx.will.status, WillStatus::Claimed);
    let mut again = ClaimSol { will: ctx.will, ..claim_ctx(WillStatus::Claimed, 2_000_000) };
    let d = claim_sol(&mut again).unwrap();
    assert_eq!(d.fee.unwrap().amount, 50_000);
    assert_eq!(d.payout.amount, 2_000_000 - 50_000 - RESERVE);
    assert_eq!(again.will.status, WillStatus::Claimed);
}

#[test]
fn claim_sol_guards() {
    for status in [WillStatus::Created, WillStatus::Active, WillStatus::Withdrawn] {
        let mut ctx = ClaimSol { beneficiary: who(STRANGER), config: paused(), ..claim_ctx(status, 0) };
        assert_eq!(claim_sol(&mut ctx), Err(AppError::InvalidWillStatus));
    }
    for caller in [TESTATOR, STRANGER] {
        let mut ctx = ClaimSol { beneficiary: who(caller), config: paused(), ..claim_ctx(WillStatus::Triggered, 0) };
        assert_eq!(claim_sol(&mut ctx), Err(AppError::Unauthorized));
    }
    let mut ctx = ClaimSol { config: paused(), ..claim_ctx(WillStatus::Triggered, 0) };
    assert_eq!(claim_sol(&mut ctx), Err(AppError::ProgramPaused));
    assert_eq!(ctx.validate(), Err(AppError::ProgramPaused));
    assert_eq!(ctx.will.status, WillStatus::Triggered);
}

#[test]
fn claim_sol_validate_agrees_with_the_claim() {
    for status in [WillStatus::Triggered, WillStatus::Claimed] {
        for balance in [0, 1, RESERVE, RESERVE + 1] {
            assert_eq!(claim_ctx(status, balance).validate(), Err(AppError::NoClaimableAmount));
        }
        assert_eq!(claim_ctx(status, 1_000_000).validate(), Ok(()));
    }
    // the other guards come first
    assert_eq!(claim_ctx(WillStatus::Active, 0).validate(), Err(AppError::InvalidWillStatus));
    let stranger = ClaimSol { beneficiary: who(STRANGER), ..claim_ctx(WillStatus::Triggered, 0) };
    assert_eq!(stranger.validate(), Err(AppError::Unauthorized));
    let free = Config { token_fee_bps: 0, ..config() };
    let edge = ClaimSol { config: free, ..claim_ctx(WillStatus::Triggered, RESERVE + 1) };
    assert_eq!(edge.validate(), Ok(()));
    let mut run = edge;
    assert!(claim_sol(&mut run).is_ok());
}

#[test]
fn claim_with_a_rate_above_the_whole() {
    let greedy = Config { token_fee_bps: u16::MAX, ..config() };
    let mut ctx = ClaimSol { config: greedy, reserve: 0, ..claim_ctx(WillStatus::Triggered, u64::MAX) };
    assert_eq!(claim_sol(&mut ctx), Err(AppError::NoClaimableAmount));
    assert_eq!(ctx.will.status, WillStatus::Triggered);
}

fn token_claim_ctx(status: WillStatus, amount: u64) -> ClaimSplToken {
    ClaimSplToken {
        beneficiary: who(BENEFICIARY),
        will: will_in(status),
        mint: who(40),
        vault_token_amount: amount,
        config: config(),
    }
}

#[test]
fn token_claim_pays_fee_and_rest() {
    let ctx = token_claim_ctx(WillStatus::Triggered, 1_000_000);
    let token = Asset::Fungible { mint: who(40) };
    assert_eq!(
        claim_spl_token::handler(&ctx),
        Ok(Disbursement {
            fee: Some(Transfer { asset: token, from: who(VAULT), to: who(FEE_VAULT), amount: 25_000 }),
            payout: Transfer { asset: token, from: who(VAULT), to: who(BENEFICIARY), amount: 975_000 },
        })
    );
    let d = claim_spl_token::handler(&token_claim_ctx(WillStatus::Triggered, 39)).unwrap();
    assert_eq!(d.fee, None);
    assert_eq!(d.payout.amount, 39);
    let all = Config { token_fee_bps: 10_000, ..config() };
    let d = claim_spl_token::handler(&ClaimSplToken { config: all, ..ctx }).unwrap();
    assert_eq!(d.fee.unwrap().amount, 1_000_000);
    assert_eq!(d.payout.amount, 0);
}

#[test]
fn token_claim_guards() {
    for status in [WillStatus::Created, WillStatus::Active, WillStatus::Claimed, WillStatus::Withdrawn] {
        let ctx = ClaimSplToken { beneficiary: who(STRANGER), ..token_claim_ctx(status, 0) };
        assert_eq!(claim_spl_token::handler(&ctx), Err(AppError::InvalidWillStatus));
    }
    let ctx = ClaimSplToken { beneficiary: who(STRANGER), ..token_claim_ctx(WillStatus::Triggered, 0) };
    assert_eq!(claim_spl_token::handler(&ctx), Err(AppError::Unauthorized));
    let ctx = ClaimSplToken { config: paused(), ..token_claim_ctx(WillStatus::Triggered, 0) };
    assert_eq!(claim_spl_token::handler(&ctx), Err(AppError::NoAssetsToClaim));
    let ctx = ClaimSplToken { config: paused(), ..token_claim_ctx(WillStatus::Triggered, 1) };
    assert_eq!(claim_spl_token::handler(&ctx), Err(AppError::ProgramPaused));
    let greedy = Config { token_fee_bps: 20_000, ..config() };
    let ctx = ClaimSplToken { config: greedy, ..token_claim_ctx(WillStatus::Triggered, 100) };
    assert_eq!(claim_spl_token::handler(&ctx), Err(AppError::InsuffcientBalanceForFees));
    assert_eq!(ctx.validate(), Err(AppError::InsuffcientBalanceForFees));
    assert_eq!(token_claim_ctx(WillStatus::Triggered, 100).validate(), Ok(()));
    assert_eq!(token_claim_ctx(WillStatus::Triggered, 0).validate(), Err(AppError::NoAssetsToClaim));
}

fn nft_claim_ctx(status: WillStatus) -> ClaimNft {
    ClaimNft {
        beneficiary: who(BENEFICIARY),
        beneficiary_lamports: 1_000_000 + RESERVE,
        will: will_in(status),
        nft_mint: nft(),
        vault_nft_amount: 1,
        config: config(),
        reserve: RESERVE,
    }
}

#[test]
fn nft_claim_charges_the_flat_fee_to_the_beneficiary() {
    let ctx = nft_claim_ctx(WillStatus::Triggered);
    assert_eq!(
        claim_nft::handler(&ctx),
        Ok(Disbursement {
            fee: Some(Transfer {
                asset: Asset::Native,
                from: who(BENEFICIARY),
                to: who(FEE_VAULT),
                amount: 1_000_000
            }),
            payout: Transfer {
                asset: Asset::Unique { mint: who(50) },
                from: who(VAULT),
                to: who(BENEFICIARY),
                amount: 1
            },
        })
    );
    let free = Config { nft_fee_lamports: 0, ..config() };
    let d = claim_nft::handler(&ClaimNft { config: free, beneficiary_lamports: 0, ..ctx }).unwrap();
    assert_eq!(d.fee, None);
    assert_eq!(d.payout.amount, 1);
}

#[test]
fn nft_claim_guards() {
    for status in [WillStatus::Created, WillStatus::Active, WillStatus::Claimed, WillStatus::Withdrawn] {
        let ctx = ClaimNft { beneficiary: who(STRANGER), ..nft_claim_ctx(status) };
        assert_eq!(claim_nft::handler(&ctx), Err(AppError::InvalidWillStatus));
    }
    let base = nft_claim_ctx(WillStatus::Triggered);
    let many = Mint { supply: 5, decimals: 2, ..nft() };
    let ctx = ClaimNft { beneficiary: who(STRANGER), nft_mint: many, ..base };
    assert_eq!(claim_nft::handler(&ctx), Err(AppError::Unauthorized));
    let ctx = ClaimNft { nft_mint: many, vault_nft_amount: 0, ..base };
    assert_eq!(claim_nft::handler(&ctx), Err(AppError::InvalidNftSupply));
    let ctx = ClaimNft { nft_mint: Mint { decimals: 9, ..nft() }, vault_nft_amount: 0, ..base };
    assert_eq!(claim_nft::handler(&ctx), Err(AppError::InvalidNftDecimals));
    for held in [0, 2] {
        let ctx = ClaimNft { vault_nft_amount: held, config: paused(), ..base };
        assert_eq!(claim_nft::handler(&ctx), Err(AppError::NoAssetsToClaim));
    }
    let ctx = ClaimNft { config: paused(), beneficiary_lamports: 0, ..base };
    assert_eq!(claim_nft::handler(&ctx), Err(AppError::ProgramPaused));
    let ctx = ClaimNft { beneficiary_lamports: 1_000_000 + RESERVE - 1, ..base };
    assert_eq!(claim_nft::handler(&ctx), Err(AppError::InsuffcientBalanceForFees));
    // fee plus reserve beyond 64 bits
    let dear = Config { nft_fee_lamports: u64::MAX, ..config() };
    let ctx = ClaimNft { config: dear, beneficiary_lamports: u64::MAX, ..base };
    assert_eq!(claim_nft::handler(&ctx), Err(AppError::InsuffcientBalanceForFees));
    assert!(claim_nft::handler(&ClaimNft { reserve: 0, ..ctx }).is_ok());
}

// ---- withdrawal

fn withdraw_ctx(status: WillStatus, vault_lamports: u64) -> WithdrawSol {
    WithdrawSol { testator: who(TESTATOR), will: will_in(status), vault_lamports, config: config(), reserve: RESERVE }
}

#[test]
fn withdraw_takes_all_but_the_reserve() {
    for status in [WillStatus::Created, WillStatus::Active] {
        let mut ctx = withdraw_ctx(status, 1_000_000);
        assert_eq!(
            withdraw_sol(&mut ctx),
            Ok(Transfer { asset: Asset::Native, from: who(VAULT), to: who(TESTATOR), amount: 109_120 })
        );
        assert_eq!(ctx.will, will_in(WillStatus::Withdrawn));
    }
}

#[test]
fn withdraw_after_trigger_is_refused_whatever_the_balance() {
    for balance in [0, 1, RESERVE, RESERVE + 1, 1_000_000, u64::MAX] {
        for status in [WillStatus::Triggered, WillStatus::Claimed] {
            let mut ctx = withdraw_ctx(status, balance);
            assert_eq!(withdraw_sol(&mut ctx), Err(AppError::CannotWithdrawAfterTriggered));
            assert_eq!(ctx, withdraw_ctx(status, balance));
        }
        let mut ctx = withdraw_ctx(WillStatus::Withdrawn, balance);
        assert_eq!(withdraw_sol(&mut ctx), Err(AppError::AlreadyWithdrawn));
        assert_eq!(ctx, withdraw_ctx(WillStatus::Withdrawn, balance));
    }
}

#[test]
fn withdraw_succeeds_only_once() {
    let mut ctx = withdraw_ctx(WillStatus::Active, 5_000_000);
    assert!(withdraw_sol(&mut ctx).is_ok());
    assert_eq!(withdraw_sol(&mut ctx), Err(AppError::AlreadyWithdrawn));
    let mut later = WithdrawSol { will: ctx.will, ..withdraw_ctx(WillStatus::Active, 9_000_000) };
    assert_eq!(withdraw_sol(&mut later), Err(AppError::AlreadyWithdrawn));
}

#[test]
fn withdraw_guards() {
    for status in ALL_STATUSES {
        let mut ctx = WithdrawSol { testator: who(STRANGER), config: paused(), ..withdraw_ctx(status, 0) };
        assert_eq!(withdraw_sol(&mut ctx), Err(AppError::Unauthorized));
        let mut ctx = WithdrawSol { testator: who(BENEFICIARY), ..withdraw_ctx(status, 1_000_000) };
        assert_eq!(withdraw_sol(&mut ctx), Err(AppError::Unauthorized));
    }
    let mut ctx = WithdrawSol { config: paused(), ..withdraw_ctx(WillStatus::Active, 0) };
    assert_eq!(withdraw_sol(&mut ctx), Err(AppError::ProgramPaused));
    for balance in [0, 1, RESERVE] {
        let mut ctx = withdraw_ctx(WillStatus::Active, balance);
        assert_eq!(withdraw_sol(&mut ctx), Err(AppError::NoWithdrawableAmount));
        assert_eq!(ctx, withdraw_ctx(WillStatus::Active, balance));
    }
    let mut ctx = withdraw_ctx(WillStatus::Created, RESERVE + 1);
    assert_eq!(withdraw_sol(&mut ctx).unwrap().amount, 1);
}

#[test]
fn withdraw_validate_agrees_with_the_withdrawal() {
    for status in [WillStatus::Created, WillStatus::Active] {
        for balance in [0, 1, RESERVE - 1, RESERVE] {
            assert_eq!(
                withdraw_ctx(status, balance).validate(),
                Err(AppError::NoWithdrawableAmount)
            );
        }
        for balance in [RESERVE + 1, 1_000_000, u64::MAX] {
            assert_eq!(withdraw_ctx(status, balance).validate(), Ok(()));
        }
    }
    // the other guards come first
    let stranger = WithdrawSol { testator: who(STRANGER), ..withdraw_ctx(WillStatus::Active, 0) };
    assert_eq!(stranger.validate(), Err(AppError::Unauthorized));
    assert_eq!(
        withdraw_ctx(WillStatus::Triggered, 0).validate(),
        Err(AppError::CannotWithdrawAfterTriggered)
    );
    assert_eq!(withdraw_ctx(WillStatus::Withdrawn, 0).validate(), Err(AppError::AlreadyWithdrawn));
    let halted = WithdrawSol { config: paused(), ..withdraw_ctx(WillStatus::Active, 0) };
    assert_eq!(halted.validate(), Err(AppError::ProgramPaused));
    // an empty reserve
    let bare = WithdrawSol { reserve: 0, ..withdraw_ctx(WillStatus::Active, 0) };
    assert_eq!(bare.validate(), Err(AppError::NoWithdrawableAmount));
    assert_eq!(WithdrawSol { vault_lamports: 1, ..bare }.validate(), Ok(()));
}

// ---- a whole life

#[test]
fn a_will_from_creation_to_claim() {
    let mut will = create_will(&create_ctx(config()), who(BENEFICIARY), DAY).unwrap();

    let mut ctx = deposit_ctx(will, T0 + 100);
    deposit_sol(&mut ctx, 1_000_000).unwrap();
    will = ctx.will;
    assert_eq!(will.status, WillStatus::Active);

    let mut ctx = heartbeat_ctx(will, T0 + 50_000);
    send_heartbeat(&mut ctx).unwrap();
    will = ctx.will;

    // the beneficiary cannot claim, nobody can trigger
    let mut early = ClaimSol { will, ..claim_ctx(WillStatus::Active, 1_000_000) };
    assert_eq!(claim_sol(&mut early), Err(AppError::InvalidWillStatus));
    let mut ctx = trigger_ctx(will, T0 + 50_000 + DAY as i64 + 299);
    assert_eq!(trigger_will(&mut ctx), Err(AppError::StillInGracePeriod));

    let mut ctx = trigger_ctx(will, T0 + 50_000 + DAY as i64 + 300);
    trigger_will(&mut ctx).unwrap();
    will = ctx.will;
    assert_eq!(will.trigger_at, Some(T0 + 50_000 + DAY as i64 + 300));

    // the testator is too late for everything
    let mut ctx = WithdrawSol { will, ..withdraw_ctx(WillStatus::Active, 1_000_000) };
    assert_eq!(withdraw_sol(&mut ctx), Err(AppError::CannotWithdrawAfterTriggered));
    let mut ctx = heartbeat_ctx(will, T0 + 50_100);
    assert_eq!(send_heartbeat(&mut ctx), Err(AppError::InvalidWillStatus));
    let mut ctx = deposit_ctx(will, T0 + 50_100);
    assert_eq!(deposit_sol(&mut ctx, 5), Err(AppError::InvalidWillStatus));

    // tokens first, native currency last
    let tokens = ClaimSplToken { will, ..token_claim_ctx(WillStatus::Triggered, 400) };
    assert_eq!(claim_spl_token::handler(&tokens).unwrap().payout.amount, 390);
    let unique = ClaimNft { will, ..nft_claim_ctx(WillStatus::Triggered) };
    assert!(claim_nft::handler(&unique).is_ok());

    let mut ctx = ClaimSol { will, ..claim_ctx(WillStatus::Triggered, 1_000_000) };
    assert_eq!(claim_sol(&mut ctx).unwrap().payout.amount, 84_120);
    will = ctx.will;
    assert_eq!(will.status, WillStatus::Claimed);

    let tokens = ClaimSplToken { will, ..token_claim_ctx(WillStatus::Triggered, 400) };
    assert_eq!(claim_spl_token::handler(&tokens), Err(AppError::InvalidWillStatus));
}
