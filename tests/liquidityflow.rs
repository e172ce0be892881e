use liquidityflow::mev::DEFAULT_MAX_SLIPPAGE_BPS;
use liquidityflow::{
    check_slippage, execute_swap, initialize, setup_mev_protection, slippage_bps,
    validate_for_mev, AccountKey, ExecuteSwap, Initialize, LiquidityFlowError, MevProtector,
    SetupMevProtection, SwapExecutor, TokenAccount, ValidateMev,
};

fn key(b: u8) -> AccountKey {
    AccountKey { bytes: [b; 32] }
}

fn guard(max_slippage_bps: u16, is_active: bool) -> MevProtector {
    MevProtector { authority: key(1), max_slippage_bps, is_active }
}

fn validate(expected: u64, observed: u64, max_slippage_bps: u16) -> Result<(), LiquidityFlowError> {
    let ctx = ValidateMev {
        mev_protector: guard(max_slippage_bps, true),
        output_account: TokenAccount { amount: observed },
    };
    validate_for_mev(&ctx, expected)
}

fn swap_ctx(is_active: bool, from: u64, to: u64) -> ExecuteSwap {
    ExecuteSwap {
        swap_executor: SwapExecutor { authority: key(7), is_active },
        from: TokenAccount { amount: from },
        to: TokenAccount { amount: to },
        authority: key(9),
    }
}

#[test]
fn validate_exactly_at_limit_passes() {
    assert_eq!(slippage_bps(1000, 990), -100);
    assert_eq!(validate(1000, 990, 100), Ok(()));
}

#[test]
fn validate_just_past_limit_fails() {
    assert_eq!(slippage_bps(1000, 989), -110);
    assert_eq!(validate(1000, 989, 100), Err(LiquidityFlowError::SlippageExceeded));
}

#[test]
fn validate_positive_deviation_passes() {
    assert_eq!(slippage_bps(1000, 1500), 5000);
    assert_eq!(validate(1000, 1500, 100), Ok(()));
    assert_eq!(validate(1, u64::MAX, 0), Ok(()));
}

#[test]
fn validate_zero_expected_is_division_by_zero() {
    for observed in [0u64, 1, 990, u64::MAX] {
        assert_eq!(validate(0, observed, 100), Err(LiquidityFlowError::DivisionByZero));
    }
    assert_eq!(check_slippage(0, 5, 0), Err(LiquidityFlowError::DivisionByZero));
}

#[test]
fn validate_inactive_guard_fails() {
    let ctx = ValidateMev {
        mev_protector: guard(100, false),
        output_account: TokenAccount { amount: 1000 },
    };
    assert_eq!(validate_for_mev(&ctx, 1000), Err(LiquidityFlowError::MevProtectorInactive));
    assert_eq!(validate_for_mev(&ctx, 0), Err(LiquidityFlowError::MevProtectorInactive));
}

#[test]
fn slippage_rounds_toward_zero() {
    assert_eq!(slippage_bps(3, 2), -3333);
    assert_eq!(slippage_bps(3, 4), 3333);
    assert_eq!(validate(3, 2, 3333), Ok(()));
    assert_eq!(validate(3, 2, 3332), Err(LiquidityFlowError::SlippageExceeded));
}

#[test]
fn slippage_on_extreme_amounts() {
    assert_eq!(slippage_bps(u64::MAX, 0), -10000);
    assert_eq!(slippage_bps(1, u64::MAX), (u64::MAX as i128 - 1) * 10000);
    assert_eq!(validate(u64::MAX, 0, u16::MAX), Ok(()));
    assert_eq!(validate(u64::MAX, 0, 9999), Err(LiquidityFlowError::SlippageExceeded));
}

#[test]
fn tolerance_rule_matches_formula() {
    for expected in [1u64, 7, 1000, 123_457] {
        for observed in [0u64, 1, 6, 500, 989, 990, 1000, 2000, 123_456] {
            for max in [0u16, 1, 100, 3333, 10000] {
                let d = ((observed as i128 - expected as i128) * 10000) / expected as i128;
                let want = d >= -(max as i128);
                assert_eq!(validate(expected, observed, max).is_ok(), want);
            }
        }
    }
}

#[test]
fn initialize_creates_active_executor() {
    let mut ctx = Initialize { swap_executor: None, authority: key(3) };
    assert_eq!(initialize(&mut ctx), Ok(()));
    assert_eq!(ctx.swap_executor, Some(SwapExecutor { authority: key(3), is_active: true }));
}

#[test]
fn initialize_twice_fails_and_keeps_first() {
    let mut ctx = Initialize { swap_executor: None, authority: key(3) };
    assert_eq!(initialize(&mut ctx), Ok(()));
    let first = ctx.swap_executor;
    ctx.authority = key(4);
    assert_eq!(initialize(&mut ctx), Err(LiquidityFlowError::AlreadyExists));
    assert_eq!(ctx.swap_executor, first);
}

#[test]
fn setup_sets_default_tolerance() {
    let mut ctx = SetupMevProtection { mev_protector: None, authority: key(5) };
    assert_eq!(setup_mev_protection(&mut ctx), Ok(()));
    let g = ctx.mev_protector.unwrap();
    assert_eq!(g.max_slippage_bps, 100);
    assert_eq!(DEFAULT_MAX_SLIPPAGE_BPS, 100);
    assert!(g.is_active);
    assert_eq!(g.authority, key(5));
}

#[test]
fn setup_twice_fails_and_keeps_first() {
    let mut ctx = SetupMevProtection { mev_protector: None, authority: key(5) };
    assert_eq!(setup_mev_protection(&mut ctx), Ok(()));
    let first = ctx.mev_protector;
    ctx.authority = key(6);
    assert_eq!(setup_mev_protection(&mut ctx), Err(LiquidityFlowError::AlreadyExists));
    assert_eq!(ctx.mev_protector, first);
}

#[test]
fn swap_moves_exact_amount() {
    let mut ctx = swap_ctx(true, 500, 20);
    assert_eq!(execute_swap(&mut ctx, 200, 220), Ok(()));
    assert_eq!(ctx.from.amount, 300);
    assert_eq!(ctx.to.amount, 220);
}

#[test]
fn swap_below_floor_changes_nothing() {
    let mut ctx = swap_ctx(true, 500, 20);
    assert_eq!(execute_swap(&mut ctx, 200, 221), Err(LiquidityFlowError::SlippageExceeded));
    assert_eq!(ctx.from.amount, 500);
    assert_eq!(ctx.to.amount, 20);
}

#[test]
fn swap_on_inactive_executor_fails() {
    let mut ctx = swap_ctx(false, 500, 20);
    assert_eq!(execute_swap(&mut ctx, 200, 0), Err(LiquidityFlowError::SwapExecutorInactive));
    assert_eq!(ctx.from.amount, 500);
    assert_eq!(ctx.to.amount, 20);
}

#[test]
fn swap_transfer_failures_change_nothing() {
    let mut short = swap_ctx(true, 100, 0);
    assert_eq!(execute_swap(&mut short, 101, 0), Err(LiquidityFlowError::TransferFailed));
    assert_eq!((short.from.amount, short.to.amount), (100, 0));
    let mut full = swap_ctx(true, 100, u64::MAX);
    assert_eq!(execute_swap(&mut full, 1, 0), Err(LiquidityFlowError::TransferFailed));
    assert_eq!((full.from.amount, full.to.amount), (100, u64::MAX));
}

#[test]
fn error_messages() {
    assert_eq!(LiquidityFlowError::SwapExecutorInactive.message(), "Swap executor is inactive");
    assert_eq!(LiquidityFlowError::MevProtectorInactive.message(), "MEV protector is inactive");
    assert_eq!(LiquidityFlowError::SlippageExceeded.message(), "Slippage exceeded");
    assert_eq!(LiquidityFlowError::AlreadyExists.message(), "Account already exists");
    assert_eq!(LiquidityFlowError::DivisionByZero.message(), "Division by zero");
    assert_eq!(LiquidityFlowError::TransferFailed.message(), "Token transfer failed");
}
