//! The tolerance guard: created once at its fixed location with a default
//! tolerance, then used to hold an observed output against an expected one.

use crate::slippage::{check_slippage, div_toward_zero, slippage_verdict};
use crate::state::{AccountKey, LiquidityFlowError, MevProtector, TokenAccount};
use vstd::prelude::*;

verus! {

/// Tolerance a new guard starts with: one percent.
pub const DEFAULT_MAX_SLIPPAGE_BPS: u16 = 100;

/// The accounts that creating the guard touches.
pub struct SetupMevProtection {
    /// What is stored at the guard's location; `None` while nothing is.
    pub mev_protector: Option<MevProtector>,
    /// The identity that signs the creation and will own the guard.
    pub authority: AccountKey,
}

/// The accounts that a validation reads.
pub struct ValidateMev {
    pub mev_protector: MevProtector,
    /// The account whose balance is the observed output.
    pub output_account: TokenAccount,
}

/// The guard's location and the outcome after creation is attempted over `slot`.
pub open spec fn setup_result(slot: Option<MevProtector>, authority: AccountKey) -> (
    Option<MevProtector>,
    Result<(), LiquidityFlowError>,
) {
    match slot {
        Some(_) => (slot, Err(LiquidityFlowError::AlreadyExists)),
        None => (
            Some(
                MevProtector {
                    authority,
                    max_slippage_bps: DEFAULT_MAX_SLIPPAGE_BPS,
                    is_active: true,
                },
            ),
            Ok(()),
        ),
    }
}

/// Creates the guard, active, owned by the signer and with the default
/// tolerance; refuses a location that already holds one.
pub fn setup_mev_protection(ctx: &mut SetupMevProtection) -> (r: Result<(), LiquidityFlowError>)
    ensures
        (final(ctx).mev_protector, r) == setup_result(old(ctx).mev_protector, old(ctx).authority),
        final(ctx).authority == old(ctx).authority,
        old(ctx).mev_protector is None ==> r is Ok && final(ctx).mev_protector == Some(
            MevProtector { authority: old(ctx).authority, max_slippage_bps: 100, is_active: true },
        ),
        old(ctx).mev_protector is Some ==> r == Err::<(), LiquidityFlowError>(
            LiquidityFlowError::AlreadyExists,
        ) && final(ctx).mev_protector == old(ctx).mev_protector,
{
    if ctx.mev_protector.is_some() {
        return Err(LiquidityFlowError::AlreadyExists);
    }
    ctx.mev_protector = Some(
        MevProtector {
            authority: ctx.authority,
            max_slippage_bps: DEFAULT_MAX_SLIPPAGE_BPS,
            is_active: true,
        },
    );
    Ok(())
}

/// Outcome of validating `expected` against the balance `observed` under `guard`.
pub open spec fn validation_result(guard: MevProtector, expected: u64, observed: u64) -> Result<
    (),
    LiquidityFlowError,
> {
    if !guard.is_active {
        Err(LiquidityFlowError::MevProtectorInactive)
    } else {
        slippage_verdict(expected, observed, guard.max_slippage_bps)
    }
}

/// Passes when the guard is active and the output account's balance falls
/// short of `expected_output` by no more than the guard's tolerance.
pub fn validate_for_mev(ctx: &ValidateMev, expected_output: u64) -> (r: Result<
    (),
    LiquidityFlowError,
>)
    ensures
        r == validation_result(ctx.mev_protector, expected_output, ctx.output_account.amount),
        !ctx.mev_protector.is_active ==> r == Err::<(), LiquidityFlowError>(
            LiquidityFlowError::MevProtectorInactive,
        ),
        ctx.mev_protector.is_active && expected_output == 0 ==> r == Err::<(), LiquidityFlowError>(
            LiquidityFlowError::DivisionByZero,
        ),
{
    if !ctx.mev_protector.is_active {
        return Err(LiquidityFlowError::MevProtectorInactive);
    }
    check_slippage(expected_output, ctx.output_account.amount, ctx.mev_protector.max_slippage_bps)
}

/// On an active guard and a non-zero expectation, validation passes exactly
/// when `(observed - expected) * 10000 / expected`, rounded toward zero, is at
/// least the negated tolerance; otherwise it fails as slippage exceeded.
pub proof fn lemma_validation_rule(guard: MevProtector, expected: u64, observed: u64)
    requires
        guard.is_active,
        expected > 0,
    ensures
        validation_result(guard, expected, observed) is Ok <==> div_toward_zero(
            (observed - expected) * 10000,
            expected as int,
        ) >= -(guard.max_slippage_bps as int),
        validation_result(guard, expected, observed) is Err ==> validation_result(
            guard,
            expected,
            observed,
        ) == Err::<(), LiquidityFlowError>(LiquidityFlowError::SlippageExceeded),
{
}

/// An output at or above the expectation always passes an active guard.
pub proof fn lemma_excess_never_penalized(guard: MevProtector, expected: u64, observed: u64)
    requires
        guard.is_active,
        0 < expected <= observed,
    ensures
        validation_result(guard, expected, observed) is Ok,
{
    assert((observed - expected) * 10000 / (expected as int) >= 0) by (nonlinear_arith)
        requires
            expected > 0,
            observed >= expected,
    ;
}

} // verus!
