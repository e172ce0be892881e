//! Relative deviation of an observed output from an expected one, in basis
//! points, and the tolerance rule built on it.

use crate::state::LiquidityFlowError;
use vstd::prelude::*;

verus! {

/// `n / d` rounded toward zero, as machine integer division rounds.
pub open spec fn div_toward_zero(n: int, d: int) -> int
    recommends
        d > 0,
{
    if n >= 0 {
        n / d
    } else {
        -((-n) / d)
    }
}

/// Signed deviation of `observed` from `expected`, in basis points of `expected`.
pub open spec fn deviation_bps(expected: int, observed: int) -> int
    recommends
        expected > 0,
{
    div_toward_zero((observed - expected) * 10000, expected)
}

/// The observed output falls short of the expected one by no more than the tolerance.
pub open spec fn within_tolerance(expected: int, observed: int, max_adverse_bps: int) -> bool {
    deviation_bps(expected, observed) >= -max_adverse_bps
}

/// Outcome of holding `observed` against `expected` under a tolerance.
pub open spec fn slippage_verdict(expected: u64, observed: u64, max_adverse_bps: u16) -> Result<
    (),
    LiquidityFlowError,
> {
    if expected == 0 {
        Err(LiquidityFlowError::DivisionByZero)
    } else if within_tolerance(expected as int, observed as int, max_adverse_bps as int) {
        Ok(())
    } else {
        Err(LiquidityFlowError::SlippageExceeded)
    }
}

proof fn lemma_scaled_quotient_bound(diff: nat, d: nat)
    requires
        d > 0,
    ensures
        diff * 10000 / d <= diff * 10000,
{
    assert(diff * 10000 / d <= diff * 10000) by (nonlinear_arith)
        requires
            d > 0,
    ;
}

/// Deviation of `actual_output` from `expected_output` in basis points, rounded
/// toward zero; negative when the output falls short.
pub fn slippage_bps(expected_output: u64, actual_output: u64) -> (r: i128)
    requires
        expected_output > 0,
    ensures
        r == deviation_bps(expected_output as int, actual_output as int),
{
    let e = expected_output as u128;
    let a = actual_output as u128;
    if a >= e {
        proof {
            lemma_scaled_quotient_bound((a - e) as nat, e as nat);
        }
        let q: u128 = (a - e) * 10000 / e;
        q as i128
    } else {
        proof {
            lemma_scaled_quotient_bound((e - a) as nat, e as nat);
        }
        let q: u128 = (e - a) * 10000 / e;
        -(q as i128)
    }
}

/// Holds `actual_output` against `expected_output`: a shortfall of more than
/// `max_slippage_bps` basis points fails; any excess passes.
pub fn check_slippage(expected_output: u64, actual_output: u64, max_slippage_bps: u16) -> (r:
    Result<(), LiquidityFlowError>)
    ensures
        r == slippage_verdict(expected_output, actual_output, max_slippage_bps),
        expected_output == 0 ==> r == Err::<(), LiquidityFlowError>(
            LiquidityFlowError::DivisionByZero,
        ),
        expected_output > 0 ==> (r is Ok <==> deviation_bps(expected_output as int, actual_output as int) >= -(
        max_slippage_bps as int)),
        actual_output >= expected_output > 0 ==> r is Ok,
{
    if expected_output == 0 {
        return Err(LiquidityFlowError::DivisionByZero);
    }
    let bps = slippage_bps(expected_output, actual_output);
    if bps >= -(max_slippage_bps as i128) {
        Ok(())
    } else {
        Err(LiquidityFlowError::SlippageExceeded)
    }
}

} // verus!
