//! The swap executor: created once at its fixed location, then consulted before
//! every transfer. A swap is applied to staged balances and committed only
//! when every check passes, so a failed swap leaves both balances as they were.

use crate::state::{AccountKey, LiquidityFlowError, SwapExecutor, TokenAccount};
use vstd::prelude::*;

verus! {

/// The accounts that creating the swap executor touches.
pub struct Initialize {
    /// What is stored at the swap executor's location; `None` while nothing is.
    pub swap_executor: Option<SwapExecutor>,
    /// The identity that signs the creation and will own it.
    pub authority: AccountKey,
}

/// The accounts that a swap touches.
pub struct ExecuteSwap {
    pub swap_executor: SwapExecutor,
    pub from: TokenAccount,
    pub to: TokenAccount,
    /// The identity that signs the transfer out of `from`.
    pub authority: AccountKey,
}

/// The swap executor's location and the outcome after creation is attempted over `slot`.
pub open spec fn initialize_result(slot: Option<SwapExecutor>, authority: AccountKey) -> (
    Option<SwapExecutor>,
    Result<(), LiquidityFlowError>,
) {
    match slot {
        Some(_) => (slot, Err(LiquidityFlowError::AlreadyExists)),
        None => (Some(SwapExecutor { authority, is_active: true }), Ok(())),
    }
}

/// Creates the swap executor, active and owned by the signer; refuses a location that
/// already holds one.
pub fn initialize(ctx: &mut Initialize) -> (r: Result<(), LiquidityFlowError>)
    ensures
        (final(ctx).swap_executor, r) == initialize_result(
            old(ctx).swap_executor,
            old(ctx).authority,
        ),
        final(ctx).authority == old(ctx).authority,
        old(ctx).swap_executor is None ==> r is Ok && final(ctx).swap_executor == Some(
            SwapExecutor { authority: old(ctx).authority, is_active: true },
        ),
        old(ctx).swap_executor is Some ==> r == Err::<(), LiquidityFlowError>(
            LiquidityFlowError::AlreadyExists,
        ) && final(ctx).swap_executor == old(ctx).swap_executor,
{
    if ctx.swap_executor.is_some() {
        return Err(LiquidityFlowError::AlreadyExists);
    }
    ctx.swap_executor = Some(SwapExecutor { authority: ctx.authority, is_active: true });
    Ok(())
}

/// The transfer can be carried out: the source holds `amount` and the
/// destination's balance stays within range.
pub open spec fn transfer_possible(ctx: ExecuteSwap, amount: u64) -> bool {
    ctx.from.amount >= amount && ctx.to.amount + amount <= u64::MAX
}

/// Outcome of a swap of `amount` with floor `min_output` over `ctx`.
pub open spec fn swap_result(ctx: ExecuteSwap, amount: u64, min_output: u64) -> Result<
    (),
    LiquidityFlowError,
> {
    if !ctx.swap_executor.is_active {
        Err(LiquidityFlowError::SwapExecutorInactive)
    } else if !transfer_possible(ctx, amount) {
        Err(LiquidityFlowError::TransferFailed)
    } else if ctx.to.amount + amount < min_output {
        Err(LiquidityFlowError::SlippageExceeded)
    } else {
        Ok(())
    }
}

/// The accounts after that swap: `amount` moved when it succeeds, nothing changed otherwise.
pub open spec fn swap_accounts(ctx: ExecuteSwap, amount: u64, min_output: u64) -> ExecuteSwap {
    if swap_result(ctx, amount, min_output) is Ok {
        ExecuteSwap {
            from: TokenAccount { amount: (ctx.from.amount - amount) as u64 },
            to: TokenAccount { amount: (ctx.to.amount + amount) as u64 },
            ..ctx
        }
    } else {
        ctx
    }
}

/// Moves `amount` from `from` to `to` while the swap executor is active, and keeps the
/// move only if the destination then holds at least `min_output`.
pub fn execute_swap(ctx: &mut ExecuteSwap, amount: u64, min_output: u64) -> (r: Result<
    (),
    LiquidityFlowError,
>)
    ensures
        r == swap_result(*old(ctx), amount, min_output),
        *final(ctx) == swap_accounts(*old(ctx), amount, min_output),
{
    if !ctx.swap_executor.is_active {
        return Err(LiquidityFlowError::SwapExecutorInactive);
    }
    if ctx.from.amount < amount || u64::MAX - ctx.to.amount < amount {
        return Err(LiquidityFlowError::TransferFailed);
    }
    let staged_from = TokenAccount { amount: ctx.from.amount - amount };
    let staged_to = TokenAccount { amount: ctx.to.amount + amount };
    if staged_to.amount < min_output {
        return Err(LiquidityFlowError::SlippageExceeded);
    }
    ctx.from = staged_from;
    ctx.to = staged_to;
    Ok(())
}

/// On an active swap executor, a swap whose transfer can be carried out succeeds exactly
/// when the destination ends with at least `min_output`; it then moves exactly
/// `amount`, and otherwise no balance changes.
pub proof fn lemma_active_swap(ctx: ExecuteSwap, amount: u64, min_output: u64)
    requires
        ctx.swap_executor.is_active,
        transfer_possible(ctx, amount),
    ensures
        swap_result(ctx, amount, min_output) is Ok <==> ctx.to.amount + amount >= min_output,
        swap_result(ctx, amount, min_output) is Ok ==> {
            let after = swap_accounts(ctx, amount, min_output);
            &&& after.from.amount == ctx.from.amount - amount
            &&& after.to.amount == ctx.to.amount + amount
            &&& after.swap_executor == ctx.swap_executor
            &&& after.authority == ctx.authority
        },
        swap_result(ctx, amount, min_output) is Err ==> swap_accounts(ctx, amount, min_output)
            == ctx,
{
}

/// On an inactive swap executor every swap fails as inactive and no balance changes.
pub proof fn lemma_inactive_swap(ctx: ExecuteSwap, amount: u64, min_output: u64)
    requires
        !ctx.swap_executor.is_active,
    ensures
        swap_result(ctx, amount, min_output) == Err::<(), LiquidityFlowError>(
            LiquidityFlowError::SwapExecutorInactive,
        ),
        swap_accounts(ctx, amount, min_output) == ctx,
{
}

/// Creating the swap executor a second time at the same location fails as already
/// existing and leaves what the first creation stored.
pub proof fn lemma_initialize_twice(
    slot: Option<SwapExecutor>,
    first: AccountKey,
    second: AccountKey,
)
    ensures
        ({
            let (after_first, _) = initialize_result(slot, first);
            let (after_second, r) = initialize_result(after_first, second);
            r == Err::<(), LiquidityFlowError>(LiquidityFlowError::AlreadyExists) && after_second
                == after_first
        }),
{
}

} // verus!
