//! The durable records and the error type shared by both components.

use vstd::prelude::*;

verus! {

/// A 32-byte account identity.
#[derive(Clone, Copy, Debug, PartialEq, Eq)]
pub struct AccountKey {
    pub bytes: [u8; 32],
}

/// What the logic reads of a token account: the balance it holds.
#[derive(Clone, Copy, Debug, PartialEq, Eq)]
pub struct TokenAccount {
    pub amount: u64,
}

/// The switch that allows or refuses swaps.
#[derive(Clone, Copy, Debug, PartialEq, Eq)]
pub struct SwapExecutor {
    pub authority: AccountKey,
    pub is_active: bool,
}

/// The guard that bounds the adverse deviation of an observed output.
#[derive(Clone, Copy, Debug, PartialEq, Eq)]
pub struct MevProtector {
    pub authority: AccountKey,
    pub max_slippage_bps: u16,
    pub is_active: bool,
}

/// Stored size of a `SwapExecutor`: the authority and the flag.
pub const SWAP_EXECUTOR_LEN: usize = 33;

/// Stored size of a `MevProtector`: the authority, the tolerance and the flag.
pub const MEV_PROTECTOR_LEN: usize = 35;

#[derive(Clone, Copy, Debug, PartialEq, Eq, Structural)]
pub enum LiquidityFlowError {
    /// A record is already stored at the location being initialized.
    AlreadyExists,
    SwapExecutorInactive,
    MevProtectorInactive,
    /// The output fell below the caller's floor or tolerance.
    SlippageExceeded,
    /// The expected output given for a ratio was zero.
    DivisionByZero,
    /// The token transfer could not be carried out.
    TransferFailed,
}

impl LiquidityFlowError {
    /// The human-readable message that goes with each error.
    pub fn message(&self) -> (r: &'static str)
        ensures
            *self == LiquidityFlowError::AlreadyExists ==> r@ == "Account already exists"@,
            *self == LiquidityFlowError::SwapExecutorInactive ==> r@ == "Swap executor is inactive"@,
            *self == LiquidityFlowError::MevProtectorInactive ==> r@ == "MEV protector is inactive"@,
            *self == LiquidityFlowError::SlippageExceeded ==> r@ == "Slippage exceeded"@,
            *self == LiquidityFlowError::DivisionByZero ==> r@ == "Division by zero"@,
            *self == LiquidityFlowError::TransferFailed ==> r@ == "Token transfer failed"@,
    {
        match self {
            LiquidityFlowError::AlreadyExists => "Account already exists",
            LiquidityFlowError::SwapExecutorInactive => "Swap executor is inactive",
            LiquidityFlowError::MevProtectorInactive => "MEV protector is inactive",
            LiquidityFlowError::SlippageExceeded => "Slippage exceeded",
            LiquidityFlowError::DivisionByZero => "Division by zero",
            LiquidityFlowError::TransferFailed => "Token transfer failed",
        }
    }
}

} // verus!
