//! Swap execution behind an on/off switch, and a guard that bounds how far an
//! observed output may fall short of the expected one, in basis points.

pub mod mev;
pub mod slippage;
pub mod state;
pub mod swap;

pub use mev::{setup_mev_protection, validate_for_mev, SetupMevProtection, ValidateMev};
pub use slippage::{check_slippage, slippage_bps};
pub use state::{AccountKey, LiquidityFlowError, MevProtector, SwapExecutor, TokenAccount};
pub use swap::{execute_swap, initialize, ExecuteSwap, Initialize};
