//! The typed errors of the calculation core.
//!
//! Every calculation function returns the first of these whose condition
//! holds, and computes nothing further; the contracts in [`crate::cp_amm`]
//! state exactly which error comes back on which inputs.

use vstd::prelude::*;

verus! {

/// Why a pool operation was refused.
#[derive(Clone, Copy, Debug, PartialEq, Eq, Structural)]
pub enum ErrorCode {
    /// The sum of the provider and protocol fee rates exceeds 10000 basis
    /// points.
    ConfigFeeRateExceeded,
    /// The pool's quote reserve is zero.
    QuoteLiquidityIsZero,
    /// The pool's base reserve is zero.
    BaseLiquidityIsZero,
    /// The pool's liquidity-token supply is zero.
    LpTokensSupplyIsZero,
    /// The pool has not been launched yet.
    CpAmmNotLaunched,
    /// The pool has not been initialized yet.
    CpAmmNotInitialized,
    /// The pool is already initialized.
    CpAmmAlreadyInitialized,
    /// The pool is already launched.
    CpAmmAlreadyLaunched,
    /// The provided quote liquidity is zero.
    ProvidedQuoteLiquidityIsZero,
    /// The provided base liquidity is zero.
    ProvidedBaseLiquidityIsZero,
    /// The provided liquidity-token amount is zero.
    ProvidedLpTokensIsZero,
    /// The swap amount is zero.
    SwapAmountIsZero,
    /// The estimated swap result is zero.
    EstimatedResultIsZero,
    /// The launch liquidity is too small against the permanently locked
    /// seed liquidity.
    LaunchLiquidityTooSmall,
    /// The calculated amount of liquidity tokens to mint is zero.
    LpTokensToMintIsZero,
    /// The base withdrawal amount is zero.
    BaseWithdrawAmountIsZero,
    /// The quote withdrawal amount is zero.
    QuoteWithdrawAmountIsZero,
    /// The swap amount left after fees is zero.
    PostfeeSwapAmountIsZero,
    /// The swap result is zero.
    SwapResultIsZero,
    /// The realized swap result deviates from the estimate beyond the
    /// allowed slippage.
    SwapSlippageExceeded,
    /// Arithmetic failed while providing liquidity.
    ProvideOverflowError,
    /// Arithmetic failed while withdrawing liquidity.
    WithdrawOverflowError,
    /// Arithmetic failed while swapping.
    SwapOverflowError,
    /// The withdrawal would drain the liquidity-token supply to zero.
    LpTokensLeftSupplyIsZero,
    /// The new quote reserve would be zero.
    NewQuoteLiquidityIsZero,
    /// The new base reserve would be zero.
    NewBaseLiquidityIsZero,
    /// The recomputed constant product deviates from the stored one beyond
    /// the tolerance.
    ConstantProductToleranceExceeded,
    /// The recomputed reserve ratio deviates from the stored one beyond the
    /// tolerance.
    LiquidityRatioToleranceExceeded,
    /// Both protocol fee accumulators are zero.
    ProvidersFeesIsZero,
}

} // verus!
