//! Invariant-preserving calculation core of a two-asset automated market maker: curve
//! variants, the fee engine, the orchestration of swaps, deposits and withdrawals, and the
//! amounts behind each instruction. Nothing here moves tokens; it computes the amounts.

pub mod calculator;
pub mod constant_product;
pub mod error;
pub mod fees;
pub mod instructions;
pub mod laws;
pub mod math;
pub mod pool;
pub mod stable;
pub mod swap_curve;
pub mod types;
pub mod utils;

pub use calculator::CurveCalculator;
pub use constant_product::ConstantProductCurve;
pub use error::ErrorCode;
pub use fees::{calculate_fee, validate_fraction, Fees};
pub use instructions::{
    create_pool, deposit1, deposit2, swap, withdraw1, withdraw2, Deposit1Amounts, Deposit2Amounts, SwapAmounts,
    Withdraw1Amounts, Withdraw2Amounts,
};
pub use pool::{suspended, LPMint, Pool, PoolConfig};
pub use stable::StableCurve;
pub use swap_curve::{SwapCurve, SwapResult};
pub use types::{
    map_zero_to_none, RoundDirection, SwapWithoutFeesResult, TradeDirection, TradingTokenResult,
    INITIAL_SWAP_POOL_AMOUNT,
};
pub use utils::{to_u128, to_u64, Pubkey, PubkeyPairExt, TupleExt};
