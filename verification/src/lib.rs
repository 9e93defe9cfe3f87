//! Integer-only exchange mathematics for a two-token automated market maker.
//!
//! The crate prices swaps on a fixed-price curve and on an amplified stable
//! curve, takes trading, owner and host fees as exact fractions, and converts
//! between pool tokens and the reserves behind them. Every function is a
//! total function of its arguments: it returns new values and never touches
//! shared state. The module `laws` holds what is proved of the operations
//! taken together.

pub mod account;
pub mod error;
pub mod math;
pub mod fees;
pub mod stable;
pub mod curve;
pub mod config;
pub mod pool;
pub mod swap;
pub mod liquidity;
pub mod laws;

pub use account::pool_token_account_size;
pub use error::{ErrorClass, SwapError};
pub use fees::Fees;
pub use config::{
    update_pool_config, PoolConfig, UpdatePoolConfig, UpdatePoolConfigMode, UpdatePoolConfigValue,
};
pub use curve::{CurveParameters, RoundDirection, SwapOutput, TradeDirection};
pub use liquidity::{
    deposit, deposit_single_token_type, pool_tokens_to_trading_tokens, withdraw,
    withdraw_single_token_type_exact_out, DepositResult, SingleTokenResult, TradingTokenResult,
    WithdrawResult,
};
pub use pool::{initialize_pool, withdraw_fees, InitialSupply, SwapPool};
pub use swap::{swap, SwapResult};
