//! A pool as the exchange mathematics sees it: its curve, fees and switches,
//! the two reserves and the pool tokens outstanding.

use vstd::prelude::*;
use crate::config::PoolConfig;
use crate::curve::{CurveParameters, TradeDirection};
use crate::error::SwapError;
use crate::fees::Fees;

verus! {

/// The pool tokens issued for the first deposit into a pool.
pub const INITIAL_POOL_TOKEN_SUPPLY: u64 = 1_000_000_000;

/// The amounts of the two tokens that the creator of a pool puts in.
#[derive(Clone, Copy, Debug, PartialEq, Eq, Structural)]
pub struct InitialSupply {
    /// The first deposit of token A.
    pub initial_supply_a: u64,
    /// The first deposit of token B.
    pub initial_supply_b: u64,
}

impl InitialSupply {
    /// The pair of first deposits.
    pub fn new(initial_supply_a: u64, initial_supply_b: u64) -> (supply: InitialSupply)
        ensures
            supply.initial_supply_a == initial_supply_a,
            supply.initial_supply_b == initial_supply_b,
    {
        InitialSupply { initial_supply_a, initial_supply_b }
    }
}

/// A snapshot of a pool. The operations of this crate read one and return
/// what changes; they never change it themselves.
#[derive(Clone, Copy, Debug, PartialEq, Eq, Structural)]
pub struct SwapPool {
    /// The pricing curve, fixed when the pool is created.
    pub curve: CurveParameters,
    /// The fee fractions.
    pub fees: Fees,
    /// The switches that gate the operations.
    pub config: PoolConfig,
    /// The pool's holding of token A.
    pub token_a_reserve: u64,
    /// The pool's holding of token B.
    pub token_b_reserve: u64,
    /// The pool tokens outstanding.
    pub pool_token_supply: u64,
}

impl SwapPool {
    /// The curve and the fees are valid.
    pub open spec fn is_valid(&self) -> bool {
        self.curve.is_valid() && self.fees.is_valid()
    }

    /// The reserve that a trade in `direction` adds to.
    pub open spec fn source_reserve_spec(&self, direction: TradeDirection) -> u64 {
        match direction {
            TradeDirection::AtoB => self.token_a_reserve,
            TradeDirection::BtoA => self.token_b_reserve,
        }
    }

    /// The reserve that a trade in `direction` takes from.
    pub open spec fn destination_reserve_spec(&self, direction: TradeDirection) -> u64 {
        match direction {
            TradeDirection::AtoB => self.token_b_reserve,
            TradeDirection::BtoA => self.token_a_reserve,
        }
    }

    /// The reserve that a trade in `direction` adds to.
    pub fn source_reserve(&self, direction: TradeDirection) -> (reserve: u64)
        ensures
            reserve == self.source_reserve_spec(direction),
    {
        match direction {
            TradeDirection::AtoB => self.token_a_reserve,
            TradeDirection::BtoA => self.token_b_reserve,
        }
    }

    /// The reserve that a trade in `direction` takes from.
    pub fn destination_reserve(&self, direction: TradeDirection) -> (reserve: u64)
        ensures
            reserve == self.destination_reserve_spec(direction),
    {
        match direction {
            TradeDirection::AtoB => self.token_b_reserve,
            TradeDirection::BtoA => self.token_a_reserve,
        }
    }

    /// Checks the curve, then the fees.
    pub fn validate(&self) -> (r: Result<(), SwapError>)
        ensures
            r == self.validity(),
            r.is_ok() <==> self.is_valid(),
    {
        if self.curve.validate().is_err() {
            Err(SwapError::InvalidCurve)
        } else if self.fees.validate().is_err() {
            Err(SwapError::InvalidFee)
        } else {
            Ok(())
        }
    }

    /// The outcome of `validate`: `InvalidCurve` for a zero curve parameter,
    /// else `InvalidFee` for a fraction that is no fee.
    pub open spec fn validity(&self) -> Result<(), SwapError> {
        if !self.curve.is_valid() {
            Err(SwapError::InvalidCurve)
        } else if !self.fees.is_valid() {
            Err(SwapError::InvalidFee)
        } else {
            Ok(())
        }
    }
}

/// The outcome of `initialize_pool`.
pub open spec fn initialize_pool_spec(
    curve_parameters: CurveParameters,
    fees: Fees,
    initial_supply_a: u64,
    initial_supply_b: u64,
) -> Result<SwapPool, SwapError> {
    if !curve_parameters.is_valid() {
        Err(SwapError::InvalidCurve)
    } else if !fees.is_valid() {
        Err(SwapError::InvalidFee)
    } else if initial_supply_a == 0 || initial_supply_b == 0 {
        Err(SwapError::EmptySupply)
    } else {
        Ok(
            SwapPool {
                curve: curve_parameters,
                fees,
                config: PoolConfig {
                    trading_disabled: false,
                    deposits_disabled: false,
                    withdrawals_only: false,
                },
                token_a_reserve: initial_supply_a,
                token_b_reserve: initial_supply_b,
                pool_token_supply: INITIAL_POOL_TOKEN_SUPPLY,
            },
        )
    }
}

/// Creates a pool from its curve, its fees and the creator's first deposit.
///
/// No price exists yet that a ratio could keep, so the declared amounts
/// become the reserves as they are, and `INITIAL_POOL_TOKEN_SUPPLY` pool
/// tokens stand for them. Every operation is accepted in the new pool.
///
/// Fails with `InvalidCurve` on a zero curve parameter, with `InvalidFee` on
/// a fraction that is no fee, and with `EmptySupply` when either amount is
/// zero.
pub fn initialize_pool(
    curve_parameters: CurveParameters,
    fees: Fees,
    initial_supply_a: u64,
    initial_supply_b: u64,
) -> (r: Result<SwapPool, SwapError>)
    ensures
        r == initialize_pool_spec(curve_parameters, fees, initial_supply_a, initial_supply_b),
        r matches Ok(pool) ==> pool.is_valid() && pool.config.can_swap_spec()
            && pool.config.can_deposit_spec(),
{
    if curve_parameters.validate().is_err() {
        return Err(SwapError::InvalidCurve);
    }
    if fees.validate().is_err() {
        return Err(SwapError::InvalidFee);
    }
    let supply: InitialSupply = InitialSupply::new(initial_supply_a, initial_supply_b);
    if supply.initial_supply_a == 0 || supply.initial_supply_b == 0 {
        return Err(SwapError::EmptySupply);
    }
    Ok(
        SwapPool {
            curve: curve_parameters,
            fees,
            config: PoolConfig::default(),
            token_a_reserve: supply.initial_supply_a,
            token_b_reserve: supply.initial_supply_b,
            pool_token_supply: INITIAL_POOL_TOKEN_SUPPLY,
        },
    )
}

/// What `withdraw_fees` pays out and what it leaves.
#[derive(Clone, Copy, Debug, PartialEq, Eq, Structural)]
pub struct WithdrawFeesResult {
    /// What leaves the fee vault.
    pub withdrawn_amount: u64,
    /// What stays in the fee vault.
    pub remaining_amount: u64,
}

/// The outcome of `withdraw_fees`.
pub open spec fn withdraw_fees_spec(fees_vault_amount: u64, requested_amount: u64) -> Result<
    WithdrawFeesResult,
    SwapError,
> {
    let withdrawn = if requested_amount <= fees_vault_amount {
        requested_amount
    } else {
        fees_vault_amount
    };
    if withdrawn == 0 {
        Err(SwapError::ZeroTradingTokens)
    } else {
        Ok(
            WithdrawFeesResult {
                withdrawn_amount: withdrawn,
                remaining_amount: (fees_vault_amount - withdrawn) as u64,
            },
        )
    }
}

/// Pays collected fees out of a fee vault: the requested amount, or all that
/// the vault holds where it holds less.
///
/// Fails with `ZeroTradingTokens` when nothing is requested or the vault is
/// empty.
pub fn withdraw_fees(fees_vault_amount: u64, requested_amount: u64) -> (r: Result<
    WithdrawFeesResult,
    SwapError,
>)
    ensures
        r == withdraw_fees_spec(fees_vault_amount, requested_amount),
        r matches Ok(paid) ==> paid.withdrawn_amount + paid.remaining_amount == fees_vault_amount
            && paid.withdrawn_amount <= requested_amount,
{
    let withdrawn: u64 = if requested_amount <= fees_vault_amount {
        requested_amount
    } else {
        fees_vault_amount
    };
    if withdrawn == 0 {
        Err(SwapError::ZeroTradingTokens)
    } else {
        Ok(
            WithdrawFeesResult {
                withdrawn_amount: withdrawn,
                remaining_amount: fees_vault_amount - withdrawn,
            },
        )
    }
}

} // verus!
