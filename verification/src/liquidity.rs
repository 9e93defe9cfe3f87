//! Pool tokens against reserves: deposits and withdrawals of both tokens in
//! proportion, and of one token alone.
//!
//! Every amount is rounded in the pool's favour: a deposit pays the share
//! rounded up, a withdrawal receives it rounded down, a one-sided deposit is
//! issued pool tokens rounded down and a one-sided withdrawal burns them
//! rounded up.

use vstd::prelude::*;
use crate::curve::{RoundDirection, TradeDirection};
use crate::error::SwapError;
use crate::math::{
    lemma_mul_div_bounds, mul_div_ceil, mul_div_ceil_spec, mul_div_floor, mul_div_floor_spec,
};
use crate::pool::SwapPool;

verus! {

/// An amount of each of the two tokens.
#[derive(Clone, Copy, Debug, PartialEq, Eq, Structural)]
pub struct TradingTokenResult {
    /// The amount of token A.
    pub token_a_amount: u64,
    /// The amount of token B.
    pub token_b_amount: u64,
}

/// What a deposit of both tokens takes and what the pool becomes.
#[derive(Clone, Copy, Debug, PartialEq, Eq, Structural)]
pub struct DepositResult {
    /// The token A that the depositor pays.
    pub token_a_amount: u64,
    /// The token B that the depositor pays.
    pub token_b_amount: u64,
    /// The pool tokens issued to the depositor.
    pub pool_token_amount: u64,
    /// The reserve of token A after the deposit.
    pub new_token_a_reserve: u64,
    /// The reserve of token B after the deposit.
    pub new_token_b_reserve: u64,
    /// The pool tokens outstanding after the deposit.
    pub new_pool_token_supply: u64,
}

/// What a withdrawal of both tokens gives and what the pool becomes.
#[derive(Clone, Copy, Debug, PartialEq, Eq, Structural)]
pub struct WithdrawResult {
    /// The token A that the withdrawer receives.
    pub token_a_amount: u64,
    /// The token B that the withdrawer receives.
    pub token_b_amount: u64,
    /// The pool tokens that are burned: those given up, less the owner's fee.
    pub pool_token_amount: u64,
    /// The pool tokens that pass to the owner as the withdrawal fee.
    pub owner_fee_pool_tokens: u64,
    /// The reserve of token A after the withdrawal.
    pub new_token_a_reserve: u64,
    /// The reserve of token B after the withdrawal.
    pub new_token_b_reserve: u64,
    /// The pool tokens outstanding after the withdrawal.
    pub new_pool_token_supply: u64,
}

/// What a deposit or withdrawal of one token alone moves and what the pool
/// becomes.
#[derive(Clone, Copy, Debug, PartialEq, Eq, Structural)]
pub struct SingleTokenResult {
    /// The amount of the one token that is paid in or out.
    pub token_amount: u64,
    /// The pool tokens issued for a deposit, or burned for a withdrawal.
    pub pool_token_amount: u64,
    /// The reserve of token A afterwards.
    pub new_token_a_reserve: u64,
    /// The reserve of token B afterwards.
    pub new_token_b_reserve: u64,
    /// The pool tokens outstanding afterwards.
    pub new_pool_token_supply: u64,
}

/// The part of `reserve` that `pool_tokens` out of `pool_token_supply` stand
/// for: `reserve * pool_tokens / pool_token_supply`, rounded as asked.
pub open spec fn reserve_share(
    reserve: nat,
    pool_tokens: nat,
    pool_token_supply: nat,
    round: RoundDirection,
) -> nat {
    match round {
        RoundDirection::Floor => mul_div_floor_spec(reserve, pool_tokens, pool_token_supply),
        RoundDirection::Ceiling => mul_div_ceil_spec(reserve, pool_tokens, pool_token_supply),
    }
}

/// The outcome of `pool_tokens_to_trading_tokens`.
pub open spec fn pool_tokens_to_trading_tokens_spec(
    pool_tokens: u64,
    pool_token_supply: u64,
    reserve_a: u64,
    reserve_b: u64,
    round: RoundDirection,
) -> Result<TradingTokenResult, SwapError> {
    let a = reserve_share(reserve_a as nat, pool_tokens as nat, pool_token_supply as nat, round);
    let b = reserve_share(reserve_b as nat, pool_tokens as nat, pool_token_supply as nat, round);
    if pool_token_supply == 0 {
        Err(SwapError::EmptySupply)
    } else if a > u64::MAX || b > u64::MAX {
        Err(SwapError::CalculationFailure)
    } else {
        Ok(TradingTokenResult { token_a_amount: a as u64, token_b_amount: b as u64 })
    }
}

/// The amounts of the two tokens that `pool_tokens` stand for: the same
/// share of each reserve as `pool_tokens` are of the supply, rounded as
/// asked.
///
/// Fails with `EmptySupply` when no pool tokens are outstanding, and with
/// `CalculationFailure` when an amount needs more than 64 bits.
pub fn pool_tokens_to_trading_tokens(
    pool_tokens: u64,
    pool_token_supply: u64,
    reserve_a: u64,
    reserve_b: u64,
    round: RoundDirection,
) -> (r: Result<TradingTokenResult, SwapError>)
    ensures
        r == pool_tokens_to_trading_tokens_spec(
            pool_tokens,
            pool_token_supply,
            reserve_a,
            reserve_b,
            round,
        ),
{
    if pool_token_supply == 0 {
        return Err(SwapError::EmptySupply);
    }
    let a: Option<u64> = match round {
        RoundDirection::Floor => mul_div_floor(reserve_a, pool_tokens, pool_token_supply),
        RoundDirection::Ceiling => mul_div_ceil(reserve_a, pool_tokens, pool_token_supply),
    };
    let b: Option<u64> = match round {
        RoundDirection::Floor => mul_div_floor(reserve_b, pool_tokens, pool_token_supply),
        RoundDirection::Ceiling => mul_div_ceil(reserve_b, pool_tokens, pool_token_supply),
    };
    match (a, b) {
        (Some(token_a_amount), Some(token_b_amount)) => Ok(
            TradingTokenResult { token_a_amount, token_b_amount },
        ),
        _ => Err(SwapError::CalculationFailure),
    }
}

/// The outcome of `deposit`.
pub open spec fn deposit_spec(
    pool: SwapPool,
    pool_token_amount: u64,
    maximum_token_a_amount: u64,
    maximum_token_b_amount: u64,
) -> Result<DepositResult, SwapError> {
    match pool.config.deposit_refusal() {
        Some(e) => Err(e),
        None => if pool_token_amount == 0 {
            Err(SwapError::ZeroTradingTokens)
        } else {
            match pool_tokens_to_trading_tokens_spec(
                pool_token_amount,
                pool.pool_token_supply,
                pool.token_a_reserve,
                pool.token_b_reserve,
                RoundDirection::Ceiling,
            ) {
                Err(e) => Err(e),
                Ok(tokens) => if tokens.token_a_amount == 0 && tokens.token_b_amount == 0 {
                    Err(SwapError::ZeroTradingTokens)
                } else if tokens.token_a_amount > maximum_token_a_amount || tokens.token_b_amount
                    > maximum_token_b_amount {
                    Err(SwapError::ExceedsMaxAmount)
                } else if pool.token_a_reserve + tokens.token_a_amount > u64::MAX
                    || pool.token_b_reserve + tokens.token_b_amount > u64::MAX
                    || pool.pool_token_supply + pool_token_amount > u64::MAX {
                    Err(SwapError::CalculationFailure)
                } else {
                    Ok(
                        DepositResult {
                            token_a_amount: tokens.token_a_amount,
                            token_b_amount: tokens.token_b_amount,
                            pool_token_amount,
                            new_token_a_reserve: (pool.token_a_reserve
                                + tokens.token_a_amount) as u64,
                            new_token_b_reserve: (pool.token_b_reserve
                                + tokens.token_b_amount) as u64,
                            new_pool_token_supply: (pool.pool_token_supply
                                + pool_token_amount) as u64,
                        },
                    )
                },
            }
        }
    }
}

/// Deposits both tokens in the proportion of the reserves, for exactly
/// `pool_token_amount` pool tokens. The depositor pays the share of each
/// reserve that the new pool tokens are of the supply, rounded up: never
/// less than the pool tokens are worth.
///
/// Fails with
/// - `WithdrawalsOnlyMode` in the withdrawals-only mode, else
///   `DepositsDisabled` when deposits are off;
/// - `ZeroTradingTokens` when no pool tokens are asked for or no tokens would
///   be paid;
/// - `EmptySupply` when no pool tokens are outstanding;
/// - `ExceedsMaxAmount` when either amount is above the depositor's maximum;
/// - `CalculationFailure` when an amount, a reserve or the supply leaves 64
///   bits.
pub fn deposit(
    pool: &SwapPool,
    pool_token_amount: u64,
    maximum_token_a_amount: u64,
    maximum_token_b_amount: u64,
) -> (r: Result<DepositResult, SwapError>)
    ensures
        r == deposit_spec(*pool, pool_token_amount, maximum_token_a_amount, maximum_token_b_amount),
        r matches Ok(done) ==> {
            &&& pool.config.can_deposit_spec()
            &&& done.pool_token_amount == pool_token_amount
            &&& done.token_a_amount <= maximum_token_a_amount
            &&& done.token_b_amount <= maximum_token_b_amount
            &&& done.new_token_a_reserve == pool.token_a_reserve + done.token_a_amount
            &&& done.new_token_b_reserve == pool.token_b_reserve + done.token_b_amount
            &&& done.new_pool_token_supply == pool.pool_token_supply + pool_token_amount
            &&& done.token_a_amount * pool.pool_token_supply >= pool.token_a_reserve
                * pool_token_amount
            &&& done.token_b_amount * pool.pool_token_supply >= pool.token_b_reserve
                * pool_token_amount
        },
{
    proof {
        if pool.pool_token_supply > 0 {
            lemma_mul_div_bounds(
                pool.token_a_reserve as nat,
                pool_token_amount as nat,
                pool.pool_token_supply as nat,
            );
            lemma_mul_div_bounds(
                pool.token_b_reserve as nat,
                pool_token_amount as nat,
                pool.pool_token_supply as nat,
            );
        }
    }
    match pool.config.check_deposit() {
        Err(e) => {
            return Err(e);
        },
        Ok(_) => {},
    }
    if pool_token_amount == 0 {
        return Err(SwapError::ZeroTradingTokens);
    }
    let tokens: TradingTokenResult = match pool_tokens_to_trading_tokens(
        pool_token_amount,
        pool.pool_token_supply,
        pool.token_a_reserve,
        pool.token_b_reserve,
        RoundDirection::Ceiling,
    ) {
        Ok(tokens) => tokens,
        Err(e) => {
            return Err(e);
        },
    };
    if tokens.token_a_amount == 0 && tokens.token_b_amount == 0 {
        return Err(SwapError::ZeroTradingTokens);
    }
    if tokens.token_a_amount > maximum_token_a_amount || tokens.token_b_amount
        > maximum_token_b_amount {
        return Err(SwapError::ExceedsMaxAmount);
    }
    let new_a: Option<u64> = pool.token_a_reserve.checked_add(tokens.token_a_amount);
    let new_b: Option<u64> = pool.token_b_reserve.checked_add(tokens.token_b_amount);
    let new_supply: Option<u64> = pool.pool_token_supply.checked_add(pool_token_amount);
    match (new_a, new_b, new_supply) {
        (Some(new_token_a_reserve), Some(new_token_b_reserve), Some(new_pool_token_supply)) => Ok(
            DepositResult {
                token_a_amount: tokens.token_a_amount,
                token_b_amount: tokens.token_b_amount,
                pool_token_amount,
                new_token_a_reserve,
                new_token_b_reserve,
                new_pool_token_supply,
            },
        ),
        _ => Err(SwapError::CalculationFailure),
    }
}

/// The outcome of `withdraw`.
pub open spec fn withdraw_spec(
    pool: SwapPool,
    pool_token_amount: u64,
    minimum_token_a_amount: u64,
    minimum_token_b_amount: u64,
) -> Result<WithdrawResult, SwapError> {
    if !pool.fees.is_valid() {
        Err(SwapError::InvalidFee)
    } else if pool_token_amount == 0 {
        Err(SwapError::ZeroTradingTokens)
    } else if pool_token_amount > pool.pool_token_supply {
        Err(SwapError::CalculationFailure)
    } else {
        let fee = pool.fees.owner_withdraw_fee_spec(pool_token_amount as nat);
        let burned = (pool_token_amount - fee) as u64;
        match pool_tokens_to_trading_tokens_spec(
            burned,
            pool.pool_token_supply,
            pool.token_a_reserve,
            pool.token_b_reserve,
            RoundDirection::Floor,
        ) {
            Err(e) => Err(e),
            Ok(tokens) => if tokens.token_a_amount == 0 && tokens.token_b_amount == 0 {
                Err(SwapError::ZeroTradingTokens)
            } else if tokens.token_a_amount < minimum_token_a_amount || tokens.token_b_amount
                < minimum_token_b_amount {
                Err(SwapError::ExceededSlippage)
            } else {
                Ok(
                    WithdrawResult {
                        token_a_amount: tokens.token_a_amount,
                        token_b_amount: tokens.token_b_amount,
                        pool_token_amount: burned,
                        owner_fee_pool_tokens: fee as u64,
                        new_token_a_reserve: (pool.token_a_reserve
                            - tokens.token_a_amount) as u64,
                        new_token_b_reserve: (pool.token_b_reserve
                            - tokens.token_b_amount) as u64,
                        new_pool_token_supply: (pool.pool_token_supply - burned) as u64,
                    },
                )
            },
        }
    }
}

/// A share of a reserve that is at most the whole supply's is at most the
/// reserve.
pub proof fn lemma_share_at_most_reserve(reserve: nat, pool_tokens: nat, pool_token_supply: nat)
    requires
        pool_tokens <= pool_token_supply,
        pool_token_supply > 0,
    ensures
        reserve_share(reserve, pool_tokens, pool_token_supply, RoundDirection::Floor) <= reserve,
{
    assert((reserve * pool_tokens) / pool_token_supply <= reserve) by (nonlinear_arith)
        requires
            pool_tokens <= pool_token_supply,
            pool_token_supply > 0,
    ;
}

/// Gives up `pool_token_amount` pool tokens for both tokens in the
/// proportion of the reserves. The owner's withdrawal fee is taken from the
/// pool tokens first; the rest is burned, and the withdrawer receives the
/// share of each reserve that the burned pool tokens are of the supply,
/// rounded down: never more than the pool tokens are worth. Withdrawals are
/// accepted whatever the switches say.
///
/// Fails with
/// - `InvalidFee` when a fee fraction is no fee;
/// - `ZeroTradingTokens` when no pool tokens are given up or no tokens would
///   be received;
/// - `CalculationFailure` when more pool tokens are given up than are
///   outstanding;
/// - `ExceededSlippage` when either amount is below the withdrawer's minimum.
pub fn withdraw(
    pool: &SwapPool,
    pool_token_amount: u64,
    minimum_token_a_amount: u64,
    minimum_token_b_amount: u64,
) -> (r: Result<WithdrawResult, SwapError>)
    ensures
        r == withdraw_spec(
            *pool,
            pool_token_amount,
            minimum_token_a_amount,
            minimum_token_b_amount,
        ),
        r matches Ok(done) ==> {
            &&& done.pool_token_amount + done.owner_fee_pool_tokens == pool_token_amount
            &&& done.token_a_amount >= minimum_token_a_amount
            &&& done.token_b_amount >= minimum_token_b_amount
            &&& done.new_token_a_reserve == pool.token_a_reserve - done.token_a_amount
            &&& done.new_token_b_reserve == pool.token_b_reserve - done.token_b_amount
            &&& done.new_pool_token_supply == pool.pool_token_supply - done.pool_token_amount
            &&& pool.fees.owner_withdraw_fee_numerator == 0 ==> done.owner_fee_pool_tokens == 0
            &&& done.token_a_amount * pool.pool_token_supply <= pool.token_a_reserve
                * done.pool_token_amount
            &&& done.token_b_amount * pool.pool_token_supply <= pool.token_b_reserve
                * done.pool_token_amount
        },
{
    match pool.config.check_withdraw() {
        Err(e) => {
            return Err(e);
        },
        Ok(_) => {},
    }
    if pool.fees.validate().is_err() {
        return Err(SwapError::InvalidFee);
    }
    if pool_token_amount == 0 {
        return Err(SwapError::ZeroTradingTokens);
    }
    if pool_token_amount > pool.pool_token_supply {
        return Err(SwapError::CalculationFailure);
    }
    let fee: u64 = match pool.fees.owner_withdraw_fee(pool_token_amount) {
        Ok(fee) => fee,
        Err(e) => {
            return Err(e);
        },
    };
    let burned: u64 = pool_token_amount - fee;
    let tokens: TradingTokenResult = match pool_tokens_to_trading_tokens(
        burned,
        pool.pool_token_supply,
        pool.token_a_reserve,
        pool.token_b_reserve,
        RoundDirection::Floor,
    ) {
        Ok(tokens) => tokens,
        Err(e) => {
            return Err(e);
        },
    };
    if tokens.token_a_amount == 0 && tokens.token_b_amount == 0 {
        return Err(SwapError::ZeroTradingTokens);
    }
    if tokens.token_a_amount < minimum_token_a_amount || tokens.token_b_amount
        < minimum_token_b_amount {
        return Err(SwapError::ExceededSlippage);
    }
    proof {
        lemma_mul_div_bounds(
            pool.token_a_reserve as nat,
            burned as nat,
            pool.pool_token_supply as nat,
        );
        lemma_mul_div_bounds(
            pool.token_b_reserve as nat,
            burned as nat,
            pool.pool_token_supply as nat,
        );
        lemma_share_at_most_reserve(
            pool.token_a_reserve as nat,
            burned as nat,
            pool.pool_token_supply as nat,
        );
        lemma_share_at_most_reserve(
            pool.token_b_reserve as nat,
            burned as nat,
            pool.pool_token_supply as nat,
        );
    }
    Ok(
        WithdrawResult {
            token_a_amount: tokens.token_a_amount,
            token_b_amount: tokens.token_b_amount,
            pool_token_amount: burned,
            owner_fee_pool_tokens: fee,
            new_token_a_reserve: pool.token_a_reserve - tokens.token_a_amount,
            new_token_b_reserve: pool.token_b_reserve - tokens.token_b_amount,
            new_pool_token_supply: pool.pool_token_supply - burned,
        },
    )
}

/// The outcome of `deposit_single_token_type`.
pub open spec fn deposit_single_token_type_spec(
    pool: SwapPool,
    source_amount: u64,
    direction: TradeDirection,
    minimum_pool_token_amount: u64,
) -> Result<SingleTokenResult, SwapError> {
    match pool.config.deposit_refusal() {
        Some(e) => Err(e),
        None => match pool.curve.deposit_single_token_type_spec(
            source_amount,
            pool.token_a_reserve,
            pool.token_b_reserve,
            pool.pool_token_supply,
            direction,
        ) {
            Err(e) => Err(e),
            Ok(pool_tokens) => if pool_tokens < minimum_pool_token_amount {
                Err(SwapError::ExceededSlippage)
            } else if pool.pool_token_supply + pool_tokens > u64::MAX {
                Err(SwapError::CalculationFailure)
            } else {
                Ok(
                    SingleTokenResult {
                        token_amount: source_amount,
                        pool_token_amount: pool_tokens,
                        new_token_a_reserve: if direction == TradeDirection::AtoB {
                            (pool.token_a_reserve + source_amount) as u64
                        } else {
                            pool.token_a_reserve
                        },
                        new_token_b_reserve: if direction == TradeDirection::AtoB {
                            pool.token_b_reserve
                        } else {
                            (pool.token_b_reserve + source_amount) as u64
                        },
                        new_pool_token_supply: (pool.pool_token_supply + pool_tokens) as u64,
                    },
                )
            },
        }
    }
}

/// Deposits `source_amount` of one token alone: token A for `AtoB`, token B
/// for `BtoA`. The pool tokens issued are the supply scaled by the growth of
/// the pool's value on its curve, rounded down.
///
/// Fails with `WithdrawalsOnlyMode` or `DepositsDisabled` as `deposit` does,
/// with whatever the curve's `deposit_single_token_type` fails with, with
/// `ExceededSlippage` when fewer than `minimum_pool_token_amount` pool tokens
/// would be issued, and with `CalculationFailure` when the supply leaves 64
/// bits.
pub fn deposit_single_token_type(
    pool: &SwapPool,
    source_amount: u64,
    direction: TradeDirection,
    minimum_pool_token_amount: u64,
) -> (r: Result<SingleTokenResult, SwapError>)
    ensures
        r == deposit_single_token_type_spec(
            *pool,
            source_amount,
            direction,
            minimum_pool_token_amount,
        ),
        r matches Ok(done) ==> pool.config.can_deposit_spec() && done.pool_token_amount
            >= minimum_pool_token_amount && done.pool_token_amount > 0,
{
    match pool.config.check_deposit() {
        Err(e) => {
            return Err(e);
        },
        Ok(_) => {},
    }
    let pool_tokens: u64 = match pool.curve.deposit_single_token_type(
        source_amount,
        pool.token_a_reserve,
        pool.token_b_reserve,
        pool.pool_token_supply,
        direction,
    ) {
        Ok(v) => v,
        Err(e) => {
            return Err(e);
        },
    };
    if pool_tokens < minimum_pool_token_amount {
        return Err(SwapError::ExceededSlippage);
    }
    let new_pool_token_supply: u64 = match pool.pool_token_supply.checked_add(pool_tokens) {
        Some(v) => v,
        None => {
            return Err(SwapError::CalculationFailure);
        },
    };
    let (new_token_a_reserve, new_token_b_reserve): (u64, u64) = match direction {
        TradeDirection::AtoB => (pool.token_a_reserve + source_amount, pool.token_b_reserve),
        TradeDirection::BtoA => (pool.token_a_reserve, pool.token_b_reserve + source_amount),
    };
    Ok(
        SingleTokenResult {
            token_amount: source_amount,
            pool_token_amount: pool_tokens,
            new_token_a_reserve,
            new_token_b_reserve,
            new_pool_token_supply,
        },
    )
}

/// The outcome of `withdraw_single_token_type_exact_out`.
pub open spec fn withdraw_single_token_type_exact_out_spec(
    pool: SwapPool,
    destination_amount: u64,
    direction: TradeDirection,
    maximum_pool_token_amount: u64,
) -> Result<SingleTokenResult, SwapError> {
    match pool.curve.withdraw_single_token_type_exact_out_spec(
        destination_amount,
        pool.token_a_reserve,
        pool.token_b_reserve,
        pool.pool_token_supply,
        direction,
        RoundDirection::Ceiling,
    ) {
        Err(e) => Err(e),
        Ok(pool_tokens) => if pool_tokens > maximum_pool_token_amount {
            Err(SwapError::ExceededSlippage)
        } else if pool_tokens > pool.pool_token_supply {
            Err(SwapError::CalculationFailure)
        } else {
            Ok(
                SingleTokenResult {
                    token_amount: destination_amount,
                    pool_token_amount: pool_tokens,
                    new_token_a_reserve: if direction == TradeDirection::AtoB {
                        (pool.token_a_reserve - destination_amount) as u64
                    } else {
                        pool.token_a_reserve
                    },
                    new_token_b_reserve: if direction == TradeDirection::AtoB {
                        pool.token_b_reserve
                    } else {
                        (pool.token_b_reserve - destination_amount) as u64
                    },
                    new_pool_token_supply: (pool.pool_token_supply - pool_tokens) as u64,
                },
            )
        },
    }
}

/// Withdraws exactly `destination_amount` of one token alone: token A for
/// `AtoB`, token B for `BtoA`. The pool tokens burned are the supply scaled
/// by the loss of the pool's value on its curve, rounded up. Withdrawals are
/// accepted whatever the switches say.
///
/// Fails with whatever the curve's `withdraw_single_token_type_exact_out`
/// fails with, with `ExceededSlippage` when more than
/// `maximum_pool_token_amount` pool tokens would be burned, and with
/// `CalculationFailure` when more would be burned than are outstanding.
pub fn withdraw_single_token_type_exact_out(
    pool: &SwapPool,
    destination_amount: u64,
    direction: TradeDirection,
    maximum_pool_token_amount: u64,
) -> (r: Result<SingleTokenResult, SwapError>)
    ensures
        r == withdraw_single_token_type_exact_out_spec(
            *pool,
            destination_amount,
            direction,
            maximum_pool_token_amount,
        ),
        r matches Ok(done) ==> 0 < done.pool_token_amount <= maximum_pool_token_amount,
{
    match pool.config.check_withdraw() {
        Err(e) => {
            return Err(e);
        },
        Ok(_) => {},
    }
    let pool_tokens: u64 = match pool.curve.withdraw_single_token_type_exact_out(
        destination_amount,
        pool.token_a_reserve,
        pool.token_b_reserve,
        pool.pool_token_supply,
        direction,
        RoundDirection::Ceiling,
    ) {
        Ok(v) => v,
        Err(e) => {
            return Err(e);
        },
    };
    if pool_tokens > maximum_pool_token_amount {
        return Err(SwapError::ExceededSlippage);
    }
    if pool_tokens > pool.pool_token_supply {
        return Err(SwapError::CalculationFailure);
    }
    let (new_token_a_reserve, new_token_b_reserve): (u64, u64) = match direction {
        TradeDirection::AtoB => (pool.token_a_reserve - destination_amount, pool.token_b_reserve),
        TradeDirection::BtoA => (pool.token_a_reserve, pool.token_b_reserve - destination_amount),
    };
    Ok(
        SingleTokenResult {
            token_amount: destination_amount,
            pool_token_amount: pool_tokens,
            new_token_a_reserve,
            new_token_b_reserve,
            new_pool_token_supply: pool.pool_token_supply - pool_tokens,
        },
    )
}

} // verus!
