//! The pricing curves: what a trade gives, and what a one-sided deposit or
//! withdrawal is worth in pool tokens.

use vstd::prelude::*;
use crate::error::SwapError;
use crate::math::{
    lemma_ceil_floor, lemma_mul_div_bounds, lemma_product_fits, mul_div_ceil_spec,
    mul_div_floor_spec,
};
use crate::stable::{compute_d, compute_new_reserve, invariant_spec, new_reserve_spec};

verus! {

/// Which token enters the pool.
#[derive(Clone, Copy, Debug, PartialEq, Eq, Structural)]
pub enum TradeDirection {
    /// Token A is given, token B is received.
    AtoB,
    /// Token B is given, token A is received.
    BtoA,
}

/// Which way a quotient is rounded.
#[derive(Clone, Copy, Debug, PartialEq, Eq, Structural)]
pub enum RoundDirection {
    /// Towards zero.
    Floor,
    /// Away from zero.
    Ceiling,
}

/// The curve of a pool, chosen when the pool is created.
#[derive(Clone, Copy, Debug, PartialEq, Eq, Structural)]
pub enum CurveParameters {
    /// One token B is always worth `token_b_price` tokens A.
    ConstantPrice { token_b_price: u64 },
    /// The stable curve with the given amplification factor.
    Stable { amplification: u64 },
}

/// What a trade on the bare curve does, fees aside.
#[derive(Clone, Copy, Debug, PartialEq, Eq, Structural)]
pub struct SwapOutput {
    /// What the trader receives.
    pub destination_amount: u64,
    /// The reserve of the token that came in, after the trade.
    pub new_reserve_in: u64,
    /// The reserve of the token that went out, after the trade.
    pub new_reserve_out: u64,
}

/// The pool tokens that stand for a change of `value_change` in a pool worth
/// `value` with `pool_supply` tokens outstanding:
/// `pool_supply * value_change / value`, rounded as asked.
pub open spec fn pool_tokens_for_value(
    pool_supply: nat,
    value_change: nat,
    value: nat,
    round: RoundDirection,
) -> nat {
    match round {
        RoundDirection::Floor => mul_div_floor_spec(pool_supply, value_change, value),
        RoundDirection::Ceiling => mul_div_ceil_spec(pool_supply, value_change, value),
    }
}

/// The outcome of `trading_tokens_to_pool_tokens`.
pub open spec fn trading_tokens_to_pool_tokens_spec(
    pool_supply: nat,
    value_change: nat,
    value: nat,
    round: RoundDirection,
) -> Result<u64, SwapError> {
    let pool_tokens = pool_tokens_for_value(pool_supply, value_change, value, round);
    if value == 0 || pool_supply * value_change > u128::MAX || pool_tokens > u64::MAX {
        Err(SwapError::CalculationFailure)
    } else if pool_tokens == 0 {
        Err(SwapError::ZeroTradingTokens)
    } else {
        Ok(pool_tokens as u64)
    }
}

/// Scales the pool-token supply by the ratio of a change in the pool's value
/// to that value.
///
/// Fails with `CalculationFailure` when the pool is worth nothing, the
/// product leaves 128 bits or the result leaves 64 bits, and with
/// `ZeroTradingTokens` when the result is zero.
pub fn trading_tokens_to_pool_tokens(
    pool_supply: u64,
    value_change: u128,
    value: u128,
    round: RoundDirection,
) -> (r: Result<u64, SwapError>)
    ensures
        r == trading_tokens_to_pool_tokens_spec(
            pool_supply as nat,
            value_change as nat,
            value as nat,
            round,
        ),
        r matches Ok(pool_tokens) ==> match round {
            RoundDirection::Floor => pool_tokens * value <= pool_supply * value_change,
            RoundDirection::Ceiling => pool_tokens * value >= pool_supply * value_change,
        },
{
    proof {
        if value > 0 {
            lemma_mul_div_bounds(pool_supply as nat, value_change as nat, value as nat);
        }
    }
    if value == 0 {
        return Err(SwapError::CalculationFailure);
    }
    let product: u128 = match (pool_supply as u128).checked_mul(value_change) {
        Some(v) => v,
        None => {
            return Err(SwapError::CalculationFailure);
        },
    };
    let floor: u128 = product / value;
    proof {
        lemma_ceil_floor(pool_supply as nat, value_change as nat, value as nat);
    }
    let exact: bool = product % value == 0;
    if floor > u64::MAX as u128 {
        return Err(SwapError::CalculationFailure);
    }
    let pool_tokens: u128 = match round {
        RoundDirection::Floor => floor,
        RoundDirection::Ceiling => if exact {
            floor
        } else {
            floor + 1
        },
    };
    if pool_tokens > u64::MAX as u128 {
        Err(SwapError::CalculationFailure)
    } else if pool_tokens == 0 {
        Err(SwapError::ZeroTradingTokens)
    } else {
        Ok(pool_tokens as u64)
    }
}

impl CurveParameters {
    /// The parameter of the curve is positive.
    pub open spec fn is_valid(&self) -> bool {
        match *self {
            CurveParameters::ConstantPrice { token_b_price } => token_b_price > 0,
            CurveParameters::Stable { amplification } => amplification > 0,
        }
    }

    /// What the bare curve gives for `source_amount`, before it is held
    /// against the reserve.
    pub open spec fn destination_spec(
        &self,
        source_amount: nat,
        reserve_in: nat,
        reserve_out: nat,
        direction: TradeDirection,
    ) -> Result<nat, SwapError> {
        match *self {
            CurveParameters::ConstantPrice { token_b_price } => match direction {
                TradeDirection::AtoB => Ok(source_amount / (token_b_price as nat)),
                TradeDirection::BtoA => Ok(source_amount * (token_b_price as nat)),
            },
            CurveParameters::Stable { amplification } => match invariant_spec(
                amplification as nat,
                reserve_in,
                reserve_out,
            ) {
                None => Err(SwapError::CalculationFailure),
                Some(d) => match new_reserve_spec(
                    amplification as nat,
                    reserve_in + source_amount,
                    d,
                ) {
                    None => Err(SwapError::CalculationFailure),
                    Some(y) => if y >= reserve_out {
                        Ok(0)
                    } else {
                        Ok((reserve_out - y) as nat)
                    },
                },
            },
        }
    }

    /// The outcome of `swap`.
    pub open spec fn swap_spec(
        &self,
        source_amount: u64,
        reserve_in: u64,
        reserve_out: u64,
        direction: TradeDirection,
    ) -> Result<SwapOutput, SwapError> {
        if !self.is_valid() {
            Err(SwapError::InvalidCurve)
        } else if source_amount == 0 {
            Err(SwapError::ZeroTradingTokens)
        } else if reserve_in + source_amount > u64::MAX {
            Err(SwapError::CalculationFailure)
        } else {
            match self.destination_spec(
                source_amount as nat,
                reserve_in as nat,
                reserve_out as nat,
                direction,
            ) {
                Err(e) => Err(e),
                Ok(destination) => if destination == 0 {
                    Err(SwapError::ZeroTradingTokens)
                } else if destination > reserve_out {
                    Err(SwapError::CalculationFailure)
                } else {
                    Ok(
                        SwapOutput {
                            destination_amount: destination as u64,
                            new_reserve_in: (reserve_in + source_amount) as u64,
                            new_reserve_out: (reserve_out - destination) as u64,
                        },
                    )
                },
            }
        }
    }

    /// What the pool is worth to the curve: the reserves in units of token A
    /// at the fixed price, or the invariant `D` of the stable curve.
    pub open spec fn value_spec(&self, reserve_a: nat, reserve_b: nat) -> Option<nat> {
        match *self {
            CurveParameters::ConstantPrice { token_b_price } => Some(
                reserve_a + reserve_b * (token_b_price as nat),
            ),
            CurveParameters::Stable { amplification } => invariant_spec(
                amplification as nat,
                reserve_a,
                reserve_b,
            ),
        }
    }

    /// The outcome of `deposit_single_token_type`.
    pub open spec fn deposit_single_token_type_spec(
        &self,
        source_amount: u64,
        reserve_a: u64,
        reserve_b: u64,
        pool_supply: u64,
        direction: TradeDirection,
    ) -> Result<u64, SwapError> {
        let new_a = if direction == TradeDirection::AtoB {
            reserve_a + source_amount
        } else {
            reserve_a as int
        };
        let new_b = if direction == TradeDirection::AtoB {
            reserve_b as int
        } else {
            reserve_b + source_amount
        };
        if !self.is_valid() {
            Err(SwapError::InvalidCurve)
        } else if source_amount == 0 {
            Err(SwapError::ZeroTradingTokens)
        } else if new_a > u64::MAX || new_b > u64::MAX {
            Err(SwapError::CalculationFailure)
        } else {
            match (
                self.value_spec(reserve_a as nat, reserve_b as nat),
                self.value_spec(new_a as nat, new_b as nat),
            ) {
                (Some(before), Some(after)) => if after < before {
                    Err(SwapError::CalculationFailure)
                } else {
                    trading_tokens_to_pool_tokens_spec(
                        pool_supply as nat,
                        (after - before) as nat,
                        before,
                        RoundDirection::Floor,
                    )
                },
                _ => Err(SwapError::CalculationFailure),
            }
        }
    }

    /// The outcome of `withdraw_single_token_type_exact_out`.
    pub open spec fn withdraw_single_token_type_exact_out_spec(
        &self,
        destination_amount: u64,
        reserve_a: u64,
        reserve_b: u64,
        pool_supply: u64,
        direction: TradeDirection,
        round: RoundDirection,
    ) -> Result<u64, SwapError> {
        let new_a = if direction == TradeDirection::AtoB {
            reserve_a - destination_amount
        } else {
            reserve_a as int
        };
        let new_b = if direction == TradeDirection::AtoB {
            reserve_b as int
        } else {
            reserve_b - destination_amount
        };
        if !self.is_valid() {
            Err(SwapError::InvalidCurve)
        } else if destination_amount == 0 {
            Err(SwapError::ZeroTradingTokens)
        } else if new_a < 0 || new_b < 0 {
            Err(SwapError::CalculationFailure)
        } else {
            match (
                self.value_spec(reserve_a as nat, reserve_b as nat),
                self.value_spec(new_a as nat, new_b as nat),
            ) {
                (Some(before), Some(after)) => if before < after {
                    Err(SwapError::CalculationFailure)
                } else {
                    trading_tokens_to_pool_tokens_spec(
                        pool_supply as nat,
                        (before - after) as nat,
                        before,
                        round,
                    )
                },
                _ => Err(SwapError::CalculationFailure),
            }
        }
    }

    /// Accepts the curve exactly when its parameter is positive.
    pub fn validate(&self) -> (r: Result<(), SwapError>)
        ensures
            r.is_ok() <==> self.is_valid(),
            r matches Err(e) ==> e == SwapError::InvalidCurve,
    {
        let positive: bool = match *self {
            CurveParameters::ConstantPrice { token_b_price } => token_b_price > 0,
            CurveParameters::Stable { amplification } => amplification > 0,
        };
        if positive {
            Ok(())
        } else {
            Err(SwapError::InvalidCurve)
        }
    }

    /// What the bare curve gives for `source_amount`, or why it gives
    /// nothing. The amount may exceed 64 bits on a fixed-price curve.
    fn destination(
        &self,
        source_amount: u64,
        reserve_in: u64,
        reserve_out: u64,
        direction: TradeDirection,
    ) -> (r: Result<u128, SwapError>)
        requires
            self.is_valid(),
            reserve_in + source_amount <= u64::MAX,
        ensures
            r matches Ok(v) ==> self.destination_spec(
                source_amount as nat,
                reserve_in as nat,
                reserve_out as nat,
                direction,
            ) == Ok::<nat, SwapError>(v as nat),
            r matches Err(e) ==> self.destination_spec(
                source_amount as nat,
                reserve_in as nat,
                reserve_out as nat,
                direction,
            ) == Err::<nat, SwapError>(e),
    {
        match *self {
            CurveParameters::ConstantPrice { token_b_price } => match direction {
                TradeDirection::AtoB => Ok((source_amount / token_b_price) as u128),
                TradeDirection::BtoA => {
                    proof {
                        lemma_product_fits(source_amount, token_b_price);
                    }
                    Ok((source_amount as u128) * (token_b_price as u128))
                },
            },
            CurveParameters::Stable { amplification } => {
                let d: u128 = match compute_d(amplification, reserve_in, reserve_out) {
                    Some(d) => d,
                    None => {
                        return Err(SwapError::CalculationFailure);
                    },
                };
                let y: u128 = match compute_new_reserve(
                    amplification,
                    reserve_in + source_amount,
                    d,
                ) {
                    Some(y) => y,
                    None => {
                        return Err(SwapError::CalculationFailure);
                    },
                };
                if y >= reserve_out as u128 {
                    Ok(0)
                } else {
                    Ok(reserve_out as u128 - y)
                }
            },
        }
    }

    /// Trades `source_amount` against the reserves on the bare curve.
    ///
    /// On a fixed-price curve the trader receives `source_amount /
    /// token_b_price` tokens B for tokens A, rounded down, and `source_amount
    /// * token_b_price` tokens A for tokens B. On the stable curve the trader
    /// receives what the reserve of the other token can lose while the
    /// invariant of the reserves is kept, rounded down; nothing, where the
    /// reserve cannot lose a whole token.
    ///
    /// Fails with `InvalidCurve` on a zero parameter, with
    /// `ZeroTradingTokens` when nothing is given or nothing would be
    /// received, and with `CalculationFailure` when the solver fails, the new
    /// reserve leaves 64 bits, or the trade asks for more than the reserve
    /// holds. What is received never exceeds the reserve.
    pub fn swap(
        &self,
        source_amount: u64,
        reserve_in: u64,
        reserve_out: u64,
        direction: TradeDirection,
    ) -> (r: Result<SwapOutput, SwapError>)
        ensures
            r == self.swap_spec(source_amount, reserve_in, reserve_out, direction),
            r matches Ok(out) ==> {
                &&& 0 < out.destination_amount <= reserve_out
                &&& out.new_reserve_in == reserve_in + source_amount
                &&& out.new_reserve_out == reserve_out - out.destination_amount
            },
    {
        if self.validate().is_err() {
            return Err(SwapError::InvalidCurve);
        }
        if source_amount == 0 {
            return Err(SwapError::ZeroTradingTokens);
        }
        if source_amount > u64::MAX - reserve_in {
            return Err(SwapError::CalculationFailure);
        }
        let destination: u128 = match self.destination(
            source_amount,
            reserve_in,
            reserve_out,
            direction,
        ) {
            Ok(v) => v,
            Err(e) => {
                return Err(e);
            },
        };
        if destination == 0 {
            Err(SwapError::ZeroTradingTokens)
        } else if destination > reserve_out as u128 {
            Err(SwapError::CalculationFailure)
        } else {
            Ok(
                SwapOutput {
                    destination_amount: destination as u64,
                    new_reserve_in: reserve_in + source_amount,
                    new_reserve_out: reserve_out - destination as u64,
                },
            )
        }
    }

    /// What the pool is worth to the curve, or `None` where the stable
    /// invariant cannot be computed.
    pub fn normalized_value(&self, reserve_a: u64, reserve_b: u64) -> (r: Option<u128>)
        ensures
            r matches Some(v) ==> self.value_spec(reserve_a as nat, reserve_b as nat) == Some(
                v as nat,
            ),
            r is None ==> self.value_spec(reserve_a as nat, reserve_b as nat) is None,
    {
        match *self {
            CurveParameters::ConstantPrice { token_b_price } => {
                proof {
                    lemma_product_fits(reserve_b, token_b_price);
                }
                Some(reserve_a as u128 + (reserve_b as u128) * (token_b_price as u128))
            },
            CurveParameters::Stable { amplification } => compute_d(
                amplification,
                reserve_a,
                reserve_b,
            ),
        }
    }

    /// The pool tokens to issue for a deposit of `source_amount` of one
    /// token alone, rounded down: the supply scaled by the growth of the
    /// pool's value. `AtoB` stands for a deposit of token A, `BtoA` for one
    /// of token B.
    pub fn deposit_single_token_type(
        &self,
        source_amount: u64,
        reserve_a: u64,
        reserve_b: u64,
        pool_supply: u64,
        direction: TradeDirection,
    ) -> (r: Result<u64, SwapError>)
        ensures
            r == self.deposit_single_token_type_spec(
                source_amount,
                reserve_a,
                reserve_b,
                pool_supply,
                direction,
            ),
    {
        if self.validate().is_err() {
            return Err(SwapError::InvalidCurve);
        }
        if source_amount == 0 {
            return Err(SwapError::ZeroTradingTokens);
        }
        let (new_a, new_b): (u64, u64) = match direction {
            TradeDirection::AtoB => match reserve_a.checked_add(source_amount) {
                Some(v) => (v, reserve_b),
                None => {
                    return Err(SwapError::CalculationFailure);
                },
            },
            TradeDirection::BtoA => match reserve_b.checked_add(source_amount) {
                Some(v) => (reserve_a, v),
                None => {
                    return Err(SwapError::CalculationFailure);
                },
            },
        };
        let before: u128 = match self.normalized_value(reserve_a, reserve_b) {
            Some(v) => v,
            None => {
                return Err(SwapError::CalculationFailure);
            },
        };
        let after: u128 = match self.normalized_value(new_a, new_b) {
            Some(v) => v,
            None => {
                return Err(SwapError::CalculationFailure);
            },
        };
        if after < before {
            return Err(SwapError::CalculationFailure);
        }
        trading_tokens_to_pool_tokens(pool_supply, after - before, before, RoundDirection::Floor)
    }

    /// The pool tokens to burn for a withdrawal of exactly
    /// `destination_amount` of one token alone: the supply scaled by the loss
    /// of the pool's value, rounded as asked. `AtoB` stands for a withdrawal
    /// of token A, `BtoA` for one of token B.
    pub fn withdraw_single_token_type_exact_out(
        &self,
        destination_amount: u64,
        reserve_a: u64,
        reserve_b: u64,
        pool_supply: u64,
        direction: TradeDirection,
        round: RoundDirection,
    ) -> (r: Result<u64, SwapError>)
        ensures
            r == self.withdraw_single_token_type_exact_out_spec(
                destination_amount,
                reserve_a,
                reserve_b,
                pool_supply,
                direction,
                round,
            ),
    {
        if self.validate().is_err() {
            return Err(SwapError::InvalidCurve);
        }
        if destination_amount == 0 {
            return Err(SwapError::ZeroTradingTokens);
        }
        let (new_a, new_b): (u64, u64) = match direction {
            TradeDirection::AtoB => match reserve_a.checked_sub(destination_amount) {
                Some(v) => (v, reserve_b),
                None => {
                    return Err(SwapError::CalculationFailure);
                },
            },
            TradeDirection::BtoA => match reserve_b.checked_sub(destination_amount) {
                Some(v) => (reserve_a, v),
                None => {
                    return Err(SwapError::CalculationFailure);
                },
            },
        };
        let before: u128 = match self.normalized_value(reserve_a, reserve_b) {
            Some(v) => v,
            None => {
                return Err(SwapError::CalculationFailure);
            },
        };
        let after: u128 = match self.normalized_value(new_a, new_b) {
            Some(v) => v,
            None => {
                return Err(SwapError::CalculationFailure);
            },
        };
        if before < after {
            return Err(SwapError::CalculationFailure);
        }
        trading_tokens_to_pool_tokens(pool_supply, before - after, before, round)
    }
}

} // verus!
