//! What holds of the exchange mathematics as a whole: statements that relate
//! several operations, each proved of the functions that define them.

use vstd::prelude::*;
use vstd::arithmetic::div_mod::lemma_div_is_ordered;
use crate::curve::{CurveParameters, RoundDirection, TradeDirection};
use crate::config::PoolConfig;
use crate::error::SwapError;
use crate::liquidity::{
    deposit_single_token_type_spec, deposit_spec, reserve_share,
    withdraw_single_token_type_exact_out_spec, withdraw_spec, DepositResult, SingleTokenResult,
};
use crate::math::{mul_div_ceil_spec, mul_div_floor_spec};
use crate::pool::SwapPool;
use crate::stable::{
    d_next, d_product, d_step_fits, div_ceil, invariant_spec, lemma_div_ceil_bound, lemma_div_ceil_least, lemma_root_floor,
    lemma_new_reserve_on_curve, leverage, new_reserve_spec, on_or_above_curve, root_floor_spec,
    y_constant, y_linear, y_quadratic, y_setup_fits,
};
use crate::swap::{swap_spec, SwapResult};

verus! {

/// The root of `y * (y + b - d) = c`, rounded down, does not grow when `c`
/// shrinks and `b` grows.
proof fn lemma_root_antitone(c1: int, b1: int, c2: int, b2: int, d: int, y1: int, y2: int)
    requires
        c2 <= c1,
        b1 <= b2,
        y1 >= 0,
        y2 >= 0,
        2 * y1 + b1 - d > 0,
        c1 < (y1 + 1) * (y1 + 1 + b1 - d),
        y2 * (y2 + b2 - d) <= c2,
    ensures
        y2 <= y1,
{
    if y2 > y1 {
        let z = y1 + 1;
        let k = y2 - z;
        assert(y2 * (y2 + b2 - d) == z * (z + b1 - d) + z * (b2 - b1) + k * (2 * z + k + b2 - d))
            by (nonlinear_arith)
            requires
                y2 == z + k,
        ;
        assert(z * (b2 - b1) >= 0) by (nonlinear_arith)
            requires
                z >= 0,
                b2 - b1 >= 0,
        ;
        assert(k * (2 * z + k + b2 - d) >= 0) by (nonlinear_arith)
            requires
                k >= 0,
                2 * z + k + b2 - d >= 0,
        ;
    }
}

/// The constant term of the new reserve's quadratic does not grow with the
/// reserve that the trade adds to.
proof fn lemma_y_constant_antitone(ann: nat, small: nat, large: nat, d: nat)
    requires
        ann > 0,
        0 < small <= large,
    ensures
        y_constant(ann, large, d) <= y_constant(ann, small, d),
{
    let ts = div_ceil(d * d, 2 * small);
    let tl = div_ceil(d * d, 2 * large);
    lemma_div_ceil_bound(d * d, 2 * small);
    assert(ts * (2 * large) >= ts * (2 * small)) by (nonlinear_arith)
        requires
            small <= large,
            ts >= 0,
    ;
    lemma_div_ceil_least(d * d, 2 * large, ts);
    assert(tl * d <= ts * d) by (nonlinear_arith)
        requires
            tl <= ts,
            d >= 0,
    ;
    let cs = div_ceil(ts * d, 2 * ann);
    lemma_div_ceil_bound(ts * d, 2 * ann);
    lemma_div_ceil_least(tl * d, 2 * ann, cs);
}

/// On the stable curve, a larger reserve of the incoming token leaves a
/// smaller or equal reserve of the outgoing token.
pub proof fn lemma_new_reserve_antitone(amplification: nat, small: nat, large: nat, d: nat)
    requires
        small <= large,
        new_reserve_spec(amplification, small, d) is Some,
        new_reserve_spec(amplification, large, d) is Some,
    ensures
        new_reserve_spec(amplification, large, d).unwrap() <= new_reserve_spec(
            amplification,
            small,
            d,
        ).unwrap(),
{
    let ann = leverage(amplification);
    let c1 = y_constant(ann, small, d);
    let b1 = y_linear(ann, small, d);
    let c2 = y_constant(ann, large, d);
    let b2 = y_linear(ann, large, d);
    assert(y_setup_fits(ann, small, d));
    assert(y_setup_fits(ann, large, d));
    let r1 = root_floor_spec(c1, b1, d).unwrap();
    let r2 = root_floor_spec(c2, b2, d).unwrap();
    lemma_root_floor(c1, b1, d);
    lemma_root_floor(c2, b2, d);
    lemma_y_constant_antitone(ann, small, large, d);
    assert(y_quadratic(b1, d, (r1 + 1) as int) == (r1 + 1) * (r1 + 1 + b1 - d));
    assert(y_quadratic(b2, d, r2 as int) == r2 * (r2 + b2 - d));
    lemma_root_antitone(c1 as int, b1 as int, c2 as int, b2 as int, d as int, r1 as int, r2 as int);
    if r1 == r2 {
        assert(r1 * (r1 + b1 - d) <= r1 * (r1 + b2 - d)) by (nonlinear_arith)
            requires
                r1 >= 0,
                b1 <= b2,
        ;
    }
}

/// A larger trade never receives less: on either curve, with the reserves
/// held fixed, if `small` and `large` can both be traded and `small <=
/// large`, then what `small` receives is at most what `large` receives.
pub proof fn lemma_swap_monotonic(
    curve: CurveParameters,
    small: u64,
    large: u64,
    reserve_in: u64,
    reserve_out: u64,
    direction: TradeDirection,
)
    requires
        small <= large,
        curve.swap_spec(small, reserve_in, reserve_out, direction) is Ok,
        curve.swap_spec(large, reserve_in, reserve_out, direction) is Ok,
    ensures
        curve.swap_spec(small, reserve_in, reserve_out, direction).unwrap().destination_amount
            <= curve.swap_spec(
            large,
            reserve_in,
            reserve_out,
            direction,
        ).unwrap().destination_amount,
{
    match curve {
        CurveParameters::ConstantPrice { token_b_price } => {
            match direction {
                TradeDirection::AtoB => {
                    lemma_div_is_ordered(small as int, large as int, token_b_price as int);
                },
                TradeDirection::BtoA => {
                    assert(small * token_b_price <= large * token_b_price) by (nonlinear_arith)
                        requires
                            small <= large,
                            token_b_price >= 0,
                    ;
                },
            }
        },
        CurveParameters::Stable { amplification } => {
            let d = invariant_spec(amplification as nat, reserve_in as nat, reserve_out as nat);
            assert(d is Some);
            lemma_new_reserve_antitone(
                amplification as nat,
                (reserve_in + small) as nat,
                (reserve_in + large) as nat,
                d.unwrap(),
            );
        },
    }
}

/// A trade that puts more through the curve never receives less: with the
/// pool held fixed, if two amounts can both be traded and the first leaves
/// no more after the fees than the second, then the first receives no more
/// than the second. (The fees are rounded down one by one, so a larger
/// amount may leave less after them than a smaller one does.)
pub proof fn lemma_swap_monotonic_after_fees(
    pool: SwapPool,
    small: u64,
    large: u64,
    trade_direction: TradeDirection,
)
    requires
        swap_spec(pool, small, 0, trade_direction) is Ok,
        swap_spec(pool, large, 0, trade_direction) is Ok,
        swap_spec(pool, small, 0, trade_direction).unwrap().source_amount_swapped <= swap_spec(
            pool,
            large,
            0,
            trade_direction,
        ).unwrap().source_amount_swapped,
    ensures
        swap_spec(pool, small, 0, trade_direction).unwrap().destination_amount <= swap_spec(
            pool,
            large,
            0,
            trade_direction,
        ).unwrap().destination_amount,
{
    lemma_swap_monotonic(
        pool.curve,
        swap_spec(pool, small, 0, trade_direction).unwrap().source_amount_swapped,
        swap_spec(pool, large, 0, trade_direction).unwrap().source_amount_swapped,
        pool.source_reserve_spec(trade_direction),
        pool.destination_reserve_spec(trade_direction),
        trade_direction,
    );
}

/// The invariant of a balanced pool is the sum of its reserves, wherever it
/// can be computed.
pub proof fn lemma_balanced_invariant(amplification: nat, reserve: nat)
    requires
        invariant_spec(amplification, reserve, reserve) is Some,
    ensures
        invariant_spec(amplification, reserve, reserve) == Some(2 * reserve),
{
    if reserve > 0 {
        let ann = leverage(amplification);
        let s = 2 * reserve;
        let a: int = reserve as int;
        let n: int = ann as int;
        assert(d_step_fits(ann, s, reserve, reserve, s));
        assert((s * s) as int == (2 * a) * (2 * a));
        assert(((2 * a) * (2 * a)) / (2 * a) == 2 * a) by (nonlinear_arith)
            requires
                a > 0,
        ;
        assert(d_product(s, reserve, reserve) == s);
        assert((n * (2 * a) + 2 * (2 * a)) * (2 * a) == (2 * a) * ((n - 1) * (2 * a) + 3 * (2 * a)))
            by (nonlinear_arith);
        let m: int = (n - 1) * (2 * a) + 3 * (2 * a);
        assert(m > 0) by (nonlinear_arith)
            requires
                m == (n - 1) * (2 * a) + 3 * (2 * a),
                n >= 2,
                a > 0,
        ;
        assert(((2 * a) * m) / m == 2 * a) by (nonlinear_arith)
            requires
                m > 0,
        ;
        assert(d_next(ann, s, reserve, reserve, s) == s);
    }
}

/// A trade on the stable curve leaves the reserves on or above the curve of
/// the invariant that they had before it: with `d` the invariant of the
/// reserves before the trade, the reserves `x` and `y` after it satisfy
/// `4 * x * y * (ann * (x + y) + d - ann * d) >= d^3`.
pub proof fn lemma_stable_swap_keeps_invariant(
    amplification: u64,
    source_amount: u64,
    reserve_in: u64,
    reserve_out: u64,
    direction: TradeDirection,
)
    requires
        (CurveParameters::Stable { amplification }).swap_spec(
            source_amount,
            reserve_in,
            reserve_out,
            direction,
        ) is Ok,
    ensures
        ({
            let out = (CurveParameters::Stable { amplification }).swap_spec(
                source_amount,
                reserve_in,
                reserve_out,
                direction,
            ).unwrap();
            &&& invariant_spec(amplification as nat, reserve_in as nat, reserve_out as nat) is Some
            &&& on_or_above_curve(
                leverage(amplification as nat),
                out.new_reserve_in as nat,
                out.new_reserve_out as nat,
                invariant_spec(
                    amplification as nat,
                    reserve_in as nat,
                    reserve_out as nat,
                ).unwrap(),
            )
        }),
{
    let d = invariant_spec(amplification as nat, reserve_in as nat, reserve_out as nat).unwrap();
    lemma_new_reserve_on_curve(amplification as nat, (reserve_in + source_amount) as nat, d);
}

/// Paying a share of a reserve rounded up and at once taking the same share
/// back rounded down returns what was paid or one unit less, never more.
pub proof fn lemma_share_round_trip(reserve: nat, pool_tokens: nat, pool_token_supply: nat)
    requires
        pool_token_supply > 0,
    ensures
        ({
            let paid = reserve_share(
                reserve,
                pool_tokens,
                pool_token_supply,
                RoundDirection::Ceiling,
            );
            let back = reserve_share(
                reserve + paid,
                pool_tokens,
                pool_token_supply + pool_tokens,
                RoundDirection::Floor,
            );
            back <= paid <= back + 1
        }),
{
    let r: int = reserve as int;
    let p: int = pool_tokens as int;
    let s: int = pool_token_supply as int;
    let paid: int = mul_div_ceil_spec(reserve, pool_tokens, pool_token_supply) as int;
    let back: int = mul_div_floor_spec((reserve + paid) as nat, pool_tokens, pool_token_supply + pool_tokens) as int;
    assert(paid == (r * p + s - 1) / s);
    assert(r * p <= paid * s < r * p + s) by (nonlinear_arith)
        requires
            paid == (r * p + s - 1) / s,
            s > 0,
    ;
    assert(back == ((r + paid) * p) / (s + p));
    assert((r + paid) * p == r * p + paid * p) by (nonlinear_arith);
    assert(paid * (s + p) == paid * s + paid * p) by (nonlinear_arith);
    assert((paid - 1) * (s + p) == paid * s + paid * p - s - p) by (nonlinear_arith);
    assert(back <= paid) by (nonlinear_arith)
        requires
            back == ((r + paid) * p) / (s + p),
            (r + paid) * p <= paid * (s + p),
            s + p > 0,
    ;
    assert(back >= paid - 1) by (nonlinear_arith)
        requires
            back == ((r + paid) * p) / (s + p),
            (r + paid) * p >= (paid - 1) * (s + p),
            s + p > 0,
    ;
}

/// The pool as a deposit leaves it.
pub open spec fn after_deposit(pool: SwapPool, pool_token_amount: u64) -> SwapPool
    recommends
        deposit_spec(pool, pool_token_amount, u64::MAX, u64::MAX) is Ok,
{
    let done = deposit_spec(pool, pool_token_amount, u64::MAX, u64::MAX).unwrap();
    SwapPool {
        token_a_reserve: done.new_token_a_reserve,
        token_b_reserve: done.new_token_b_reserve,
        pool_token_supply: done.new_pool_token_supply,
        ..pool
    }
}

/// Depositing for some pool tokens and at once giving the same pool tokens
/// up again, in a pool without a withdrawal fee, returns of each token what
/// was paid or one unit less, never more; each reserve ends where it was or
/// one unit higher.
pub proof fn lemma_deposit_then_withdraw(pool: SwapPool, pool_token_amount: u64)
    requires
        pool.fees.owner_withdraw_fee_numerator == 0,
        deposit_spec(pool, pool_token_amount, u64::MAX, u64::MAX) is Ok,
        withdraw_spec(after_deposit(pool, pool_token_amount), pool_token_amount, 0, 0) is Ok,
    ensures
        ({
            let paid = deposit_spec(pool, pool_token_amount, u64::MAX, u64::MAX).unwrap();
            let back = withdraw_spec(
                after_deposit(pool, pool_token_amount),
                pool_token_amount,
                0,
                0,
            ).unwrap();
            &&& back.token_a_amount <= paid.token_a_amount <= back.token_a_amount + 1
            &&& back.token_b_amount <= paid.token_b_amount <= back.token_b_amount + 1
            &&& pool.token_a_reserve <= back.new_token_a_reserve <= pool.token_a_reserve + 1
            &&& pool.token_b_reserve <= back.new_token_b_reserve <= pool.token_b_reserve + 1
            &&& back.new_pool_token_supply == pool.pool_token_supply
        }),
{
    lemma_share_round_trip(
        pool.token_a_reserve as nat,
        pool_token_amount as nat,
        pool.pool_token_supply as nat,
    );
    lemma_share_round_trip(
        pool.token_b_reserve as nat,
        pool_token_amount as nat,
        pool.pool_token_supply as nat,
    );
}

/// The withdrawals-only mode is an exit and nothing else: every trade and
/// every deposit is turned down with `WithdrawalsOnlyMode`, whatever it asks
/// for, while withdrawals go as they would with every switch off.
pub proof fn lemma_withdrawals_only_mode(
    pool: SwapPool,
    amount: u64,
    limit_a: u64,
    limit_b: u64,
    direction: TradeDirection,
)
    requires
        pool.config.withdrawals_only,
    ensures
        swap_spec(pool, amount, limit_a, direction) == Err::<SwapResult, SwapError>(
            SwapError::WithdrawalsOnlyMode,
        ),
        deposit_spec(pool, amount, limit_a, limit_b) == Err::<DepositResult, SwapError>(
            SwapError::WithdrawalsOnlyMode,
        ),
        deposit_single_token_type_spec(pool, amount, direction, limit_a) == Err::<
            SingleTokenResult,
            SwapError,
        >(SwapError::WithdrawalsOnlyMode),
        withdraw_spec(pool, amount, limit_a, limit_b) == withdraw_spec(
            all_open(pool),
            amount,
            limit_a,
            limit_b,
        ),
        withdraw_single_token_type_exact_out_spec(pool, amount, direction, limit_a)
            == withdraw_single_token_type_exact_out_spec(
            all_open(pool),
            amount,
            direction,
            limit_a,
        ),
{
}

/// The pool with every switch off.
pub open spec fn all_open(pool: SwapPool) -> SwapPool {
    SwapPool {
        config: PoolConfig {
            trading_disabled: false,
            deposits_disabled: false,
            withdrawals_only: false,
        },
        ..pool
    }
}

/// On a fixed-price curve the pool never gives more than it gains, at the
/// curve's price and under any fees: a trade of token A adds at least as
/// many tokens A to the reserve as the tokens B that leave are worth, and a
/// trade of token B adds tokens B worth at least the tokens A that leave. At
/// a price of one, the reserve that grows gains at least what the other
/// loses.
pub proof fn lemma_constant_price_pool_never_loses(
    pool: SwapPool,
    amount_in: u64,
    minimum_amount_out: u64,
    trade_direction: TradeDirection,
)
    requires
        pool.curve is ConstantPrice,
        swap_spec(pool, amount_in, minimum_amount_out, trade_direction) is Ok,
    ensures
        ({
            let done = swap_spec(pool, amount_in, minimum_amount_out, trade_direction).unwrap();
            let price = pool.curve->token_b_price;
            let gain = done.new_source_reserve - pool.source_reserve_spec(trade_direction);
            let loss = pool.destination_reserve_spec(trade_direction)
                - done.new_destination_reserve;
            &&& loss == done.destination_amount
            &&& trade_direction == TradeDirection::AtoB ==> gain >= loss * price
            &&& trade_direction == TradeDirection::BtoA ==> gain * price >= loss
            &&& price == 1 ==> gain >= loss
        }),
{
    let done = swap_spec(pool, amount_in, minimum_amount_out, trade_direction).unwrap();
    let price = pool.curve->token_b_price;
    let net: int = done.source_amount_swapped as int;
    let fee: int = done.pool_fee_amount as int;
    let gain: int = done.new_source_reserve - pool.source_reserve_spec(trade_direction);
    let loss: int = pool.destination_reserve_spec(trade_direction) - done.new_destination_reserve;
    assert(gain == net + fee);
    assert(loss == done.destination_amount);
    match trade_direction {
        TradeDirection::AtoB => {
            assert(loss == net / (price as int));
            assert(loss * price <= net) by (nonlinear_arith)
                requires
                    loss == net / (price as int),
                    price > 0,
                    net >= 0,
            ;
            assert(price == 1 ==> loss * price == loss) by (nonlinear_arith);
        },
        TradeDirection::BtoA => {
            assert(loss == net * price);
            assert(gain * price >= loss) by (nonlinear_arith)
                requires
                    loss == net * price,
                    gain == net + fee,
                    fee >= 0,
                    price > 0,
            ;
            assert(price == 1 ==> gain * price == gain) by (nonlinear_arith);
        },
    }
}

} // verus!
