//! One trade against a pool: the fees are taken from what comes in, the rest
//! goes through the curve, and the host's cut is split off the owner's fee.

use vstd::prelude::*;
use crate::curve::{SwapOutput, TradeDirection};
use crate::error::SwapError;
use crate::fees::Fees;
use crate::pool::SwapPool;

verus! {

/// What is withheld from an incoming amount before it is traded.
#[derive(Clone, Copy, Debug, PartialEq, Eq, Structural)]
pub struct FeesDeducted {
    /// What is left to trade.
    pub source_amount_less_fees: u64,
    /// The part of the fee that stays in the pool.
    pub pool_fee_amount: u64,
    /// The part of the fee that goes to the owner, the host's cut included.
    pub owner_fee_amount: u64,
}

/// The outcome of a trade.
#[derive(Clone, Copy, Debug, PartialEq, Eq, Structural)]
pub struct SwapResult {
    /// The reserve of the token that came in, after the trade: the reserve
    /// before it, plus what was traded, plus the pool's fee.
    pub new_source_reserve: u64,
    /// The reserve of the token that went out, after the trade.
    pub new_destination_reserve: u64,
    /// What went through the curve: the incoming amount less the fee.
    pub source_amount_swapped: u64,
    /// What the trader receives.
    pub destination_amount: u64,
    /// The whole fee withheld from the incoming amount.
    pub trade_fee_amount: u64,
    /// The part of the fee that stays in the pool.
    pub pool_fee_amount: u64,
    /// The part of the fee that leaves the pool for the owner, the host's cut
    /// included.
    pub owner_fee_amount: u64,
    /// The host's cut, paid out of the owner's part.
    pub host_fee_amount: u64,
}

/// The outcome of `deduct_fees`.
pub open spec fn deduct_fees_spec(fees: Fees, amount_in: u64) -> Result<FeesDeducted, SwapError> {
    let pool_fee = fees.trading_fee_spec(amount_in as nat);
    let owner_fee = fees.owner_fee_spec(amount_in as nat);
    if !fees.is_valid() {
        Err(SwapError::InvalidFee)
    } else if pool_fee + owner_fee > amount_in {
        Err(SwapError::FeeCalculationFailure)
    } else {
        Ok(
            FeesDeducted {
                source_amount_less_fees: (amount_in - pool_fee - owner_fee) as u64,
                pool_fee_amount: pool_fee as u64,
                owner_fee_amount: owner_fee as u64,
            },
        )
    }
}

/// Takes the pool's fee and the owner's fee, each a fraction of the whole
/// incoming amount and rounded down, and leaves the rest to be traded.
///
/// Fails with `InvalidFee` when a fraction is no fee, and with
/// `FeeCalculationFailure` when the two fees together exceed the amount.
pub fn deduct_fees(fees: &Fees, amount_in: u64) -> (r: Result<FeesDeducted, SwapError>)
    ensures
        r == deduct_fees_spec(*fees, amount_in),
        r matches Ok(deducted) ==> deducted.source_amount_less_fees + deducted.pool_fee_amount
            + deducted.owner_fee_amount == amount_in,
        r matches Ok(deducted) ==> (fees.trade_fee_numerator == 0 ==> deducted.pool_fee_amount
            == 0) && (fees.owner_trade_fee_numerator == 0 ==> deducted.owner_fee_amount == 0),
{
    if fees.validate().is_err() {
        return Err(SwapError::InvalidFee);
    }
    let pool_fee: u64 = match fees.trading_fee(amount_in) {
        Ok(fee) => fee,
        Err(e) => {
            return Err(e);
        },
    };
    let owner_fee: u64 = match fees.owner_fee(amount_in) {
        Ok(fee) => fee,
        Err(e) => {
            return Err(e);
        },
    };
    if owner_fee > amount_in - pool_fee {
        return Err(SwapError::FeeCalculationFailure);
    }
    Ok(
        FeesDeducted {
            source_amount_less_fees: amount_in - pool_fee - owner_fee,
            pool_fee_amount: pool_fee,
            owner_fee_amount: owner_fee,
        },
    )
}

/// The outcome of `swap`.
pub open spec fn swap_spec(
    pool: SwapPool,
    amount_in: u64,
    minimum_amount_out: u64,
    trade_direction: TradeDirection,
) -> Result<SwapResult, SwapError> {
    let reserve_in = pool.source_reserve_spec(trade_direction);
    let reserve_out = pool.destination_reserve_spec(trade_direction);
    match pool.config.swap_refusal() {
        Some(e) => Err(e),
        None => if !pool.curve.is_valid() {
            Err(SwapError::InvalidCurve)
        } else if amount_in == 0 {
            Err(SwapError::ZeroTradingTokens)
        } else {
            match deduct_fees_spec(pool.fees, amount_in) {
                Err(e) => Err(e),
                Ok(deducted) => match pool.curve.swap_spec(
                    deducted.source_amount_less_fees,
                    reserve_in,
                    reserve_out,
                    trade_direction,
                ) {
                    Err(e) => Err(e),
                    Ok(out) => if out.destination_amount < minimum_amount_out {
                        Err(SwapError::ExceededSlippage)
                    } else if out.new_reserve_in + deducted.pool_fee_amount > u64::MAX {
                        Err(SwapError::CalculationFailure)
                    } else {
                        Ok(
                            SwapResult {
                                new_source_reserve: (out.new_reserve_in
                                    + deducted.pool_fee_amount) as u64,
                                new_destination_reserve: out.new_reserve_out,
                                source_amount_swapped: deducted.source_amount_less_fees,
                                destination_amount: out.destination_amount,
                                trade_fee_amount: (deducted.pool_fee_amount
                                    + deducted.owner_fee_amount) as u64,
                                pool_fee_amount: deducted.pool_fee_amount,
                                owner_fee_amount: deducted.owner_fee_amount,
                                host_fee_amount: pool.fees.host_fee_spec(
                                    deducted.owner_fee_amount as nat,
                                ) as u64,
                            },
                        )
                    },
                },
            }
        }
    }
}

/// Trades `amount_in` of one token for the other. `amount_in` is what
/// reached the pool: where the token itself levies a fee on transfers, the
/// caller has taken that off.
///
/// The steps, in this order: the switches are consulted; the pool's fee and
/// the owner's fee are taken from `amount_in`; the rest goes through the
/// curve against the reserves; the result is held against
/// `minimum_amount_out`; the host's cut is split off the owner's fee. Nothing
/// is applied: the result says what the reserves become.
///
/// Fails with
/// - `WithdrawalsOnlyMode` in the withdrawals-only mode, whatever else is
///   asked, else `TradingDisabled` when trading is off;
/// - `InvalidCurve` or `InvalidFee` on a pool that is not valid;
/// - `ZeroTradingTokens` when nothing comes in, nothing is left after the
///   fees, or nothing would be received;
/// - `FeeCalculationFailure` when the fees exceed the amount;
/// - `CalculationFailure` when the curve fails or a reserve leaves 64 bits;
/// - `ExceededSlippage` when less than `minimum_amount_out` would be
///   received.
pub fn swap(
    pool: &SwapPool,
    amount_in: u64,
    minimum_amount_out: u64,
    trade_direction: TradeDirection,
) -> (r: Result<SwapResult, SwapError>)
    ensures
        r == swap_spec(*pool, amount_in, minimum_amount_out, trade_direction),
        pool.config.withdrawals_only ==> r == Err::<SwapResult, SwapError>(
            SwapError::WithdrawalsOnlyMode,
        ),
        r matches Ok(done) ==> {
            &&& pool.config.can_swap_spec()
            &&& pool.is_valid()
            &&& minimum_amount_out <= done.destination_amount
            &&& 0 < done.destination_amount <= pool.destination_reserve_spec(trade_direction)
            &&& done.new_destination_reserve == pool.destination_reserve_spec(trade_direction)
                - done.destination_amount
            &&& done.new_source_reserve == pool.source_reserve_spec(trade_direction) + amount_in
                - done.owner_fee_amount
            &&& done.source_amount_swapped + done.trade_fee_amount == amount_in
            &&& done.trade_fee_amount == done.owner_fee_amount + done.pool_fee_amount
            &&& done.host_fee_amount <= done.owner_fee_amount <= done.trade_fee_amount
            &&& pool.fees.trade_fee_numerator == 0 ==> done.pool_fee_amount == 0
            &&& pool.fees.owner_trade_fee_numerator == 0 ==> done.owner_fee_amount == 0
                && done.host_fee_amount == 0
            &&& pool.fees.host_fee_numerator == 0 ==> done.host_fee_amount == 0
        },
{
    match pool.config.check_swap() {
        Err(e) => {
            return Err(e);
        },
        Ok(_) => {},
    }
    if pool.curve.validate().is_err() {
        return Err(SwapError::InvalidCurve);
    }
    if amount_in == 0 {
        return Err(SwapError::ZeroTradingTokens);
    }
    let deducted: FeesDeducted = match deduct_fees(&pool.fees, amount_in) {
        Ok(deducted) => deducted,
        Err(e) => {
            return Err(e);
        },
    };
    let reserve_in: u64 = pool.source_reserve(trade_direction);
    let reserve_out: u64 = pool.destination_reserve(trade_direction);
    let out: SwapOutput = match pool.curve.swap(
        deducted.source_amount_less_fees,
        reserve_in,
        reserve_out,
        trade_direction,
    ) {
        Ok(out) => out,
        Err(e) => {
            return Err(e);
        },
    };
    if out.destination_amount < minimum_amount_out {
        return Err(SwapError::ExceededSlippage);
    }
    let new_source_reserve: u64 = match out.new_reserve_in.checked_add(deducted.pool_fee_amount) {
        Some(v) => v,
        None => {
            return Err(SwapError::CalculationFailure);
        },
    };
    let host_fee: u64 = match pool.fees.host_fee(deducted.owner_fee_amount) {
        Ok(cut) => cut,
        Err(e) => {
            return Err(e);
        },
    };
    Ok(
        SwapResult {
            new_source_reserve,
            new_destination_reserve: out.new_reserve_out,
            source_amount_swapped: deducted.source_amount_less_fees,
            destination_amount: out.destination_amount,
            trade_fee_amount: deducted.pool_fee_amount + deducted.owner_fee_amount,
            pool_fee_amount: deducted.pool_fee_amount,
            owner_fee_amount: deducted.owner_fee_amount,
            host_fee_amount: host_fee,
        },
    )
}

impl SwapResult {
    /// What of the owner's fee is left to the owner once the host is paid;
    /// nothing, in a result whose host's cut exceeds the owner's fee, which
    /// `swap` never returns.
    pub fn owner_fee_after_host(&self) -> (amount: u64)
        ensures
            amount == if self.host_fee_amount <= self.owner_fee_amount {
                self.owner_fee_amount - self.host_fee_amount
            } else {
                0
            },
    {
        self.owner_fee_amount.saturating_sub(self.host_fee_amount)
    }
}

} // verus!
