//! Fees as exact fractions of the amount they are taken from.

use vstd::prelude::*;
use crate::error::SwapError;
use crate::math::{mul_div_floor, mul_div_floor_spec};

verus! {

/// The fee fractions of a pool, each a numerator over a denominator.
#[derive(Clone, Copy, Debug, PartialEq, Eq, Structural)]
pub struct Fees {
    /// Share of every trade that stays in the pool, numerator.
    pub trade_fee_numerator: u64,
    /// Share of every trade that stays in the pool, denominator.
    pub trade_fee_denominator: u64,
    /// Share of every trade that goes to the pool's owner, numerator.
    pub owner_trade_fee_numerator: u64,
    /// Share of every trade that goes to the pool's owner, denominator.
    pub owner_trade_fee_denominator: u64,
    /// Share of withdrawn pool tokens that goes to the pool's owner,
    /// numerator.
    pub owner_withdraw_fee_numerator: u64,
    /// Share of withdrawn pool tokens that goes to the pool's owner,
    /// denominator.
    pub owner_withdraw_fee_denominator: u64,
    /// Share of the owner's fee that is passed on to a host, numerator.
    pub host_fee_numerator: u64,
    /// Share of the owner's fee that is passed on to a host, denominator.
    pub host_fee_denominator: u64,
}

/// A fraction is a fee when it is zero, or has a positive denominator and is
/// at most one.
pub open spec fn valid_fraction(numerator: u64, denominator: u64) -> bool {
    numerator == 0 || (denominator > 0 && numerator <= denominator)
}

/// The fee on `amount`: the fraction of it, rounded down; nothing when the
/// numerator is zero, whatever the denominator.
pub open spec fn fee_amount(amount: nat, numerator: nat, denominator: nat) -> nat {
    if numerator == 0 {
        0
    } else {
        mul_div_floor_spec(amount, numerator, denominator)
    }
}

/// A fee that is a valid fraction never exceeds the amount it is taken from.
pub proof fn lemma_fee_at_most_amount(amount: nat, numerator: nat, denominator: nat)
    requires
        numerator == 0 || (denominator > 0 && numerator <= denominator),
    ensures
        fee_amount(amount, numerator, denominator) <= amount,
{
    if numerator != 0 {
        assert((amount * numerator) / denominator <= amount) by (nonlinear_arith)
            requires
                denominator > 0,
                numerator <= denominator,
        ;
    }
}

/// The fee grows with the amount.
pub proof fn lemma_fee_monotonic(small: nat, large: nat, numerator: nat, denominator: nat)
    requires
        small <= large,
        denominator > 0,
    ensures
        fee_amount(small, numerator, denominator) <= fee_amount(large, numerator, denominator),
{
    if numerator != 0 {
        assert((small * numerator) / denominator <= (large * numerator) / denominator)
            by (nonlinear_arith)
            requires
                small <= large,
                denominator > 0,
        ;
    }
}

/// The outcome of `calculate_fee`.
pub open spec fn calculate_fee_spec(amount: u64, numerator: u64, denominator: u64) -> Result<
    u64,
    SwapError,
> {
    let fee = fee_amount(amount as nat, numerator as nat, denominator as nat);
    if numerator > 0 && (denominator == 0 || fee > u64::MAX) {
        Err(SwapError::FeeCalculationFailure)
    } else {
        Ok(fee as u64)
    }
}

/// Takes the fraction `numerator / denominator` of `amount`, rounding down.
///
/// Fails with `FeeCalculationFailure` when the numerator is positive and
/// either the denominator is zero or the fee needs more than 64 bits; neither
/// happens with a fraction that `Fees::validate` accepts.
pub fn calculate_fee(amount: u64, numerator: u64, denominator: u64) -> (r: Result<
    u64,
    SwapError,
>)
    ensures
        r == calculate_fee_spec(amount, numerator, denominator),
        valid_fraction(numerator, denominator) ==> r.is_ok() && r.unwrap() <= amount,
        numerator == 0 ==> r == Ok::<u64, SwapError>(0),
{
    proof {
        lemma_fee_at_most_amount_u64(amount, numerator, denominator);
    }
    if numerator == 0 {
        return Ok(0);
    }
    match mul_div_floor(amount, numerator, denominator) {
        Some(fee) => Ok(fee),
        None => Err(SwapError::FeeCalculationFailure),
    }
}

proof fn lemma_fee_at_most_amount_u64(amount: u64, numerator: u64, denominator: u64)
    ensures
        valid_fraction(numerator, denominator) ==> fee_amount(
            amount as nat,
            numerator as nat,
            denominator as nat,
        ) <= amount,
{
    if valid_fraction(numerator, denominator) {
        lemma_fee_at_most_amount(amount as nat, numerator as nat, denominator as nat);
    }
}

impl Fees {
    /// Every fraction is a fee: see `valid_fraction`.
    pub open spec fn is_valid(&self) -> bool {
        &&& valid_fraction(self.trade_fee_numerator, self.trade_fee_denominator)
        &&& valid_fraction(self.owner_trade_fee_numerator, self.owner_trade_fee_denominator)
        &&& valid_fraction(self.owner_withdraw_fee_numerator, self.owner_withdraw_fee_denominator)
        &&& valid_fraction(self.host_fee_numerator, self.host_fee_denominator)
    }

    /// What the pool keeps of a trade of `amount`.
    pub open spec fn trading_fee_spec(&self, amount: nat) -> nat {
        fee_amount(amount, self.trade_fee_numerator as nat, self.trade_fee_denominator as nat)
    }

    /// What the owner gets of a trade of `amount`.
    pub open spec fn owner_fee_spec(&self, amount: nat) -> nat {
        fee_amount(
            amount,
            self.owner_trade_fee_numerator as nat,
            self.owner_trade_fee_denominator as nat,
        )
    }

    /// What the owner gets of `pool_tokens` that are withdrawn.
    pub open spec fn owner_withdraw_fee_spec(&self, pool_tokens: nat) -> nat {
        fee_amount(
            pool_tokens,
            self.owner_withdraw_fee_numerator as nat,
            self.owner_withdraw_fee_denominator as nat,
        )
    }

    /// What a host gets out of a fee of `fee`.
    pub open spec fn host_fee_spec(&self, fee: nat) -> nat {
        fee_amount(fee, self.host_fee_numerator as nat, self.host_fee_denominator as nat)
    }

    /// All numerators are zero: the pool charges nothing.
    pub open spec fn is_free(&self) -> bool {
        &&& self.trade_fee_numerator == 0
        &&& self.owner_trade_fee_numerator == 0
        &&& self.owner_withdraw_fee_numerator == 0
        &&& self.host_fee_numerator == 0
    }

    /// Accepts the fees exactly when every fraction is valid.
    pub fn validate(&self) -> (r: Result<(), SwapError>)
        ensures
            r.is_ok() <==> self.is_valid(),
            r matches Err(e) ==> e == SwapError::InvalidFee,
    {
        if check_fraction(self.trade_fee_numerator, self.trade_fee_denominator) && check_fraction(
            self.owner_trade_fee_numerator,
            self.owner_trade_fee_denominator,
        ) && check_fraction(self.owner_withdraw_fee_numerator, self.owner_withdraw_fee_denominator)
            && check_fraction(self.host_fee_numerator, self.host_fee_denominator) {
            Ok(())
        } else {
            Err(SwapError::InvalidFee)
        }
    }

    /// The pool's fee on a trade of `amount`, rounded down.
    pub fn trading_fee(&self, amount: u64) -> (r: Result<u64, SwapError>)
        ensures
            r == calculate_fee_spec(amount, self.trade_fee_numerator, self.trade_fee_denominator),
            r matches Ok(fee) ==> fee == self.trading_fee_spec(amount as nat),
            self.is_valid() ==> r.is_ok() && r.unwrap() <= amount,
            self.trade_fee_numerator == 0 ==> r == Ok::<u64, SwapError>(0),
    {
        calculate_fee(amount, self.trade_fee_numerator, self.trade_fee_denominator)
    }

    /// The owner's fee on a trade of `amount`, rounded down.
    pub fn owner_fee(&self, amount: u64) -> (r: Result<u64, SwapError>)
        ensures
            r == calculate_fee_spec(amount, self.owner_trade_fee_numerator, self.owner_trade_fee_denominator),
            r matches Ok(fee) ==> fee == self.owner_fee_spec(amount as nat),
            self.is_valid() ==> r.is_ok() && r.unwrap() <= amount,
            self.owner_trade_fee_numerator == 0 ==> r == Ok::<u64, SwapError>(0),
    {
        calculate_fee(amount, self.owner_trade_fee_numerator, self.owner_trade_fee_denominator)
    }

    /// The owner's fee on `pool_tokens` that are withdrawn, rounded down.
    pub fn owner_withdraw_fee(&self, pool_tokens: u64) -> (r: Result<u64, SwapError>)
        ensures
            r == calculate_fee_spec(pool_tokens, self.owner_withdraw_fee_numerator, self.owner_withdraw_fee_denominator),
            r matches Ok(fee) ==> fee == self.owner_withdraw_fee_spec(pool_tokens as nat),
            self.is_valid() ==> r.is_ok() && r.unwrap() <= pool_tokens,
            self.owner_withdraw_fee_numerator == 0 ==> r == Ok::<u64, SwapError>(0),
    {
        calculate_fee(
            pool_tokens,
            self.owner_withdraw_fee_numerator,
            self.owner_withdraw_fee_denominator,
        )
    }

    /// The host's cut of a fee that was already taken, rounded down: a cut
    /// of less than one unit is no cut at all.
    pub fn host_fee(&self, fee: u64) -> (r: Result<u64, SwapError>)
        ensures
            r == calculate_fee_spec(fee, self.host_fee_numerator, self.host_fee_denominator),
            r matches Ok(cut) ==> cut == self.host_fee_spec(fee as nat),
            self.is_valid() ==> r.is_ok() && r.unwrap() <= fee,
            self.host_fee_numerator == 0 ==> r == Ok::<u64, SwapError>(0),
    {
        calculate_fee(fee, self.host_fee_numerator, self.host_fee_denominator)
    }
}

/// Whether a fraction is a fee.
fn check_fraction(numerator: u64, denominator: u64) -> (ok: bool)
    ensures
        ok == valid_fraction(numerator, denominator),
{
    numerator == 0 || (denominator > 0 && numerator <= denominator)
}

impl Default for Fees {
    /// The fees of a pool that charges nothing.
    fn default() -> (fees: Fees)
        ensures
            fees.is_free(),
            fees.is_valid(),
            fees.trade_fee_denominator == 0,
            fees.owner_trade_fee_denominator == 0,
            fees.owner_withdraw_fee_denominator == 0,
            fees.host_fee_denominator == 0,
    {
        Fees {
            trade_fee_numerator: 0,
            trade_fee_denominator: 0,
            owner_trade_fee_numerator: 0,
            owner_trade_fee_denominator: 0,
            owner_withdraw_fee_numerator: 0,
            owner_withdraw_fee_denominator: 0,
            host_fee_numerator: 0,
            host_fee_denominator: 0,
        }
    }
}

} // verus!
