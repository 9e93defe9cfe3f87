use hyperplane::{
    initialize_pool, swap, update_pool_config, CurveParameters, Fees, PoolConfig, SwapError,
    SwapPool, SwapResult, TradeDirection, UpdatePoolConfig, UpdatePoolConfigMode,
    UpdatePoolConfigValue,
};

fn new_pool(fees: Fees, supply: (u64, u64), curve: CurveParameters) -> SwapPool {
    initialize_pool(curve, fees, supply.0, supply.1).unwrap()
}

fn set_withdrawals_only(pool: &SwapPool, on: bool) -> SwapPool {
    let update = UpdatePoolConfig::new(
        UpdatePoolConfigMode::WithdrawalsOnly,
        UpdatePoolConfigValue::Bool(on),
    );
    let config =
        update_pool_config(&pool.config, update.mode.to_u16(), &update.value.to_bytes()).unwrap();
    SwapPool { config, ..*pool }
}

/// What a token that levies a fee on transfers delivers of `amount`, the fee
/// being `basis_points` of it, rounded up.
fn after_transfer_fee(amount: u64, basis_points: u16) -> u64 {
    let fee = (amount as u128 * basis_points as u128 + 9_999) / 10_000;
    amount - fee as u64
}

#[test]
fn test_swap_fails_with_withdrawal_only_mode() {
    let pool = new_pool(
        Fees::default(),
        (100, 100),
        CurveParameters::Stable { amplification: 100 },
    );

    let pool = set_withdrawals_only(&pool, true);
    assert!(pool.config.withdrawals_only);

    assert_eq!(
        swap(&pool, 50, 47, TradeDirection::AtoB).unwrap_err(),
        SwapError::WithdrawalsOnlyMode
    );

    // unset withdrawals_only mode
    let pool = set_withdrawals_only(&pool, false);
    assert!(!pool.config.withdrawals_only);
    swap(&pool, 50, 47, TradeDirection::AtoB).unwrap();
}

#[test]
fn test_swap_trade_and_owner_fee_correct_ratio() {
    let pool = new_pool(
        Fees {
            trade_fee_numerator: 1000,
            trade_fee_denominator: 10000,
            owner_trade_fee_numerator: 1000,
            owner_trade_fee_denominator: 10000,
            host_fee_numerator: 0,
            host_fee_denominator: 10000,
            ..Default::default()
        },
        (10000, 10000),
        CurveParameters::ConstantPrice { token_b_price: 1 },
    );

    let user_a_before: u64 = 10000;
    let sent: u64 = 10000;
    let received_by_pool = after_transfer_fee(sent, 1000);
    let done = swap(&pool, received_by_pool, 0, TradeDirection::AtoB).unwrap();

    let user_a_balance = user_a_before - sent;
    let user_b_balance = done.destination_amount;
    assert_eq!(user_a_balance, 0);
    assert_eq!(user_b_balance, 7200);
}

#[test]
fn test_swap_invariants_correct_trade() {
    let cases: [(u64, u64, u64, u16); 12] = [
        (0, 0, 0, 0),
        (1000, 0, 0, 0),
        (0, 1000, 0, 0),
        (0, 1000, 1000, 0),
        (1000, 1000, 0, 0),
        (1000, 1000, 1000, 0),
        (0, 0, 0, 1000),
        (1000, 0, 0, 1000),
        (0, 1000, 0, 1000),
        (0, 1000, 1000, 1000),
        (1000, 1000, 0, 1000),
        (1000, 1000, 1000, 1000),
    ];
    for (trade_fee_numerator, owner_trade_fee_numerator, host_fee_numerator, transfer_fees) in cases
    {
        let pool = new_pool(
            Fees {
                trade_fee_numerator,
                trade_fee_denominator: 10000,
                owner_trade_fee_numerator,
                owner_trade_fee_denominator: 10000,
                host_fee_numerator,
                host_fee_denominator: 10000,
                ..Default::default()
            },
            (10000, 10000),
            CurveParameters::ConstantPrice { token_b_price: 1 },
        );
        let user_a_before: u64 = 10000;
        let vault_a_balance_before = pool.token_a_reserve;
        let vault_b_balance_before = pool.token_b_reserve;

        let sent: u64 = 10000;
        let done = swap(
            &pool,
            after_transfer_fee(sent, transfer_fees),
            0,
            TradeDirection::AtoB,
        )
        .unwrap();

        // In all of the cases user should consume all of his A
        assert_eq!(user_a_before - sent, 0);

        let vault_a_diff = done.new_source_reserve - vault_a_balance_before;
        let vault_b_diff = vault_b_balance_before - done.new_destination_reserve;
        // And the tokens A gained by the pool should be higher than tokens B lost
        assert!(vault_a_diff >= vault_b_diff);
    }
}

#[test]
fn swap_reports_every_amount() {
    let pool = new_pool(
        Fees {
            trade_fee_numerator: 1000,
            trade_fee_denominator: 10000,
            owner_trade_fee_numerator: 1000,
            owner_trade_fee_denominator: 10000,
            host_fee_numerator: 1000,
            host_fee_denominator: 10000,
            ..Default::default()
        },
        (10000, 10000),
        CurveParameters::ConstantPrice { token_b_price: 1 },
    );
    let done = swap(&pool, 9000, 0, TradeDirection::AtoB).unwrap();
    assert_eq!(
        done,
        SwapResult {
            new_source_reserve: 18100,
            new_destination_reserve: 2800,
            source_amount_swapped: 7200,
            destination_amount: 7200,
            trade_fee_amount: 1800,
            pool_fee_amount: 900,
            owner_fee_amount: 900,
            host_fee_amount: 90,
        }
    );
    assert_eq!(done.owner_fee_after_host(), 810);
    let odd = SwapResult { host_fee_amount: 901, ..done };
    assert_eq!(odd.owner_fee_after_host(), 0);
}

#[test]
fn fees_can_turn_a_larger_amount_into_a_smaller_trade() {
    let pool = new_pool(
        Fees {
            trade_fee_numerator: 4,
            trade_fee_denominator: 10,
            owner_trade_fee_numerator: 4,
            owner_trade_fee_denominator: 10,
            ..Default::default()
        },
        (1000, 1000),
        CurveParameters::ConstantPrice { token_b_price: 1 },
    );
    let two = swap(&pool, 2, 0, TradeDirection::AtoB).unwrap();
    let three = swap(&pool, 3, 0, TradeDirection::AtoB).unwrap();
    assert_eq!(two.source_amount_swapped, 2);
    assert_eq!(three.source_amount_swapped, 1);
    assert_eq!(two.destination_amount, 2);
    assert_eq!(three.destination_amount, 1);
}

#[test]
fn stable_swap_with_fees_stays_close_to_par() {
    let pool = new_pool(
        Fees {
            trade_fee_numerator: 1000,
            trade_fee_denominator: 10000,
            owner_trade_fee_numerator: 1000,
            owner_trade_fee_denominator: 10000,
            host_fee_numerator: 0,
            host_fee_denominator: 10000,
            ..Default::default()
        },
        (10000, 10000),
        CurveParameters::Stable { amplification: 100 },
    );
    let sent: u64 = 10000;
    let done = swap(&pool, after_transfer_fee(sent, 1000), 0, TradeDirection::AtoB).unwrap();
    assert_eq!(done.source_amount_swapped, 7200);
    assert_eq!(done.destination_amount, 7099);
    assert!(done.destination_amount <= 7200);
    assert!(7200 - done.destination_amount <= 7200 * 2 / 100);
    assert_eq!(done.new_source_reserve, 18100);
    assert_eq!(done.new_destination_reserve, 2901);
    assert_eq!(10000 - sent, 0);
}

#[test]
fn host_fee_below_one_unit_rounds_down_to_zero() {
    let fees = Fees {
        trade_fee_numerator: 1,
        trade_fee_denominator: 100,
        owner_trade_fee_numerator: 1,
        owner_trade_fee_denominator: 100,
        host_fee_numerator: 1,
        host_fee_denominator: 100,
        ..Default::default()
    };
    assert_eq!(fees.host_fee(1), Ok(0));
    assert_eq!(fees.host_fee(99), Ok(0));
    assert_eq!(fees.host_fee(100), Ok(1));

    let pool = new_pool(fees, (1000, 1000), CurveParameters::Stable { amplification: 100 });
    let done = swap(&pool, 100, 90, TradeDirection::AtoB).unwrap();
    assert_eq!(done.pool_fee_amount, 1);
    assert_eq!(done.owner_fee_amount, 1);
    assert_eq!(done.trade_fee_amount, 2);
    assert_eq!(done.host_fee_amount, 0);
    assert_eq!(done.source_amount_swapped, 98);
    assert_eq!(done.new_source_reserve, 1099);
}

#[test]
fn small_trade_pays_no_fee_when_the_fraction_rounds_to_zero() {
    let fees = Fees {
        trade_fee_numerator: 1,
        trade_fee_denominator: 100,
        owner_trade_fee_numerator: 1,
        owner_trade_fee_denominator: 100,
        host_fee_numerator: 1,
        host_fee_denominator: 100,
        ..Default::default()
    };
    let pool = new_pool(fees, (100, 100), CurveParameters::Stable { amplification: 100 });
    let done = swap(&pool, 50, 44, TradeDirection::AtoB).unwrap();
    assert_eq!(done.trade_fee_amount, 0);
    assert_eq!(done.owner_fee_amount, 0);
    assert_eq!(done.host_fee_amount, 0);
    assert_eq!(done.new_source_reserve, 150);
    assert_eq!(done.new_destination_reserve, 51);
    assert_eq!(done.destination_amount, 49);
}

#[test]
fn fees_are_conserved() {
    for amount in [1u64, 7, 99, 100, 101, 5000, 123_456_789] {
        for (t, o, h) in [(0u64, 0u64, 0u64), (3, 0, 5), (0, 25, 1000), (30, 25, 2000), (10000, 0, 0)]
        {
            let pool = new_pool(
                Fees {
                    trade_fee_numerator: t,
                    trade_fee_denominator: 10000,
                    owner_trade_fee_numerator: o,
                    owner_trade_fee_denominator: 10000,
                    host_fee_numerator: h,
                    host_fee_denominator: 10000,
                    ..Default::default()
                },
                (1_000_000_000, 1_000_000_000),
                CurveParameters::ConstantPrice { token_b_price: 1 },
            );
            match swap(&pool, amount, 0, TradeDirection::AtoB) {
                Ok(done) => {
                    assert_eq!(
                        done.trade_fee_amount,
                        done.owner_fee_amount + done.pool_fee_amount
                    );
                    assert!(done.host_fee_amount <= done.trade_fee_amount);
                    assert!(done.host_fee_amount <= done.owner_fee_amount);
                    assert_eq!(done.source_amount_swapped + done.trade_fee_amount, amount);
                    assert_eq!(done.pool_fee_amount, amount * t / 10000);
                    assert_eq!(done.owner_fee_amount, amount * o / 10000);
                }
                Err(e) => assert_eq!(e, SwapError::ZeroTradingTokens),
            }
        }
    }
}

#[test]
fn zero_numerators_charge_nothing() {
    let fees = Fees {
        trade_fee_numerator: 0,
        trade_fee_denominator: 10000,
        owner_trade_fee_numerator: 0,
        owner_trade_fee_denominator: 0,
        host_fee_numerator: 0,
        host_fee_denominator: 7,
        ..Default::default()
    };
    for amount in [1u64, 2, 1000, u64::MAX] {
        assert_eq!(fees.trading_fee(amount), Ok(0));
        assert_eq!(fees.owner_fee(amount), Ok(0));
        assert_eq!(fees.host_fee(amount), Ok(0));
        assert_eq!(fees.owner_withdraw_fee(amount), Ok(0));
    }
    let pool = new_pool(fees, (10000, 10000), CurveParameters::Stable { amplification: 100 });
    let done = swap(&pool, 1000, 0, TradeDirection::BtoA).unwrap();
    assert_eq!(done.trade_fee_amount, 0);
    assert_eq!(done.owner_fee_amount, 0);
    assert_eq!(done.pool_fee_amount, 0);
    assert_eq!(done.host_fee_amount, 0);
    assert_eq!(done.source_amount_swapped, 1000);
    assert_eq!(done.destination_amount, 999);
}

#[test]
fn swap_is_gated_by_the_switches() {
    let pool = new_pool(
        Fees::default(),
        (100, 100),
        CurveParameters::Stable { amplification: 100 },
    );
    let off = SwapPool {
        config: PoolConfig { trading_disabled: true, ..pool.config },
        ..pool
    };
    assert_eq!(swap(&off, 50, 0, TradeDirection::AtoB), Err(SwapError::TradingDisabled));
    let both = SwapPool {
        config: PoolConfig { trading_disabled: true, withdrawals_only: true, ..pool.config },
        ..pool
    };
    assert_eq!(swap(&both, 50, 0, TradeDirection::AtoB), Err(SwapError::WithdrawalsOnlyMode));
    assert_eq!(swap(&both, 0, 0, TradeDirection::AtoB), Err(SwapError::WithdrawalsOnlyMode));
}

#[test]
fn swap_rejections() {
    let pool = new_pool(
        Fees::default(),
        (100, 100),
        CurveParameters::Stable { amplification: 100 },
    );
    assert_eq!(swap(&pool, 0, 0, TradeDirection::AtoB), Err(SwapError::ZeroTradingTokens));
    assert_eq!(swap(&pool, 1, 0, TradeDirection::AtoB), Err(SwapError::ZeroTradingTokens));
    assert_eq!(swap(&pool, 50, 50, TradeDirection::AtoB), Err(SwapError::ExceededSlippage));
    assert_eq!(swap(&pool, 50, 49, TradeDirection::AtoB).unwrap().destination_amount, 49);

    let greedy = SwapPool {
        fees: Fees {
            trade_fee_numerator: 6,
            trade_fee_denominator: 10,
            owner_trade_fee_numerator: 6,
            owner_trade_fee_denominator: 10,
            ..Default::default()
        },
        ..pool
    };
    assert_eq!(swap(&greedy, 50, 0, TradeDirection::AtoB), Err(SwapError::FeeCalculationFailure));

    let broken_fees = SwapPool {
        fees: Fees { trade_fee_numerator: 2, trade_fee_denominator: 1, ..Default::default() },
        ..pool
    };
    assert_eq!(swap(&broken_fees, 50, 0, TradeDirection::AtoB), Err(SwapError::InvalidFee));

    let broken_curve = SwapPool { curve: CurveParameters::Stable { amplification: 0 }, ..pool };
    assert_eq!(swap(&broken_curve, 50, 0, TradeDirection::AtoB), Err(SwapError::InvalidCurve));

    let full = SwapPool { token_a_reserve: u64::MAX - 10, ..pool };
    assert_eq!(swap(&full, 50, 0, TradeDirection::AtoB), Err(SwapError::CalculationFailure));
}

#[test]
fn swap_direction_picks_the_reserves() {
    let pool = SwapPool {
        token_a_reserve: 1000,
        token_b_reserve: 3000,
        ..new_pool(Fees::default(), (1, 1), CurveParameters::Stable { amplification: 10 })
    };
    let a_to_b = swap(&pool, 500, 0, TradeDirection::AtoB).unwrap();
    assert_eq!(a_to_b.destination_amount, 547);
    assert_eq!(a_to_b.new_source_reserve, 1500);
    assert_eq!(a_to_b.new_destination_reserve, 2453);
    let b_to_a = swap(&pool, 500, 0, TradeDirection::BtoA).unwrap();
    assert_eq!(b_to_a.destination_amount, 393);
    assert_eq!(b_to_a.new_source_reserve, 3500);
    assert_eq!(b_to_a.new_destination_reserve, 607);
}
