use hyperplane::{
    deposit, deposit_single_token_type, initialize_pool, pool_tokens_to_trading_tokens, withdraw,
    withdraw_single_token_type_exact_out, CurveParameters, DepositResult, Fees, PoolConfig,
    RoundDirection, SingleTokenResult, SwapError, SwapPool, TradeDirection, TradingTokenResult,
    WithdrawResult,
};

fn pool(reserve_a: u64, reserve_b: u64, supply: u64) -> SwapPool {
    SwapPool {
        token_a_reserve: reserve_a,
        token_b_reserve: reserve_b,
        pool_token_supply: supply,
        ..initialize_pool(
            CurveParameters::Stable { amplification: 100 },
            Fees::default(),
            1,
            1,
        )
        .unwrap()
    }
}

#[test]
fn shares_round_as_asked() {
    assert_eq!(
        pool_tokens_to_trading_tokens(1_500_000, 1_000_000_000, 1000, 3000, RoundDirection::Ceiling),
        Ok(TradingTokenResult { token_a_amount: 2, token_b_amount: 5 })
    );
    assert_eq!(
        pool_tokens_to_trading_tokens(1_500_000, 1_000_000_000, 1000, 3000, RoundDirection::Floor),
        Ok(TradingTokenResult { token_a_amount: 1, token_b_amount: 4 })
    );
    assert_eq!(
        pool_tokens_to_trading_tokens(1_000_000, 1_000_000_000, 1000, 3000, RoundDirection::Ceiling),
        Ok(TradingTokenResult { token_a_amount: 1, token_b_amount: 3 })
    );
    assert_eq!(
        pool_tokens_to_trading_tokens(5, 0, 1000, 3000, RoundDirection::Floor),
        Err(SwapError::EmptySupply)
    );
    assert_eq!(
        pool_tokens_to_trading_tokens(3, 1, u64::MAX, 3000, RoundDirection::Floor),
        Err(SwapError::CalculationFailure)
    );
}

#[test]
fn deposit_pays_the_share_rounded_up() {
    let p = pool(1000, 3000, 1_000_000_000);
    assert_eq!(
        deposit(&p, 1_500_000, 2, 5),
        Ok(DepositResult {
            token_a_amount: 2,
            token_b_amount: 5,
            pool_token_amount: 1_500_000,
            new_token_a_reserve: 1002,
            new_token_b_reserve: 3005,
            new_pool_token_supply: 1_001_500_000,
        })
    );
}

#[test]
fn deposit_rejections() {
    let p = pool(1000, 3000, 1_000_000_000);
    assert_eq!(deposit(&p, 1_500_000, 1, 5), Err(SwapError::ExceedsMaxAmount));
    assert_eq!(deposit(&p, 1_500_000, 2, 4), Err(SwapError::ExceedsMaxAmount));
    assert_eq!(deposit(&p, 0, 2, 5), Err(SwapError::ZeroTradingTokens));
    assert_eq!(deposit(&pool(0, 0, 10), 5, 2, 5), Err(SwapError::ZeroTradingTokens));
    assert_eq!(deposit(&pool(1000, 3000, 0), 5, 2, 5), Err(SwapError::EmptySupply));
    assert_eq!(
        deposit(&pool(u64::MAX, 3000, 10), 1, u64::MAX, u64::MAX),
        Err(SwapError::CalculationFailure)
    );
    assert_eq!(
        deposit(&pool(1000, 3000, u64::MAX), 1, u64::MAX, u64::MAX),
        Err(SwapError::CalculationFailure)
    );
    let closed = SwapPool { config: PoolConfig { deposits_disabled: true, ..p.config }, ..p };
    assert_eq!(deposit(&closed, 1_500_000, 2, 5), Err(SwapError::DepositsDisabled));
    assert_eq!(
        deposit_single_token_type(&closed, 100, TradeDirection::AtoB, 0),
        Err(SwapError::DepositsDisabled)
    );
    let leaving = SwapPool {
        config: PoolConfig { withdrawals_only: true, deposits_disabled: true, ..p.config },
        ..p
    };
    assert_eq!(deposit(&leaving, 1_500_000, 2, 5), Err(SwapError::WithdrawalsOnlyMode));
    assert_eq!(
        deposit_single_token_type(&leaving, 100, TradeDirection::AtoB, 0),
        Err(SwapError::WithdrawalsOnlyMode)
    );
}

#[test]
fn withdraw_receives_the_share_rounded_down() {
    let p = pool(1000, 3000, 1_000_000_000);
    assert_eq!(
        withdraw(&p, 1_500_000, 1, 4),
        Ok(WithdrawResult {
            token_a_amount: 1,
            token_b_amount: 4,
            pool_token_amount: 1_500_000,
            owner_fee_pool_tokens: 0,
            new_token_a_reserve: 999,
            new_token_b_reserve: 2996,
            new_pool_token_supply: 998_500_000,
        })
    );
    assert_eq!(
        withdraw(&p, 1_000_000_000, 0, 0),
        Ok(WithdrawResult {
            token_a_amount: 1000,
            token_b_amount: 3000,
            pool_token_amount: 1_000_000_000,
            owner_fee_pool_tokens: 0,
            new_token_a_reserve: 0,
            new_token_b_reserve: 0,
            new_pool_token_supply: 0,
        })
    );
}

#[test]
fn withdraw_takes_the_owner_fee_in_pool_tokens() {
    let p = SwapPool {
        fees: Fees {
            owner_withdraw_fee_numerator: 1,
            owner_withdraw_fee_denominator: 10,
            ..Default::default()
        },
        ..pool(1000, 3000, 1_000_000_000)
    };
    assert_eq!(
        withdraw(&p, 1_000_000, 0, 2),
        Ok(WithdrawResult {
            token_a_amount: 0,
            token_b_amount: 2,
            pool_token_amount: 900_000,
            owner_fee_pool_tokens: 100_000,
            new_token_a_reserve: 1000,
            new_token_b_reserve: 2998,
            new_pool_token_supply: 999_100_000,
        })
    );
}

#[test]
fn withdraw_rejections() {
    let p = pool(1000, 3000, 1_000_000_000);
    assert_eq!(withdraw(&p, 1_500_000, 2, 4), Err(SwapError::ExceededSlippage));
    assert_eq!(withdraw(&p, 1_500_000, 1, 5), Err(SwapError::ExceededSlippage));
    assert_eq!(withdraw(&p, 0, 0, 0), Err(SwapError::ZeroTradingTokens));
    assert_eq!(withdraw(&p, 100, 0, 0), Err(SwapError::ZeroTradingTokens));
    assert_eq!(withdraw(&p, 1_000_000_001, 0, 0), Err(SwapError::CalculationFailure));
    let broken = SwapPool {
        fees: Fees {
            owner_withdraw_fee_numerator: 1,
            owner_withdraw_fee_denominator: 0,
            ..Default::default()
        },
        ..p
    };
    assert_eq!(withdraw(&broken, 1_500_000, 0, 0), Err(SwapError::InvalidFee));
}

#[test]
fn withdrawals_stay_open_in_every_mode() {
    let p = pool(1000, 3000, 1_000_000_000);
    for trading_disabled in [false, true] {
        for deposits_disabled in [false, true] {
            for withdrawals_only in [false, true] {
                let config = PoolConfig { trading_disabled, deposits_disabled, withdrawals_only };
                assert!(config.can_withdraw());
                let q = SwapPool { config, ..p };
                assert!(withdraw(&q, 1_500_000, 1, 4).is_ok());
                assert!(withdraw_single_token_type_exact_out(
                    &q,
                    100,
                    TradeDirection::BtoA,
                    u64::MAX
                )
                .is_ok());
            }
        }
    }
}

#[test]
fn deposit_then_withdraw_never_gains() {
    for (reserve_a, reserve_b, supply) in
        [(1000u64, 3000u64, 1_000_000_000u64), (7, 13, 17), (1, 1_000_000, 999), (12345, 678, 91011)]
    {
        let p = pool(reserve_a, reserve_b, supply);
        for amount in [1u64, 2, 3, 10, 500, 1_500_000, 1_000_000_000] {
            let paid = match deposit(&p, amount, u64::MAX, u64::MAX) {
                Ok(paid) => paid,
                Err(_) => continue,
            };
            let after = SwapPool {
                token_a_reserve: paid.new_token_a_reserve,
                token_b_reserve: paid.new_token_b_reserve,
                pool_token_supply: paid.new_pool_token_supply,
                ..p
            };
            if let Ok(back) = withdraw(&after, amount, 0, 0) {
                assert!(back.token_a_amount <= paid.token_a_amount);
                assert!(back.token_b_amount <= paid.token_b_amount);
                assert!(paid.token_a_amount - back.token_a_amount <= 1);
                assert!(paid.token_b_amount - back.token_b_amount <= 1);
                assert!(back.new_token_a_reserve >= reserve_a);
                assert!(back.new_token_a_reserve - reserve_a <= 1);
                assert!(back.new_token_b_reserve >= reserve_b);
                assert!(back.new_token_b_reserve - reserve_b <= 1);
                assert_eq!(back.new_pool_token_supply, supply);
            }
        }
    }
    let p = pool(1000, 3000, 1_000_000_000);
    let paid = deposit(&p, 1_500_000, u64::MAX, u64::MAX).unwrap();
    let after = SwapPool {
        token_a_reserve: paid.new_token_a_reserve,
        token_b_reserve: paid.new_token_b_reserve,
        pool_token_supply: paid.new_pool_token_supply,
        ..p
    };
    let back = withdraw(&after, 1_500_000, 0, 0).unwrap();
    assert_eq!((paid.token_a_amount, paid.token_b_amount), (2, 5));
    assert_eq!((back.token_a_amount, back.token_b_amount), (1, 4));
}

#[test]
fn one_sided_deposit_issues_pool_tokens_rounded_down() {
    let p = pool(1000, 1000, 1_000_000_000);
    assert_eq!(
        deposit_single_token_type(&p, 100, TradeDirection::AtoB, 49_500_000),
        Ok(SingleTokenResult {
            token_amount: 100,
            pool_token_amount: 49_500_000,
            new_token_a_reserve: 1100,
            new_token_b_reserve: 1000,
            new_pool_token_supply: 1_049_500_000,
        })
    );
    assert_eq!(
        deposit_single_token_type(&p, 100, TradeDirection::BtoA, 0),
        Ok(SingleTokenResult {
            token_amount: 100,
            pool_token_amount: 49_500_000,
            new_token_a_reserve: 1000,
            new_token_b_reserve: 1100,
            new_pool_token_supply: 1_049_500_000,
        })
    );
    assert_eq!(
        deposit_single_token_type(&p, 100, TradeDirection::AtoB, 49_500_001),
        Err(SwapError::ExceededSlippage)
    );
    assert_eq!(
        deposit_single_token_type(&p, 0, TradeDirection::AtoB, 0),
        Err(SwapError::ZeroTradingTokens)
    );
    let crowded = pool(1000, 1000, u64::MAX - 5);
    assert_eq!(
        deposit_single_token_type(&crowded, 100, TradeDirection::AtoB, 0),
        Err(SwapError::CalculationFailure)
    );
}

#[test]
fn one_sided_withdrawal_burns_pool_tokens_rounded_up() {
    let p = pool(1000, 1000, 1_000_000_000);
    assert_eq!(
        withdraw_single_token_type_exact_out(&p, 100, TradeDirection::AtoB, 50_500_000),
        Ok(SingleTokenResult {
            token_amount: 100,
            pool_token_amount: 50_500_000,
            new_token_a_reserve: 900,
            new_token_b_reserve: 1000,
            new_pool_token_supply: 949_500_000,
        })
    );
    assert_eq!(
        withdraw_single_token_type_exact_out(&p, 100, TradeDirection::AtoB, 50_499_999),
        Err(SwapError::ExceededSlippage)
    );
    assert_eq!(
        withdraw_single_token_type_exact_out(&p, 1001, TradeDirection::BtoA, u64::MAX),
        Err(SwapError::CalculationFailure)
    );
    let fixed = SwapPool {
        curve: CurveParameters::ConstantPrice { token_b_price: 3 },
        ..pool(1000, 1000, 7)
    };
    assert_eq!(
        withdraw_single_token_type_exact_out(&fixed, 1, TradeDirection::AtoB, 7)
            .unwrap()
            .pool_token_amount,
        1
    );
    assert_eq!(
        deposit_single_token_type(&fixed, 1, TradeDirection::AtoB, 0),
        Err(SwapError::ZeroTradingTokens)
    );
}
