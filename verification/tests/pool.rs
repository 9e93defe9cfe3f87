use hyperplane::config::VALUE_BYTE_ARRAY_LEN;
use hyperplane::fees::calculate_fee;
use hyperplane::pool::{WithdrawFeesResult, INITIAL_POOL_TOKEN_SUPPLY};
use hyperplane::{
    initialize_pool, pool_token_account_size, update_pool_config, withdraw_fees, CurveParameters,
    ErrorClass, Fees, InitialSupply, PoolConfig, SwapError, SwapPool, TradeDirection,
    UpdatePoolConfigMode, UpdatePoolConfigValue,
};

#[test]
fn a_new_pool_holds_the_declared_supply() {
    let fees = Fees {
        trade_fee_numerator: 1,
        trade_fee_denominator: 100,
        ..Default::default()
    };
    let curve = CurveParameters::Stable { amplification: 100 };
    let pool = initialize_pool(curve, fees, 123, 456).unwrap();
    assert_eq!(
        pool,
        SwapPool {
            curve,
            fees,
            config: PoolConfig::default(),
            token_a_reserve: 123,
            token_b_reserve: 456,
            pool_token_supply: 1_000_000_000,
        }
    );
    assert_eq!(INITIAL_POOL_TOKEN_SUPPLY, 1_000_000_000);
    assert!(pool.config.can_swap());
    assert!(pool.config.can_deposit());
    assert!(pool.config.can_withdraw());
    assert!(pool.validate().is_ok());
    assert_eq!(pool.source_reserve(TradeDirection::AtoB), 123);
    assert_eq!(pool.destination_reserve(TradeDirection::AtoB), 456);
    assert_eq!(pool.source_reserve(TradeDirection::BtoA), 456);
    assert_eq!(pool.destination_reserve(TradeDirection::BtoA), 123);
    let supply = InitialSupply::new(123, 456);
    assert_eq!((supply.initial_supply_a, supply.initial_supply_b), (123, 456));
}

#[test]
fn a_pool_is_not_created_from_bad_parameters() {
    let curve = CurveParameters::Stable { amplification: 100 };
    assert_eq!(
        initialize_pool(CurveParameters::Stable { amplification: 0 }, Fees::default(), 1, 1),
        Err(SwapError::InvalidCurve)
    );
    assert_eq!(
        initialize_pool(
            CurveParameters::ConstantPrice { token_b_price: 0 },
            Fees { trade_fee_numerator: 1, ..Default::default() },
            1,
            1
        ),
        Err(SwapError::InvalidCurve)
    );
    assert_eq!(
        initialize_pool(curve, Fees { trade_fee_numerator: 1, ..Default::default() }, 1, 1),
        Err(SwapError::InvalidFee)
    );
    assert_eq!(
        initialize_pool(
            curve,
            Fees { host_fee_numerator: 11, host_fee_denominator: 10, ..Default::default() },
            1,
            1
        ),
        Err(SwapError::InvalidFee)
    );
    assert_eq!(initialize_pool(curve, Fees::default(), 0, 1), Err(SwapError::EmptySupply));
    assert_eq!(initialize_pool(curve, Fees::default(), 1, 0), Err(SwapError::EmptySupply));
}

#[test]
fn fee_fractions_are_validated() {
    assert!(Fees::default().validate().is_ok());
    let whole = Fees {
        trade_fee_numerator: 10,
        trade_fee_denominator: 10,
        owner_trade_fee_numerator: 0,
        owner_trade_fee_denominator: 0,
        owner_withdraw_fee_numerator: 1,
        owner_withdraw_fee_denominator: u64::MAX,
        host_fee_numerator: 0,
        host_fee_denominator: 5,
    };
    assert!(whole.validate().is_ok());
    for bad in [
        Fees { trade_fee_numerator: 1, trade_fee_denominator: 0, ..whole },
        Fees { owner_trade_fee_numerator: 3, owner_trade_fee_denominator: 2, ..whole },
        Fees { owner_withdraw_fee_numerator: 1, owner_withdraw_fee_denominator: 0, ..whole },
        Fees { host_fee_numerator: 6, ..whole },
    ] {
        assert_eq!(bad.validate(), Err(SwapError::InvalidFee));
    }
}

#[test]
fn fees_are_rounded_down() {
    assert_eq!(calculate_fee(10000, 1000, 10000), Ok(1000));
    assert_eq!(calculate_fee(9999, 1000, 10000), Ok(999));
    assert_eq!(calculate_fee(50, 1, 100), Ok(0));
    assert_eq!(calculate_fee(199, 1, 100), Ok(1));
    assert_eq!(calculate_fee(u64::MAX, u64::MAX, u64::MAX), Ok(u64::MAX));
    assert_eq!(calculate_fee(u64::MAX, 1, 2), Ok(u64::MAX / 2));
    assert_eq!(calculate_fee(77, 0, 0), Ok(0));
    assert_eq!(calculate_fee(77, 0, 5), Ok(0));
    assert_eq!(calculate_fee(77, 1, 0), Err(SwapError::FeeCalculationFailure));
    assert_eq!(calculate_fee(u64::MAX, 2, 1), Err(SwapError::FeeCalculationFailure));
    assert_eq!(calculate_fee(7, 2, 1), Ok(14));

    let fees = Fees {
        trade_fee_numerator: 25,
        trade_fee_denominator: 10000,
        owner_trade_fee_numerator: 5,
        owner_trade_fee_denominator: 10000,
        owner_withdraw_fee_numerator: 1,
        owner_withdraw_fee_denominator: 6,
        host_fee_numerator: 20,
        host_fee_denominator: 100,
    };
    assert_eq!(fees.trading_fee(1_000_000), Ok(2500));
    assert_eq!(fees.owner_fee(1_000_000), Ok(500));
    assert_eq!(fees.owner_withdraw_fee(100), Ok(16));
    assert_eq!(fees.host_fee(500), Ok(100));
    assert_eq!(fees.host_fee(4), Ok(0));
}

#[test]
fn errors_fall_into_classes() {
    assert_eq!(SwapError::CalculationFailure.class(), ErrorClass::Arithmetic);
    assert_eq!(SwapError::FeeCalculationFailure.class(), ErrorClass::Arithmetic);
    assert_eq!(SwapError::ExceededSlippage.class(), ErrorClass::InputValidation);
    assert_eq!(SwapError::ZeroTradingTokens.class(), ErrorClass::InputValidation);
    assert_eq!(SwapError::ExceedsMaxAmount.class(), ErrorClass::InputValidation);
    assert_eq!(SwapError::WithdrawalsOnlyMode.class(), ErrorClass::InputValidation);
    assert_eq!(SwapError::TradingDisabled.class(), ErrorClass::InputValidation);
    assert_eq!(SwapError::DepositsDisabled.class(), ErrorClass::InputValidation);
    assert_eq!(SwapError::InvalidFee.class(), ErrorClass::Configuration);
    assert_eq!(SwapError::InvalidCurve.class(), ErrorClass::Configuration);
    assert_eq!(SwapError::EmptySupply.class(), ErrorClass::Configuration);
    assert_eq!(SwapError::InvalidConfigMode.class(), ErrorClass::Configuration);
    assert_eq!(SwapError::InvalidConfigValue.class(), ErrorClass::Configuration);
    assert!(SwapError::CalculationFailure.is_fatal());
    assert!(SwapError::FeeCalculationFailure.is_fatal());
    assert!(!SwapError::ExceededSlippage.is_fatal());
    assert!(!SwapError::InvalidFee.is_fatal());
}

#[test]
fn configuration_updates_set_one_switch() {
    let config = PoolConfig::default();
    let mut on = [0u8; 32];
    on[0] = 1;
    let off = [0u8; 32];
    assert_eq!(VALUE_BYTE_ARRAY_LEN, 32);
    assert_eq!(UpdatePoolConfigValue::Bool(true).to_bytes(), on);
    assert_eq!(UpdatePoolConfigValue::Bool(false).to_bytes(), off);
    assert_eq!(UpdatePoolConfigMode::WithdrawalsOnly.to_u16(), 0);
    assert_eq!(UpdatePoolConfigMode::TradingDisabled.to_u16(), 1);
    assert_eq!(UpdatePoolConfigMode::DepositsDisabled.to_u16(), 2);
    assert_eq!(UpdatePoolConfigMode::from_u16(1), Some(UpdatePoolConfigMode::TradingDisabled));
    assert_eq!(UpdatePoolConfigMode::from_u16(3), None);

    let only = update_pool_config(&config, 0, &on).unwrap();
    assert_eq!(
        only,
        PoolConfig { trading_disabled: false, deposits_disabled: false, withdrawals_only: true }
    );
    assert!(!only.can_swap());
    assert!(!only.can_deposit());
    assert!(only.can_withdraw());
    assert_eq!(only.check_withdraw(), Ok(()));
    assert_eq!(only.check_swap(), Err(SwapError::WithdrawalsOnlyMode));
    assert_eq!(only.check_deposit(), Err(SwapError::WithdrawalsOnlyMode));

    let no_trading = update_pool_config(&config, 1, &on).unwrap();
    assert!(no_trading.trading_disabled);
    assert!(!no_trading.can_swap());
    assert!(no_trading.can_deposit());
    assert_eq!(no_trading.check_swap(), Err(SwapError::TradingDisabled));
    assert_eq!(no_trading.check_deposit(), Ok(()));

    let no_deposits = update_pool_config(&no_trading, 2, &on).unwrap();
    assert!(no_deposits.trading_disabled);
    assert!(no_deposits.deposits_disabled);
    assert!(!no_deposits.can_deposit());
    assert_eq!(no_deposits.check_deposit(), Err(SwapError::DepositsDisabled));

    let back = update_pool_config(&no_deposits, 1, &off).unwrap();
    assert_eq!(
        back,
        PoolConfig { trading_disabled: false, deposits_disabled: true, withdrawals_only: false }
    );
    assert!(back.can_swap());
    assert_eq!(back.check_swap(), Ok(()));
}

#[test]
fn malformed_configuration_updates_are_turned_down() {
    let config = PoolConfig::default();
    let on = UpdatePoolConfigValue::Bool(true).to_bytes();
    assert_eq!(update_pool_config(&config, 3, &on), Err(SwapError::InvalidConfigMode));
    assert_eq!(update_pool_config(&config, u16::MAX, &on), Err(SwapError::InvalidConfigMode));
    let mut two = [0u8; 32];
    two[0] = 2;
    assert_eq!(update_pool_config(&config, 0, &two), Err(SwapError::InvalidConfigValue));
    let mut trailing = on;
    trailing[31] = 1;
    assert_eq!(update_pool_config(&config, 0, &trailing), Err(SwapError::InvalidConfigValue));
    assert_eq!(UpdatePoolConfigValue::bool_from_bytes(&trailing), None);
    assert_eq!(
        UpdatePoolConfigValue::bool_from_bytes(&on),
        Some(UpdatePoolConfigValue::Bool(true))
    );
}

#[test]
fn fees_are_paid_out_up_to_what_the_vault_holds() {
    assert_eq!(
        withdraw_fees(100, 30),
        Ok(WithdrawFeesResult { withdrawn_amount: 30, remaining_amount: 70 })
    );
    assert_eq!(
        withdraw_fees(100, 100),
        Ok(WithdrawFeesResult { withdrawn_amount: 100, remaining_amount: 0 })
    );
    assert_eq!(
        withdraw_fees(100, u64::MAX),
        Ok(WithdrawFeesResult { withdrawn_amount: 100, remaining_amount: 0 })
    );
    assert_eq!(withdraw_fees(100, 0), Err(SwapError::ZeroTradingTokens));
    assert_eq!(withdraw_fees(0, 5), Err(SwapError::ZeroTradingTokens));
}

#[test]
fn token_account_size_follows_the_mint_extensions() {
    assert_eq!(pool_token_account_size(82), Some(165));
    assert_eq!(pool_token_account_size(0), Some(165));
    assert_eq!(pool_token_account_size(81), Some(165));
    assert_eq!(pool_token_account_size(83), Some(166));
    assert_eq!(pool_token_account_size(100), Some(183));
    assert_eq!(pool_token_account_size(usize::MAX), None);
    assert_eq!(pool_token_account_size(usize::MAX - 165 + 82), Some(usize::MAX));
    assert_eq!(pool_token_account_size(usize::MAX - 165 + 83), None);
}
