use relayer_fees::decimal::{Decimal, SCALE};
use relayer_fees::dynamic_gas::DynamicGasPrice;
use relayer_fees::gas::{
    calculate_fee, default_gas_from_config, fee_granter_from_config, gas_multiplier_from_config,
    max_fee_from_config, max_gas_from_config, max_gas_from_config_opt, Coin, CosmosSdkConfig, Fee,
    GasConfig, GasError, GasPrice, DEFAULT_MAX_GAS,
};

fn dynamic_off() -> DynamicGasPrice {
    DynamicGasPrice {
        enabled: false,
        multiplier: Decimal::from_units(11 * SCALE / 10),
        max: Decimal::from_units(6 * SCALE / 10),
    }
}

fn bare_config() -> CosmosSdkConfig {
    CosmosSdkConfig {
        default_gas: None,
        max_gas: None,
        gas_multiplier: None,
        gas_price: GasPrice {
            price: Decimal::from_units(25_000_000_000_000_000),
            denom: "uatom".to_string(),
        },
        fee_granter: None,
        dynamic_gas_price: dynamic_off(),
    }
}

#[test]
fn max_gas_defaults_to_four_hundred_thousand() {
    let config = bare_config();
    assert_eq!(DEFAULT_MAX_GAS, 400_000);
    assert_eq!(max_gas_from_config(&config), 400_000);
    assert_eq!(max_gas_from_config_opt(&config), None);
}

#[test]
fn max_gas_override_is_taken() {
    let config = CosmosSdkConfig { max_gas: Some(1_234_567), ..bare_config() };
    assert_eq!(max_gas_from_config(&config), 1_234_567);
    assert_eq!(max_gas_from_config_opt(&config), Some(1_234_567));
    let config = CosmosSdkConfig { max_gas: Some(0), ..bare_config() };
    assert_eq!(max_gas_from_config(&config), 0);
}

#[test]
fn default_gas_falls_back_to_max_gas() {
    assert_eq!(default_gas_from_config(&bare_config()), 400_000);
    let config = CosmosSdkConfig { max_gas: Some(250_000), ..bare_config() };
    assert_eq!(default_gas_from_config(&config), 250_000);
    let config = CosmosSdkConfig { default_gas: Some(100_000), ..bare_config() };
    assert_eq!(default_gas_from_config(&config), 100_000);
    let config =
        CosmosSdkConfig { default_gas: Some(900_000), max_gas: Some(250_000), ..bare_config() };
    assert_eq!(default_gas_from_config(&config), 900_000);
}

#[test]
fn gas_multiplier_defaults_to_one() {
    assert_eq!(gas_multiplier_from_config(&bare_config()), Decimal::one());
    let config =
        CosmosSdkConfig { gas_multiplier: Some(Decimal::from_units(13 * SCALE / 10)), ..bare_config() };
    assert_eq!(gas_multiplier_from_config(&config), Decimal::from_units(1_300_000_000_000_000_000));
}

#[test]
fn fee_granter_defaults_to_empty() {
    assert_eq!(fee_granter_from_config(&bare_config()), "");
    let config = CosmosSdkConfig { fee_granter: Some("cosmos1granter".to_string()), ..bare_config() };
    assert_eq!(fee_granter_from_config(&config), "cosmos1granter");
}

#[test]
fn max_fee_is_the_fee_for_max_gas() {
    let config = CosmosSdkConfig {
        max_gas: Some(300_001),
        gas_price: GasPrice { price: Decimal::from_units(SCALE / 1000), denom: "stake".to_string() },
        fee_granter: Some("cosmos1granter".to_string()),
        ..bare_config()
    };
    let fee = max_fee_from_config(&config).unwrap();
    assert_eq!(fee.gas_limit, max_gas_from_config(&config));
    assert_eq!(fee.amount, calculate_fee(max_gas_from_config(&config), &config.gas_price).unwrap());
    assert_eq!(
        fee,
        Fee {
            amount: Coin { denom: "stake".to_string(), amount: 301 },
            gas_limit: 300_001,
            payer: String::new(),
            granter: "cosmos1granter".to_string(),
        }
    );
}

#[test]
fn max_fee_beyond_a_coin_is_an_error() {
    let config = CosmosSdkConfig {
        max_gas: Some(u64::MAX),
        gas_price: GasPrice { price: Decimal::from_units(u128::MAX), denom: "stake".to_string() },
        ..bare_config()
    };
    let expected = GasError::FeeOverflow { gas: u64::MAX, price_units: u128::MAX };
    assert_eq!(max_fee_from_config(&config), Err(expected));
    assert_eq!(GasConfig::from(&config), Err(expected));
}

#[test]
fn configuration_without_overrides() {
    let config = bare_config();
    let gas_config = GasConfig::from(&config).unwrap();
    assert_eq!(gas_config.max_gas, 400_000);
    assert_eq!(gas_config.default_gas, 400_000);
    assert_eq!(gas_config.max_fee.amount, Coin { denom: "uatom".to_string(), amount: 10_000 });
    assert_eq!(gas_config.max_fee.gas_limit, 400_000);
    assert_eq!(gas_config.max_fee.payer, "");
    assert_eq!(gas_config.max_fee.granter, "");
    assert_eq!(gas_config.fee_granter, "");
    assert_eq!(gas_config.gas_multiplier, Decimal::one());
    assert_eq!(gas_config.gas_price, config.gas_price);
    assert_eq!(gas_config.dynamic_gas_price, dynamic_off());
    assert_eq!(gas_config.validate(), Ok(()));
}

#[test]
fn configuration_with_every_override() {
    let dynamic = DynamicGasPrice {
        enabled: true,
        multiplier: Decimal::from_units(12 * SCALE / 10),
        max: Decimal::from_integer(2),
    };
    let config = CosmosSdkConfig {
        default_gas: Some(120_000),
        max_gas: Some(500_000),
        gas_multiplier: Some(Decimal::from_units(15 * SCALE / 10)),
        gas_price: GasPrice { price: Decimal::from_units(SCALE / 100), denom: "uosmo".to_string() },
        fee_granter: Some("osmo1granter".to_string()),
        dynamic_gas_price: dynamic,
    };
    let gas_config = GasConfig::from(&config).unwrap();
    assert_eq!(
        gas_config,
        GasConfig {
            default_gas: 120_000,
            max_gas: 500_000,
            gas_multiplier: Decimal::from_units(1_500_000_000_000_000_000),
            gas_price: GasPrice { price: Decimal::from_units(SCALE / 100), denom: "uosmo".to_string() },
            max_fee: Fee {
                amount: Coin { denom: "uosmo".to_string(), amount: 5_000 },
                gas_limit: 500_000,
                payer: String::new(),
                granter: "osmo1granter".to_string(),
            },
            fee_granter: "osmo1granter".to_string(),
            dynamic_gas_price: dynamic,
        }
    );
    assert_eq!(gas_config.clone(), gas_config);
    assert_eq!(gas_config.validate(), Ok(()));
}

#[test]
fn default_gas_above_max_gas_is_a_configuration_error() {
    let config =
        CosmosSdkConfig { default_gas: Some(500_000), max_gas: Some(400_000), ..bare_config() };
    let gas_config = GasConfig::from(&config).unwrap();
    assert_eq!(
        gas_config.validate(),
        Err(GasError::DefaultGasExceedsMaxGas { default_gas: 500_000, max_gas: 400_000 })
    );
    let config =
        CosmosSdkConfig { default_gas: Some(400_000), max_gas: Some(400_000), ..bare_config() };
    assert_eq!(GasConfig::from(&config).unwrap().validate(), Ok(()));
}

#[test]
fn more_gas_never_costs_less() {
    let price = GasPrice { price: Decimal::from_units(SCALE / 3), denom: "stake".to_string() };
    let mut last: u128 = 0;
    for gas in 0..200u64 {
        let fee = calculate_fee(gas, &price).unwrap().amount;
        assert!(fee >= last);
        last = fee;
    }
    assert_eq!(last, 67);
}

#[test]
fn price_policy_starts_at_the_configured_price() {
    let dynamic = DynamicGasPrice {
        enabled: true,
        multiplier: Decimal::from_units(11 * SCALE / 10),
        max: Decimal::from_units(6 * SCALE / 10),
    };
    let config = CosmosSdkConfig { dynamic_gas_price: dynamic, ..bare_config() };
    let gas_config = GasConfig::from(&config).unwrap();
    let mut policy = gas_config.price_policy().unwrap();
    assert_eq!(policy.initial_price(), config.gas_price.price);
    assert_eq!(policy.max_price(), dynamic.max);
    // the second attempt pays 0.0275 per unit: 400000 units cost 11000
    let raised = policy.advance().unwrap();
    let price = GasPrice { price: raised, denom: gas_config.gas_price.denom.clone() };
    assert_eq!(
        calculate_fee(gas_config.max_gas, &price),
        Ok(Coin { denom: "uatom".to_string(), amount: 11_000 })
    );
    // switched off, the policy keeps the configured price
    let off = GasConfig::from(&bare_config()).unwrap().price_policy().unwrap();
    assert!(!off.is_enabled());
    assert_eq!(off.escalate(off.initial_price()), bare_config().gas_price.price);
}

#[test]
fn price_policy_refuses_invalid_bounds() {
    let low = DynamicGasPrice {
        enabled: true,
        multiplier: Decimal::from_units(SCALE / 2),
        max: Decimal::one(),
    };
    let config = CosmosSdkConfig { dynamic_gas_price: low, ..bare_config() };
    assert_eq!(
        GasConfig::from(&config).unwrap().price_policy(),
        Err(relayer_fees::dynamic_gas::PolicyError::MultiplierBelowOne {
            multiplier: Decimal::from_units(SCALE / 2)
        })
    );
    let tight = DynamicGasPrice {
        enabled: true,
        multiplier: Decimal::one(),
        max: Decimal::from_units(1),
    };
    let config = CosmosSdkConfig { dynamic_gas_price: tight, ..bare_config() };
    assert_eq!(
        GasConfig::from(&config).unwrap().price_policy(),
        Err(relayer_fees::dynamic_gas::PolicyError::BasePriceAboveMax {
            base_price: Decimal::from_units(25_000_000_000_000_000),
            max_price: Decimal::from_units(1),
        })
    );
}
