//! Gas limits and fees derived from the optional overrides of a chain
//! configuration.

use crate::decimal::{lemma_ceil_div_monotonic, scaled_product_ceil, Decimal, SCALE};
use crate::dynamic_gas::{initial_state, DynamicGasPrice, DynamicGasPricePolicy, PolicyError};
use vstd::prelude::*;

verus! {

/// Gas limit used when the configuration names none.
pub const DEFAULT_MAX_GAS: u64 = 400_000;

/// Price of one unit of gas, in a denomination.
#[derive(Debug, PartialEq, Eq)]
pub struct GasPrice {
    pub price: Decimal,
    pub denom: String,
}

/// A price as contracts see it.
pub struct GasPriceView {
    pub price: Decimal,
    pub denom: Seq<char>,
}

impl View for GasPrice {
    type V = GasPriceView;

    open spec fn view(&self) -> GasPriceView {
        GasPriceView { price: self.price, denom: self.denom@ }
    }
}

impl Clone for GasPrice {
    fn clone(&self) -> (copy: GasPrice)
        ensures
            copy == *self,
    {
        GasPrice { price: self.price, denom: self.denom.clone() }
    }
}

/// An amount of one denomination.
#[derive(Debug, PartialEq, Eq)]
pub struct Coin {
    pub denom: String,
    pub amount: u128,
}

/// A coin as contracts see it.
pub struct CoinView {
    pub denom: Seq<char>,
    pub amount: nat,
}

impl View for Coin {
    type V = CoinView;

    open spec fn view(&self) -> CoinView {
        CoinView { denom: self.denom@, amount: self.amount as nat }
    }
}

impl Clone for Coin {
    fn clone(&self) -> (copy: Coin)
        ensures
            copy == *self,
    {
        Coin { denom: self.denom.clone(), amount: self.amount }
    }
}

/// The charge attached to a transaction: what is paid, the gas it may use,
/// and who pays. An empty payer or granter means none is named.
#[derive(Debug, PartialEq, Eq)]
pub struct Fee {
    pub amount: Coin,
    pub gas_limit: u64,
    pub payer: String,
    pub granter: String,
}

/// A fee as contracts see it.
pub struct FeeView {
    pub amount: CoinView,
    pub gas_limit: u64,
    pub payer: Seq<char>,
    pub granter: Seq<char>,
}

impl View for Fee {
    type V = FeeView;

    open spec fn view(&self) -> FeeView {
        FeeView {
            amount: self.amount@,
            gas_limit: self.gas_limit,
            payer: self.payer@,
            granter: self.granter@,
        }
    }
}

impl Clone for Fee {
    fn clone(&self) -> (copy: Fee)
        ensures
            copy == *self,
    {
        Fee {
            amount: self.amount.clone(),
            gas_limit: self.gas_limit,
            payer: self.payer.clone(),
            granter: self.granter.clone(),
        }
    }
}

/// Why a fee or a gas configuration could not be derived.
#[derive(Clone, Copy, Debug, PartialEq, Eq, Structural)]
pub enum GasError {
    /// The fee for `gas` units at `price_units` parts per unit exceeds the
    /// largest amount a coin can hold.
    FeeOverflow { gas: u64, price_units: u128 },
    /// The configured default gas lies above the gas ceiling.
    DefaultGasExceedsMaxGas { default_gas: u64, max_gas: u64 },
}

/// The fee for `gas` units at `price` per unit: their product, rounded up.
pub open spec fn fee_amount(gas: u64, price: Decimal) -> nat {
    scaled_product_ceil(price.units as nat, gas as nat)
}

/// The coin that pays for `gas` units at `gas_price`.
pub open spec fn fee_coin(gas: u64, gas_price: GasPriceView) -> CoinView {
    CoinView { denom: gas_price.denom, amount: fee_amount(gas, gas_price.price) }
}

/// The fee for a gas amount at a price: the product rounded up to a whole
/// amount, in the price's denomination. Fails, naming both operands, exactly
/// when that amount exceeds what a coin can hold.
pub fn calculate_fee(adjusted_gas_amount: u64, gas_price: &GasPrice) -> (r: Result<Coin, GasError>)
    ensures
        fee_amount(adjusted_gas_amount, gas_price.price) <= u128::MAX ==> r is Ok
            && r->Ok_0@ == fee_coin(adjusted_gas_amount, gas_price@),
        fee_amount(adjusted_gas_amount, gas_price.price) > u128::MAX ==> r == Err::<Coin, GasError>(
            GasError::FeeOverflow {
                gas: adjusted_gas_amount,
                price_units: gas_price.price.units,
            },
        ),
{
    match gas_price.price.mul_int_ceil(adjusted_gas_amount) {
        Some(amount) => Ok(Coin { denom: gas_price.denom.clone(), amount }),
        None => Err(
            GasError::FeeOverflow { gas: adjusted_gas_amount, price_units: gas_price.price.units },
        ),
    }
}

/// For a fixed price, more gas never costs less.
pub proof fn lemma_fee_monotonic_in_gas(price: Decimal, gas: u64, more_gas: u64)
    requires
        gas <= more_gas,
    ensures
        fee_amount(gas, price) <= fee_amount(more_gas, price),
{
    assert(price.units * gas <= price.units * more_gas) by (nonlinear_arith)
        requires
            gas <= more_gas,
    ;
    lemma_ceil_div_monotonic(
        (price.units * gas) as nat,
        (price.units * more_gas) as nat,
        SCALE as nat,
    );
}

/// For a fixed gas amount, a higher price never costs less.
pub proof fn lemma_fee_monotonic_in_price(gas: u64, price: Decimal, higher: Decimal)
    requires
        price.units <= higher.units,
    ensures
        fee_amount(gas, price) <= fee_amount(gas, higher),
{
    assert(price.units * gas <= higher.units * gas) by (nonlinear_arith)
        requires
            price.units <= higher.units,
    ;
    lemma_ceil_div_monotonic(
        (price.units * gas) as nat,
        (higher.units * gas) as nat,
        SCALE as nat,
    );
}

/// The optional overrides that a chain configuration supplies, with the
/// price and the escalation bounds that it always names.
#[derive(Debug, PartialEq, Eq)]
pub struct CosmosSdkConfig {
    pub default_gas: Option<u64>,
    pub max_gas: Option<u64>,
    pub gas_multiplier: Option<Decimal>,
    pub gas_price: GasPrice,
    pub fee_granter: Option<String>,
    pub dynamic_gas_price: DynamicGasPrice,
}

/// The gas ceiling of a configuration: its override, else the default.
pub open spec fn max_gas_of(config: &CosmosSdkConfig) -> u64 {
    match config.max_gas {
        Some(gas) => gas,
        None => DEFAULT_MAX_GAS,
    }
}

/// The gas assumed without a simulation: the override, else the ceiling.
pub open spec fn default_gas_of(config: &CosmosSdkConfig) -> u64 {
    match config.default_gas {
        Some(gas) => gas,
        None => max_gas_of(config),
    }
}

/// The factor applied to simulated gas: the override, else one.
pub open spec fn gas_multiplier_of(config: &CosmosSdkConfig) -> Decimal {
    match config.gas_multiplier {
        Some(multiplier) => multiplier,
        None => Decimal { units: SCALE },
    }
}

/// The address that pays fees for the sender: the override, else empty.
pub open spec fn fee_granter_of(config: &CosmosSdkConfig) -> Seq<char> {
    match config.fee_granter {
        Some(granter) => granter@,
        None => Seq::empty(),
    }
}

/// Whether the fee for the gas ceiling at the configured price fits a coin.
pub open spec fn max_fee_fits(config: &CosmosSdkConfig) -> bool {
    fee_amount(max_gas_of(config), config.gas_price.price) <= u128::MAX
}

/// The largest fee a configuration allows: the fee for its gas ceiling,
/// limited to that ceiling, with no payer and the configured granter.
pub open spec fn max_fee_of(config: &CosmosSdkConfig) -> FeeView {
    FeeView {
        amount: fee_coin(max_gas_of(config), config.gas_price@),
        gas_limit: max_gas_of(config),
        payer: Seq::empty(),
        granter: fee_granter_of(config),
    }
}

/// The error that reports a largest fee beyond what a coin can hold.
pub open spec fn max_fee_overflow(config: &CosmosSdkConfig) -> GasError {
    GasError::FeeOverflow {
        gas: max_gas_of(config),
        price_units: config.gas_price.price.units,
    }
}

/// The largest fee of every configuration is limited to its gas ceiling
/// and pays exactly the fee for that ceiling at the configured price; it
/// can be held exactly when that fee can.
pub proof fn lemma_max_fee_is_fee_for_max_gas(config: &CosmosSdkConfig)
    ensures
        max_fee_of(config).gas_limit == max_gas_of(config),
        max_fee_of(config).amount == fee_coin(max_gas_of(config), config.gas_price@),
        max_fee_of(config).amount.amount == fee_amount(max_gas_of(config), config.gas_price.price),
        max_fee_fits(config) <==> fee_amount(max_gas_of(config), config.gas_price.price)
            <= u128::MAX,
{
}

/// The amount of gas to pay for when a transaction cannot be simulated.
pub fn default_gas_from_config(config: &CosmosSdkConfig) -> (gas: u64)
    ensures
        gas == default_gas_of(config),
        config.default_gas is None ==> gas == max_gas_of(config),
{
    match config.default_gas {
        Some(gas) => gas,
        None => max_gas_from_config(config),
    }
}

/// The most gas to pay for in one transaction.
pub fn max_gas_from_config(config: &CosmosSdkConfig) -> (gas: u64)
    ensures
        gas == max_gas_of(config),
        config.max_gas is None ==> gas == 400_000,
{
    match config.max_gas {
        Some(gas) => gas,
        None => DEFAULT_MAX_GAS,
    }
}

/// The configured gas ceiling, if there is one.
pub fn max_gas_from_config_opt(config: &CosmosSdkConfig) -> (gas: Option<u64>)
    ensures
        gas == config.max_gas,
{
    config.max_gas
}

/// The factor by which simulated gas is scaled up.
pub fn gas_multiplier_from_config(config: &CosmosSdkConfig) -> (multiplier: Decimal)
    ensures
        multiplier == gas_multiplier_of(config),
{
    match config.gas_multiplier {
        Some(multiplier) => multiplier,
        None => Decimal::one(),
    }
}

/// The address that pays fees on the sender's behalf; empty for none.
pub fn fee_granter_from_config(config: &CosmosSdkConfig) -> (granter: String)
    ensures
        granter@ == fee_granter_of(config),
{
    match &config.fee_granter {
        Some(granter) => granter.clone(),
        None => String::new(),
    }
}

/// The largest fee to pay for one transaction. Fails exactly when the fee
/// for the gas ceiling exceeds what a coin can hold.
pub fn max_fee_from_config(config: &CosmosSdkConfig) -> (r: Result<Fee, GasError>)
    ensures
        max_fee_fits(config) ==> r is Ok && r->Ok_0@ == max_fee_of(config),
        !max_fee_fits(config) ==> r == Err::<Fee, GasError>(max_fee_overflow(config)),
        r is Ok ==> r->Ok_0.gas_limit == max_gas_of(config) && r->Ok_0.amount@ == fee_coin(
            max_gas_of(config),
            config.gas_price@,
        ),
{
    let max_gas: u64 = max_gas_from_config(config);
    match calculate_fee(max_gas, &config.gas_price) {
        Ok(max_fee_in_coins) => {
            let fee_granter = fee_granter_from_config(config);
            Ok(
                Fee {
                    amount: max_fee_in_coins,
                    gas_limit: max_gas,
                    payer: String::new(),
                    granter: fee_granter,
                },
            )
        },
        Err(e) => Err(e),
    }
}

/// The resolved gas policy of one chain endpoint.
#[derive(Debug, PartialEq, Eq)]
pub struct GasConfig {
    pub default_gas: u64,
    pub max_gas: u64,
    pub gas_multiplier: Decimal,
    pub gas_price: GasPrice,
    pub max_fee: Fee,
    pub fee_granter: String,
    pub dynamic_gas_price: DynamicGasPrice,
}

/// A gas policy as contracts see it.
pub struct GasConfigView {
    pub default_gas: u64,
    pub max_gas: u64,
    pub gas_multiplier: Decimal,
    pub gas_price: GasPriceView,
    pub max_fee: FeeView,
    pub fee_granter: Seq<char>,
    pub dynamic_gas_price: DynamicGasPrice,
}

impl View for GasConfig {
    type V = GasConfigView;

    open spec fn view(&self) -> GasConfigView {
        GasConfigView {
            default_gas: self.default_gas,
            max_gas: self.max_gas,
            gas_multiplier: self.gas_multiplier,
            gas_price: self.gas_price@,
            max_fee: self.max_fee@,
            fee_granter: self.fee_granter@,
            dynamic_gas_price: self.dynamic_gas_price,
        }
    }
}

/// The gas policy that a configuration resolves to.
pub open spec fn gas_config_of(config: &CosmosSdkConfig) -> GasConfigView {
    GasConfigView {
        default_gas: default_gas_of(config),
        max_gas: max_gas_of(config),
        gas_multiplier: gas_multiplier_of(config),
        gas_price: config.gas_price@,
        max_fee: max_fee_of(config),
        fee_granter: fee_granter_of(config),
        dynamic_gas_price: config.dynamic_gas_price,
    }
}

impl Clone for GasConfig {
    fn clone(&self) -> (copy: GasConfig)
        ensures
            copy == *self,
    {
        GasConfig {
            default_gas: self.default_gas,
            max_gas: self.max_gas,
            gas_multiplier: self.gas_multiplier,
            gas_price: self.gas_price.clone(),
            max_fee: self.max_fee.clone(),
            fee_granter: self.fee_granter.clone(),
            dynamic_gas_price: self.dynamic_gas_price,
        }
    }
}

impl GasConfig {
    /// Resolves every field of the gas policy from a configuration. Fails
    /// exactly when the largest fee exceeds what a coin can hold.
    pub fn from(config: &CosmosSdkConfig) -> (r: Result<GasConfig, GasError>)
        ensures
            max_fee_fits(config) ==> r is Ok && r->Ok_0@ == gas_config_of(config),
            !max_fee_fits(config) ==> r == Err::<GasConfig, GasError>(max_fee_overflow(config)),
    {
        match max_fee_from_config(config) {
            Ok(max_fee) => Ok(
                GasConfig {
                    default_gas: default_gas_from_config(config),
                    max_gas: max_gas_from_config(config),
                    gas_multiplier: gas_multiplier_from_config(config),
                    gas_price: config.gas_price.clone(),
                    max_fee,
                    fee_granter: fee_granter_from_config(config),
                    dynamic_gas_price: config.dynamic_gas_price,
                },
            ),
            Err(e) => Err(e),
        }
    }

    /// The price policy for one new submission: it starts at the
    /// configured price and escalates within the configured bounds.
    /// Refused exactly when escalation is enabled with a multiplier below
    /// one or with a ceiling below the configured price.
    pub fn price_policy(&self) -> (r: Result<DynamicGasPricePolicy, PolicyError>)
        ensures
            r is Ok <==> !self.dynamic_gas_price.enabled || (
            self.dynamic_gas_price.multiplier.units >= SCALE && self.gas_price.price.units
                <= self.dynamic_gas_price.max.units),
            r is Ok ==> r->Ok_0@ == initial_state(self.dynamic_gas_price, self.gas_price.price)
                && r->Ok_0@.wf(),
            self.dynamic_gas_price.enabled && self.dynamic_gas_price.multiplier.units < SCALE
                ==> r == Err::<DynamicGasPricePolicy, PolicyError>(
                PolicyError::MultiplierBelowOne { multiplier: self.dynamic_gas_price.multiplier },
            ),
            self.dynamic_gas_price.enabled && self.dynamic_gas_price.multiplier.units >= SCALE
                && self.gas_price.price.units > self.dynamic_gas_price.max.units ==> r == Err::<
                DynamicGasPricePolicy,
                PolicyError,
            >(
                PolicyError::BasePriceAboveMax {
                    base_price: self.gas_price.price,
                    max_price: self.dynamic_gas_price.max,
                },
            ),
    {
        DynamicGasPricePolicy::new(&self.dynamic_gas_price, self.gas_price.price)
    }

    /// Reports a default gas that lies above the gas ceiling, which only
    /// an explicit override can cause.
    pub fn validate(&self) -> (r: Result<(), GasError>)
        ensures
            self.default_gas <= self.max_gas ==> r == Ok::<(), GasError>(()),
            self.default_gas > self.max_gas ==> r == Err::<(), GasError>(
                GasError::DefaultGasExceedsMaxGas {
                    default_gas: self.default_gas,
                    max_gas: self.max_gas,
                },
            ),
    {
        if self.default_gas <= self.max_gas {
            Ok(())
        } else {
            Err(
                GasError::DefaultGasExceedsMaxGas {
                    default_gas: self.default_gas,
                    max_gas: self.max_gas,
                },
            )
        }
    }
}

/// A configuration without a default-gas override resolves to a policy
/// whose default gas is its gas ceiling, so that validation passes.
pub proof fn lemma_unset_default_gas_is_valid(config: &CosmosSdkConfig)
    requires
        config.default_gas is None,
    ensures
        gas_config_of(config).default_gas == gas_config_of(config).max_gas,
{
}

} // verus!
