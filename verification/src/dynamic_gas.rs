//! Escalation of the gas price across the retries of one submission.
//!
//! A submission starts at the configured base price. Each attempt that
//! fails as underpriced raises the price by the multiplier, rounded up to
//! the next representable price and never beyond the ceiling. When a step
//! would no longer raise the price the submission has to give up.

use crate::decimal::{
    lemma_ceil_div_add_multiple, lemma_ceil_div_monotonic, scaled_product_ceil, Decimal, SCALE,
};
use vstd::prelude::*;

verus! {

/// The configured bounds of price escalation: whether it is switched on,
/// the factor applied at each step, and the price that is never exceeded.
#[derive(Clone, Copy, Debug, PartialEq, Eq, Structural)]
pub struct DynamicGasPrice {
    pub enabled: bool,
    pub multiplier: Decimal,
    pub max: Decimal,
}

/// Why a policy could not be built or could not raise its price.
#[derive(Clone, Copy, Debug, PartialEq, Eq, Structural)]
pub enum PolicyError {
    /// Escalation is enabled with a multiplier below one, which would
    /// lower the price at each step.
    MultiplierBelowOne { multiplier: Decimal },
    /// Escalation is enabled with a base price above the ceiling.
    BasePriceAboveMax { base_price: Decimal, max_price: Decimal },
    /// Another step would not raise the price above `price`.
    EscalationExhausted { price: Decimal },
}

/// The price `price * multiplier`, rounded up, or `max` if that is lower.
pub open spec fn raised_price(price: Decimal, multiplier: Decimal, max: Decimal) -> Decimal {
    let raised = scaled_product_ceil(price.units as nat, multiplier.units as nat);
    if raised <= max.units {
        Decimal { units: raised as u128 }
    } else {
        max
    }
}

/// What a policy holds at one moment of a submission.
pub struct PolicyState {
    pub enabled: bool,
    pub base_price: Decimal,
    pub current_price: Decimal,
    pub multiplier: Decimal,
    pub max_price: Decimal,
}

impl PolicyState {
    /// An enabled policy never lowers a price and keeps its current price
    /// between base and ceiling; a disabled one stays at its base price.
    pub open spec fn wf(self) -> bool {
        if self.enabled {
            &&& self.multiplier.units >= SCALE
            &&& self.base_price.units <= self.current_price.units
            &&& self.current_price.units <= self.max_price.units
        } else {
            self.current_price == self.base_price
        }
    }

    /// The price for the attempt after one that failed at `price`.
    pub open spec fn escalated(self, price: Decimal) -> Decimal {
        if self.enabled {
            raised_price(price, self.multiplier, self.max_price)
        } else {
            self.base_price
        }
    }

    /// Whether another step would leave the current price as it is.
    pub open spec fn is_exhausted(self) -> bool {
        self.escalated(self.current_price) == self.current_price
    }

    /// The state after one step of escalation.
    pub open spec fn advanced(self) -> PolicyState {
        PolicyState { current_price: self.escalated(self.current_price), ..self }
    }

    /// The state at the start of a new submission.
    pub open spec fn restarted(self) -> PolicyState {
        PolicyState { current_price: self.base_price, ..self }
    }
}

/// The state in which a policy built from `settings` and `base_price`
/// starts.
pub open spec fn initial_state(settings: DynamicGasPrice, base_price: Decimal) -> PolicyState {
    PolicyState {
        enabled: settings.enabled,
        base_price,
        current_price: base_price,
        multiplier: settings.multiplier,
        max_price: settings.max,
    }
}

/// A multiplier of at least one never lowers a price.
pub proof fn lemma_product_not_below_price(price: Decimal, multiplier: Decimal)
    requires
        multiplier.units >= SCALE,
    ensures
        scaled_product_ceil(price.units as nat, multiplier.units as nat) >= price.units,
{
    let p = price.units as nat;
    let s = SCALE as nat;
    assert(p * s <= p * multiplier.units) by (nonlinear_arith)
        requires
            s <= multiplier.units,
    ;
    lemma_ceil_div_monotonic(p * s, (p * multiplier.units) as nat, s);
    lemma_ceil_div_add_multiple(p, 0, s);
    assert(p * s + 0 == p * s);
    assert(0nat % s == 0 && 0nat / s == 0);
}

/// A multiplier above one raises every price above zero.
pub proof fn lemma_product_above_price(price: Decimal, multiplier: Decimal)
    requires
        multiplier.units > SCALE,
        price.units > 0,
    ensures
        scaled_product_ceil(price.units as nat, multiplier.units as nat) > price.units,
{
    let p = price.units as nat;
    let s = SCALE as nat;
    assert(p * s + 1 <= p * multiplier.units) by (nonlinear_arith)
        requires
            s + 1 <= multiplier.units,
            p >= 1,
    ;
    lemma_ceil_div_monotonic(p * s + 1, (p * multiplier.units) as nat, s);
    lemma_ceil_div_add_multiple(p, 1, s);
    assert(1nat % s == 1 && 1nat / s == 0);
}

/// Escalation of an enabled policy never lowers a price that lies within
/// the ceiling, never passes the ceiling, and stays at the ceiling once
/// there.
pub proof fn lemma_escalate_non_decreasing_and_bounded(state: PolicyState, price: Decimal)
    requires
        state.wf(),
        state.enabled,
        price.units <= state.max_price.units,
    ensures
        state.escalated(price).units >= price.units,
        state.escalated(price).units <= state.max_price.units,
        state.escalated(state.max_price) == state.max_price,
{
    lemma_product_not_below_price(price, state.multiplier);
    lemma_product_not_below_price(state.max_price, state.multiplier);
}

/// Escalation keeps the order of prices.
pub proof fn lemma_escalate_monotonic(state: PolicyState, lower: Decimal, higher: Decimal)
    requires
        lower.units <= higher.units,
    ensures
        state.escalated(lower).units <= state.escalated(higher).units,
{
    let m = state.multiplier.units as nat;
    assert(lower.units * m <= higher.units * m) by (nonlinear_arith)
        requires
            lower.units <= higher.units,
    ;
    lemma_ceil_div_monotonic((lower.units * m) as nat, (higher.units * m) as nat, SCALE as nat);
}

/// Below the ceiling, an enabled policy with a multiplier above one
/// raises every price above zero: such a policy is exhausted only at the
/// ceiling.
pub proof fn lemma_escalate_makes_progress(state: PolicyState, price: Decimal)
    requires
        state.enabled,
        state.multiplier.units > SCALE,
        0 < price.units < state.max_price.units,
    ensures
        state.escalated(price).units > price.units,
{
    lemma_product_above_price(price, state.multiplier);
}

/// Every step and every restart leads from a valid state to a valid
/// state, and a step never lowers the current price.
pub proof fn lemma_steps_preserve_validity(state: PolicyState)
    requires
        state.wf(),
    ensures
        state.advanced().wf(),
        state.restarted().wf(),
        state.advanced().current_price.units >= state.current_price.units,
        state.enabled ==> state.advanced().current_price.units <= state.max_price.units,
{
    if state.enabled {
        lemma_escalate_non_decreasing_and_bounded(state, state.current_price);
    }
}

/// The price policy of one submission. Its state is private: it is built
/// valid and every operation keeps it so.
#[derive(Clone, Copy, Debug, PartialEq, Eq)]
pub struct DynamicGasPricePolicy {
    enabled: bool,
    base_price: Decimal,
    current_price: Decimal,
    multiplier: Decimal,
    max_price: Decimal,
}

impl View for DynamicGasPricePolicy {
    type V = PolicyState;

    closed spec fn view(&self) -> PolicyState {
        PolicyState {
            enabled: self.enabled,
            base_price: self.base_price,
            current_price: self.current_price,
            multiplier: self.multiplier,
            max_price: self.max_price,
        }
    }
}

impl DynamicGasPricePolicy {
    #[verifier::type_invariant]
    closed spec fn valid(&self) -> bool {
        self@.wf()
    }

    /// The policy for a new submission at `base_price`. An enabled policy
    /// is refused if its multiplier is below one or, that being in order,
    /// if its base price lies above the ceiling; a disabled one is always
    /// accepted.
    pub fn new(settings: &DynamicGasPrice, base_price: Decimal) -> (r: Result<
        DynamicGasPricePolicy,
        PolicyError,
    >)
        ensures
            !settings.enabled || (settings.multiplier.units >= SCALE && base_price.units
                <= settings.max.units) ==> r is Ok && r->Ok_0@ == initial_state(
                *settings,
                base_price,
            ) && r->Ok_0@.wf(),
            settings.enabled && settings.multiplier.units < SCALE ==> r == Err::<
                DynamicGasPricePolicy,
                PolicyError,
            >(PolicyError::MultiplierBelowOne { multiplier: settings.multiplier }),
            settings.enabled && settings.multiplier.units >= SCALE && base_price.units
                > settings.max.units ==> r == Err::<DynamicGasPricePolicy, PolicyError>(
                PolicyError::BasePriceAboveMax { base_price, max_price: settings.max },
            ),
    {
        if settings.enabled && !settings.multiplier.at_least_one() {
            Err(PolicyError::MultiplierBelowOne { multiplier: settings.multiplier })
        } else if settings.enabled && !base_price.le(&settings.max) {
            Err(PolicyError::BasePriceAboveMax { base_price, max_price: settings.max })
        } else {
            Ok(
                DynamicGasPricePolicy {
                    enabled: settings.enabled,
                    base_price,
                    current_price: base_price,
                    multiplier: settings.multiplier,
                    max_price: settings.max,
                },
            )
        }
    }

    /// Whether escalation is switched on.
    pub fn is_enabled(&self) -> (enabled: bool)
        ensures
            enabled == self@.enabled,
            self@.wf(),
    {
        proof {
            use_type_invariant(self);
        }
        self.enabled
    }

    /// The price of the first attempt of every submission.
    pub fn initial_price(&self) -> (price: Decimal)
        ensures
            price == self@.base_price,
            self@.wf(),
    {
        proof {
            use_type_invariant(self);
        }
        self.base_price
    }

    /// The price of the attempt that comes next.
    pub fn current_price(&self) -> (price: Decimal)
        ensures
            price == self@.current_price,
            self@.wf(),
    {
        proof {
            use_type_invariant(self);
        }
        self.current_price
    }

    /// The price that escalation never exceeds.
    pub fn max_price(&self) -> (price: Decimal)
        ensures
            price == self@.max_price,
            self@.wf(),
    {
        proof {
            use_type_invariant(self);
        }
        self.max_price
    }

    /// The price for the attempt after one that failed at `current_price`:
    /// that price times the multiplier, rounded up and capped at the
    /// ceiling; the base price if escalation is switched off.
    pub fn escalate(&self, current_price: Decimal) -> (price: Decimal)
        ensures
            price == self@.escalated(current_price),
            self@.enabled ==> price.units <= self@.max_price.units,
            self@.enabled && current_price.units <= self@.max_price.units ==> price.units
                >= current_price.units,
    {
        proof {
            use_type_invariant(self);
            if self@.enabled {
                lemma_product_not_below_price(current_price, self@.multiplier);
            }
        }
        if !self.enabled {
            self.base_price
        } else {
            match current_price.mul_ceil(self.multiplier) {
                Some(raised) => raised.min(self.max_price),
                None => self.max_price,
            }
        }
    }

    /// Starts a new submission: the current price returns to the base
    /// price.
    pub fn reset(&mut self)
        ensures
            final(self)@ == old(self)@.restarted(),
            final(self)@.wf(),
    {
        proof {
            use_type_invariant(&*self);
            lemma_steps_preserve_validity(self@);
        }
        self.current_price = self.base_price;
    }

    /// Raises the current price for the next attempt and returns it.
    /// Fails, leaving the state as it is, exactly when the step would not
    /// raise the price: at the ceiling, or with escalation switched off.
    pub fn advance(&mut self) -> (r: Result<Decimal, PolicyError>)
        ensures
            old(self)@.is_exhausted() ==> final(self)@ == old(self)@ && r == Err::<
                Decimal,
                PolicyError,
            >(PolicyError::EscalationExhausted { price: old(self)@.current_price }),
            !old(self)@.is_exhausted() ==> final(self)@ == old(self)@.advanced() && r == Ok::<
                Decimal,
                PolicyError,
            >(final(self)@.current_price) && final(self)@.current_price.units > old(
                self,
            )@.current_price.units,
            final(self)@.wf(),
    {
        proof {
            use_type_invariant(&*self);
            lemma_steps_preserve_validity(self@);
        }
        let next: Decimal = self.escalate(self.current_price);
        if next.units == self.current_price.units {
            Err(PolicyError::EscalationExhausted { price: self.current_price })
        } else {
            self.current_price = next;
            Ok(next)
        }
    }
}

} // verus!
