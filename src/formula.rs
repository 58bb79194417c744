use vstd::prelude::*;

use crate::option_type::OptionType;

verus! {

/// The closed-form quantities the pricing kernel evaluates for one contract.
#[derive(Clone, Copy, Debug, PartialEq, Eq, Structural)]
pub enum Formula {
    /// Standardized moneyness `d1`.
    D1,
    /// Forward-adjusted moneyness `d2 = d1 - sigma * sqrt(T)`.
    D2,
    /// Fair value of a call.
    CallPrice,
    /// Fair value of a put.
    PutPrice,
    /// Sensitivity of a call's value to the spot.
    DeltaCall,
    /// Sensitivity of delta to the spot, the same for both sides.
    Gamma,
    /// Sensitivity of the value to volatility, the same for both sides.
    Vega,
    /// Time decay of a call.
    ThetaCall,
    /// Time decay of a put.
    ThetaPut,
    /// Sensitivity of a call's value to the rate.
    RhoCall,
    /// Sensitivity of a put's value to the rate.
    RhoPut,
}

/// Whether the formula is one of the two fair-value formulas.
pub open spec fn is_price(f: Formula) -> bool {
    f is CallPrice || f is PutPrice
}

/// The fair-value formula for a contract of the given side.
pub open spec fn price_formula_of(side: OptionType) -> Formula {
    match side {
        OptionType::Call => Formula::CallPrice,
        OptionType::Put => Formula::PutPrice,
    }
}

/// Selects the fair-value formula for a contract of the given side.
pub fn price_formula(side: OptionType) -> (f: Formula)
    ensures
        f == price_formula_of(side),
        is_price(f),
{
    match side {
        OptionType::Call => Formula::CallPrice,
        OptionType::Put => Formula::PutPrice,
    }
}

} // verus!
