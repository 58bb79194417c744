use vstd::prelude::*;

use crate::formula::{is_price, price_formula_of, Formula};
use crate::option_type::OptionType;

verus! {

/// The outcome of comparing each input of one contract with zero: the spot,
/// the strike, the implied volatility and the time to expiry.
///
/// Each flag is the result of `x <= 0` on that input, so an input that does
/// not compare (NaN) leaves its flag unset.
#[derive(Clone, Copy, Debug, PartialEq, Eq, Structural)]
pub struct InputSigns {
    pub spot_nonpositive: bool,
    pub strike_nonpositive: bool,
    pub volatility_nonpositive: bool,
    pub expiry_nonpositive: bool,
}

/// The degenerate-input policy, applied at every entry point of the kernel:
/// a formula whose inputs it matches evaluates to exactly zero instead of
/// dividing by zero or taking the logarithm of a non-positive number.
///
/// Every formula is degenerate when the volatility or the time to expiry is
/// not positive. The two fair-value formulas are also degenerate when the
/// spot or the strike is not positive.
pub open spec fn degenerate(f: Formula, signs: InputSigns) -> bool {
    ||| signs.volatility_nonpositive
    ||| signs.expiry_nonpositive
    ||| is_price(f) && (signs.spot_nonpositive || signs.strike_nonpositive)
}

/// Decides whether `f` must evaluate to zero on inputs with these signs.
pub fn is_degenerate(f: Formula, signs: &InputSigns) -> (r: bool)
    ensures
        r == degenerate(f, *signs),
{
    if signs.volatility_nonpositive || signs.expiry_nonpositive {
        return true;
    }
    match f {
        Formula::CallPrice | Formula::PutPrice => signs.spot_nonpositive
            || signs.strike_nonpositive,
        _ => false,
    }
}

/// Every formula (fair value of either side, each Greek, `d1` and `d2`) is
/// degenerate, and so evaluates to zero, when the volatility or the time to
/// expiry is not positive.
pub proof fn lemma_degenerate_volatility_or_expiry(f: Formula, signs: InputSigns)
    requires
        signs.volatility_nonpositive || signs.expiry_nonpositive,
    ensures
        degenerate(f, signs),
{
}

/// The fair value of a contract of either side is degenerate, and so zero
/// rather than NaN, whenever its strike is not positive.
pub proof fn lemma_price_nonpositive_strike(side: OptionType, signs: InputSigns)
    requires
        signs.strike_nonpositive,
    ensures
        degenerate(price_formula_of(side), signs),
{
}

/// The guard of the fair-value formulas is at least as strict as that of
/// every other formula: inputs that make any formula degenerate make the
/// price degenerate too.
pub proof fn lemma_price_guard_strictest(side: OptionType, f: Formula, signs: InputSigns)
    requires
        degenerate(f, signs),
    ensures
        degenerate(price_formula_of(side), signs),
{
}

/// Outside the fair-value formulas the spot and the strike play no part in
/// the policy: any two sets of signs that agree on volatility and time to
/// expiry get the same answer.
pub proof fn lemma_greeks_ignore_spot_and_strike(f: Formula, a: InputSigns, b: InputSigns)
    requires
        !is_price(f),
        a.volatility_nonpositive == b.volatility_nonpositive,
        a.expiry_nonpositive == b.expiry_nonpositive,
    ensures
        degenerate(f, a) == degenerate(f, b),
{
}

} // verus!
