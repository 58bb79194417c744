use black_scholes::formula::{price_formula, Formula};
use black_scholes::guard::{is_degenerate, InputSigns};
use black_scholes::option_type::OptionType;

const ALL_FORMULAS: [Formula; 11] = [
    Formula::D1,
    Formula::D2,
    Formula::CallPrice,
    Formula::PutPrice,
    Formula::DeltaCall,
    Formula::Gamma,
    Formula::Vega,
    Formula::ThetaCall,
    Formula::ThetaPut,
    Formula::RhoCall,
    Formula::RhoPut,
];

fn signs(spot: bool, strike: bool, volatility: bool, expiry: bool) -> InputSigns {
    InputSigns {
        spot_nonpositive: spot,
        strike_nonpositive: strike,
        volatility_nonpositive: volatility,
        expiry_nonpositive: expiry,
    }
}

#[test]
fn valid_inputs_are_never_degenerate() {
    for f in ALL_FORMULAS {
        assert!(!is_degenerate(f, &signs(false, false, false, false)));
    }
}

#[test]
fn nonpositive_volatility_zeroes_every_formula() {
    for f in ALL_FORMULAS {
        assert!(is_degenerate(f, &signs(false, false, true, false)));
    }
}

#[test]
fn nonpositive_expiry_zeroes_every_formula() {
    for f in ALL_FORMULAS {
        assert!(is_degenerate(f, &signs(false, false, false, true)));
    }
}

#[test]
fn nonpositive_strike_zeroes_price_of_both_sides() {
    let s = signs(false, true, false, false);
    assert!(is_degenerate(price_formula(OptionType::Call), &s));
    assert!(is_degenerate(price_formula(OptionType::Put), &s));
}

#[test]
fn nonpositive_spot_zeroes_price_of_both_sides() {
    let s = signs(true, false, false, false);
    assert!(is_degenerate(Formula::CallPrice, &s));
    assert!(is_degenerate(Formula::PutPrice, &s));
}

#[test]
fn greeks_and_moneyness_do_not_guard_spot_or_strike() {
    let s = signs(true, true, false, false);
    for f in ALL_FORMULAS {
        let is_price = f == Formula::CallPrice || f == Formula::PutPrice;
        assert_eq!(is_degenerate(f, &s), is_price);
    }
}

#[test]
fn price_formula_follows_side() {
    assert_eq!(price_formula(OptionType::Call), Formula::CallPrice);
    assert_eq!(price_formula(OptionType::Put), Formula::PutPrice);
}
