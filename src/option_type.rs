use vstd::prelude::*;

verus! {

/// Which side of the contract an option is: the right to buy (`Call`) or to
/// sell (`Put`) the underlying at the strike. The side selects which
/// closed-form branch prices the option.
#[derive(Clone, Copy, Debug, PartialEq, Eq, Structural)]
pub enum OptionType {
    Call,
    Put,
}

} // verus!
