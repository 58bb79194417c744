use vstd::prelude::*;

use crate::option_type::OptionType;

verus! {

/// The side of the contract at position `i` of a generated batch: calls at
/// even positions, puts at odd ones.
pub open spec fn side_at(i: int) -> OptionType {
    if i % 2 == 0 {
        OptionType::Call
    } else {
        OptionType::Put
    }
}

/// The side column of a generated batch of `n` contracts, alternating
/// between calls and puts and starting with a call.
pub fn alternating_sides(n: usize) -> (sides: Vec<OptionType>)
    ensures
        sides@.len() == n,
        forall|i: int| 0 <= i < n ==> #[trigger] sides@[i] == side_at(i),
{
    let mut sides: Vec<OptionType> = Vec::with_capacity(n);
    let mut i: usize = 0;
    while i < n
        invariant
            i <= n,
            sides@.len() == i,
            forall|j: int| 0 <= j < i ==> #[trigger] sides@[j] == side_at(j),
        decreases n - i,
    {
        let side = if i % 2 == 0 {
            OptionType::Call
        } else {
            OptionType::Put
        };
        sides.push(side);
        i = i + 1;
    }
    sides
}

/// The number of contracts described by four parallel columns (strike,
/// implied volatility, time to expiry, side), given their lengths.
///
/// A batch is well formed only when every column has the same length, so
/// that position `i` names the same contract in each of them; otherwise
/// there is no batch and the result is `None`.
pub fn batch_len(
    strike_len: usize,
    volatility_len: usize,
    expiry_len: usize,
    side_len: usize,
) -> (n: Option<usize>)
    ensures
        n == (if strike_len == volatility_len && strike_len == expiry_len && strike_len
            == side_len {
            Some(strike_len)
        } else {
            None::<usize>
        }),
{
    if strike_len == volatility_len && strike_len == expiry_len && strike_len == side_len {
        Some(strike_len)
    } else {
        None
    }
}

} // verus!
