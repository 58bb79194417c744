//! Decision logic of a Black-Scholes pricing kernel for batches of
//! European options: option-side dispatch, the degenerate-input policy
//! shared by every formula, and the shape of a column-oriented batch.

pub mod batch;
pub mod formula;
pub mod guard;
pub mod option_type;
