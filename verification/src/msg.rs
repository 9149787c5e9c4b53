//! The requests that the counter answers, and its one response.

use vstd::prelude::*;

verus! {

/// Creates the counter with an initial value.
#[derive(Debug, Clone, Copy, PartialEq, Eq, Structural)]
pub struct InstantiateMsg {
    pub value: i32,
}

/// Changes the counter by one checked operation; `value` is the operand.
#[derive(Debug, Clone, Copy, PartialEq, Eq, Structural)]
pub enum ExecuteMsg {
    Add { value: i32 },
    Sub { value: i32 },
    Mul { value: i32 },
}

/// Asks for the counter without changing it.
#[derive(Debug, Clone, Copy, PartialEq, Eq, Structural)]
pub enum QueryMsg {
    Number {},
}

/// The counter's current value.
#[derive(Debug, Clone, Copy, PartialEq, Eq, Structural)]
pub struct NumberResponse {
    pub value: i32,
}

} // verus!
