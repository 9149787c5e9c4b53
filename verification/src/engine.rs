//! Checked arithmetic on the counter's value.
//!
//! Every operation computes over the mathematical integers and reports
//! `Overflow` when the result leaves the range of `i32`; none wraps or
//! saturates.

use vstd::prelude::*;
use crate::error::ContractError;

verus! {

/// Whether `n` can be held in 32 signed bits.
pub open spec fn fits(n: int) -> bool {
    i32::MIN <= n <= i32::MAX
}

/// The outcome of an operation whose mathematical result is `n`.
pub open spec fn checked(n: int) -> Result<i32, ContractError> {
    if fits(n) {
        Ok(n as i32)
    } else {
        Err(ContractError::Overflow)
    }
}

/// `value + by`, or `Overflow`.
pub fn add(value: i32, by: i32) -> (r: Result<i32, ContractError>)
    ensures
        r == checked(value + by),
{
    match value.checked_add(by) {
        Some(sum) => Ok(sum),
        None => Err(ContractError::Overflow),
    }
}

/// `value - by`, or `Overflow`.
pub fn sub(value: i32, by: i32) -> (r: Result<i32, ContractError>)
    ensures
        r == checked(value - by),
{
    match value.checked_sub(by) {
        Some(difference) => Ok(difference),
        None => Err(ContractError::Overflow),
    }
}

/// `value * by`, or `Overflow`.
pub fn mul(value: i32, by: i32) -> (r: Result<i32, ContractError>)
    ensures
        r == checked(value * by),
{
    match value.checked_mul(by) {
        Some(product) => Ok(product),
        None => Err(ContractError::Overflow),
    }
}

} // verus!
