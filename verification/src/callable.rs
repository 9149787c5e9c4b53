//! The direct surface: the four operations called by name, without a message
//! around the operand.
//!
//! Each does exactly what the matching request does, and fails with the same
//! errors.

use vstd::prelude::*;
use cosmwasm_std::MemoryStorage;
use crate::contract::{after_execute, execute_outcome, handle_add, handle_mul, handle_sub};
use crate::error::ContractError;
use crate::msg::ExecuteMsg;
use crate::store::{contents, read, read_spec};

verus! {

/// Adds `by` to the counter.
pub fn add(storage: &mut MemoryStorage, by: i32) -> (r: Result<(), ContractError>)
    ensures
        r == execute_outcome(contents(*old(storage)), (ExecuteMsg::Add { value: by })),
        contents(*final(storage)) == after_execute(
            contents(*old(storage)),
            (ExecuteMsg::Add { value: by }),
        ),
{
    handle_add(storage, by)
}

/// Subtracts `by` from the counter.
pub fn sub(storage: &mut MemoryStorage, by: i32) -> (r: Result<(), ContractError>)
    ensures
        r == execute_outcome(contents(*old(storage)), (ExecuteMsg::Sub { value: by })),
        contents(*final(storage)) == after_execute(
            contents(*old(storage)),
            (ExecuteMsg::Sub { value: by }),
        ),
{
    handle_sub(storage, by)
}

/// Multiplies the counter by `by`.
pub fn mul(storage: &mut MemoryStorage, by: i32) -> (r: Result<(), ContractError>)
    ensures
        r == execute_outcome(contents(*old(storage)), (ExecuteMsg::Mul { value: by })),
        contents(*final(storage)) == after_execute(
            contents(*old(storage)),
            (ExecuteMsg::Mul { value: by }),
        ),
{
    handle_mul(storage, by)
}

/// The counter's current value.
pub fn number(storage: &MemoryStorage) -> (r: Result<i32, ContractError>)
    ensures
        r == read_spec(contents(*storage)),
{
    read(storage)
}

} // verus!
