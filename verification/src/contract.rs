//! The dispatcher: routes each request to the store and the arithmetic.
//!
//! A mutating request reads the counter, applies one checked operation and
//! writes the result. Where the read or the operation fails, nothing is
//! written: the store is left exactly as it was.

use vstd::prelude::*;
use cosmwasm_std::MemoryStorage;
use crate::codec::{encode, encode_spec};
use crate::engine::{checked, fits};
use crate::error::ContractError;
use crate::msg::{ExecuteMsg, InstantiateMsg, NumberResponse, QueryMsg};
use crate::store::{
    contents, decode_stored, decode_stored_spec, fetched_view, read, read_spec, write_spec, KEY,
};

verus! {

/// The mathematical result of applying `msg` to `value`.
pub open spec fn apply_int(value: int, msg: ExecuteMsg) -> int {
    match msg {
        ExecuteMsg::Add { value: by } => value + by,
        ExecuteMsg::Sub { value: by } => value - by,
        ExecuteMsg::Mul { value: by } => value * by,
    }
}

/// The counter after `msg`, given what the store held: the failed read where
/// there is no counter, `Overflow` where the result does not fit.
pub open spec fn next_value(held: Map<Seq<u8>, Seq<u8>>, msg: ExecuteMsg) -> Result<
    i32,
    ContractError,
> {
    match read_spec(held) {
        Ok(value) => checked(apply_int(value as int, msg)),
        Err(e) => Err(e),
    }
}

/// The contents of the store after `msg` has been handled: the new counter
/// written over the old, or the contents untouched where the request failed.
pub open spec fn after_execute(held: Map<Seq<u8>, Seq<u8>>, msg: ExecuteMsg) -> Map<
    Seq<u8>,
    Seq<u8>,
> {
    match next_value(held, msg) {
        Ok(value) => write_spec(held, value),
        Err(_) => held,
    }
}

/// What a handler reports for `msg`: nothing on success, else the failure.
pub open spec fn execute_outcome(held: Map<Seq<u8>, Seq<u8>>, msg: ExecuteMsg) -> Result<
    (),
    ContractError,
> {
    match next_value(held, msg) {
        Ok(_) => Ok(()),
        Err(e) => Err(e),
    }
}

/// Creates the counter with the value that `msg` carries. Nothing is read
/// first, and the request always succeeds.
pub fn instantiate(storage: &mut MemoryStorage, msg: InstantiateMsg) -> (r: Result<
    (),
    ContractError,
>)
    ensures
        r is Ok,
        contents(*final(storage)) == write_spec(contents(*old(storage)), msg.value),
{
    crate::store::write(storage, msg.value);
    Ok(())
}

/// Applies the operation that `msg` names to the counter.
pub fn execute(storage: &mut MemoryStorage, msg: ExecuteMsg) -> (r: Result<(), ContractError>)
    ensures
        r == execute_outcome(contents(*old(storage)), msg),
        contents(*final(storage)) == after_execute(contents(*old(storage)), msg),
{
    match msg {
        ExecuteMsg::Add { value } => handle_add(storage, value),
        ExecuteMsg::Sub { value } => handle_sub(storage, value),
        ExecuteMsg::Mul { value } => handle_mul(storage, value),
    }
}

/// Adds `by` to the counter.
pub fn handle_add(storage: &mut MemoryStorage, by: i32) -> (r: Result<(), ContractError>)
    ensures
        r == execute_outcome(contents(*old(storage)), (ExecuteMsg::Add { value: by })),
        contents(*final(storage)) == after_execute(
            contents(*old(storage)),
            (ExecuteMsg::Add { value: by }),
        ),
{
    let value = match read(storage) {
        Ok(value) => value,
        Err(e) => { return Err(e); },
    };
    let new_value = match crate::engine::add(value, by) {
        Ok(new_value) => new_value,
        Err(e) => { return Err(e); },
    };
    crate::store::write(storage, new_value);
    Ok(())
}

/// Subtracts `by` from the counter.
pub fn handle_sub(storage: &mut MemoryStorage, by: i32) -> (r: Result<(), ContractError>)
    ensures
        r == execute_outcome(contents(*old(storage)), (ExecuteMsg::Sub { value: by })),
        contents(*final(storage)) == after_execute(
            contents(*old(storage)),
            (ExecuteMsg::Sub { value: by }),
        ),
{
    let value = match read(storage) {
        Ok(value) => value,
        Err(e) => { return Err(e); },
    };
    let new_value = match crate::engine::sub(value, by) {
        Ok(new_value) => new_value,
        Err(e) => { return Err(e); },
    };
    crate::store::write(storage, new_value);
    Ok(())
}

/// Multiplies the counter by `by`.
pub fn handle_mul(storage: &mut MemoryStorage, by: i32) -> (r: Result<(), ContractError>)
    ensures
        r == execute_outcome(contents(*old(storage)), (ExecuteMsg::Mul { value: by })),
        contents(*final(storage)) == after_execute(
            contents(*old(storage)),
            (ExecuteMsg::Mul { value: by }),
        ),
{
    let value = match read(storage) {
        Ok(value) => value,
        Err(e) => { return Err(e); },
    };
    let new_value = match crate::engine::mul(value, by) {
        Ok(new_value) => new_value,
        Err(e) => { return Err(e); },
    };
    crate::store::write(storage, new_value);
    Ok(())
}

/// What a query answers, given what the store holds.
pub open spec fn query_spec(held: Map<Seq<u8>, Seq<u8>>) -> Result<NumberResponse, ContractError> {
    match read_spec(held) {
        Ok(value) => Ok(NumberResponse { value }),
        Err(e) => Err(e),
    }
}

/// Answers a query. The store is borrowed shared: a query cannot mutate it.
pub fn query(storage: &MemoryStorage, msg: QueryMsg) -> (r: Result<NumberResponse, ContractError>)
    ensures
        r == query_spec(contents(*storage)),
{
    match msg {
        QueryMsg::Number {  } => query_number(storage),
    }
}

/// Reads the counter into a response.
pub fn query_number(storage: &MemoryStorage) -> (r: Result<NumberResponse, ContractError>)
    ensures
        r == query_spec(contents(*storage)),
{
    match read(storage) {
        Ok(value) => Ok(NumberResponse { value }),
        Err(e) => Err(e),
    }
}

/// Applies the operation that `msg` names to `value`, without a store.
pub fn apply(value: i32, msg: ExecuteMsg) -> (r: Result<i32, ContractError>)
    ensures
        r == checked(apply_int(value as int, msg)),
{
    match msg {
        ExecuteMsg::Add { value: by } => crate::engine::add(value, by),
        ExecuteMsg::Sub { value: by } => crate::engine::sub(value, by),
        ExecuteMsg::Mul { value: by } => crate::engine::mul(value, by),
    }
}

/// The bytes to put under the counter's key when `msg` arrives and
/// `fetched` is what the key held, or the failure that forbids the write.
pub open spec fn step_spec(fetched: Option<Seq<u8>>, msg: ExecuteMsg) -> Result<
    Seq<u8>,
    ContractError,
> {
    match decode_stored_spec(fetched) {
        Ok(value) => match checked(apply_int(value as int, msg)) {
            Ok(new_value) => Ok(encode_spec(new_value)),
            Err(e) => Err(e),
        },
        Err(e) => Err(e),
    }
}

/// One execute request as a step from what was fetched to what is to be
/// written, for a caller that does the fetching and the writing itself. On
/// failure there is nothing to write.
pub fn step(fetched: Option<Vec<u8>>, msg: ExecuteMsg) -> (r: Result<[u8; 4], ContractError>)
    ensures
        match step_spec(fetched_view(fetched), msg) {
            Ok(bytes) => r is Ok && r->Ok_0@ == bytes,
            Err(e) => r == Err::<[u8; 4], ContractError>(e),
        },
{
    let value = match decode_stored(fetched) {
        Ok(value) => value,
        Err(e) => { return Err(e); },
    };
    match apply(value, msg) {
        Ok(new_value) => Ok(encode(new_value)),
        Err(e) => Err(e),
    }
}

/// Handling a request through a store and stepping by hand are the same
/// thing: the store ends with the step's bytes under the counter's key, or
/// unchanged where the step fails.
pub proof fn lemma_execute_is_step(held: Map<Seq<u8>, Seq<u8>>, msg: ExecuteMsg)
    ensures
        match step_spec(if held.contains_key(KEY@) { Some(held[KEY@]) } else { None }, msg) {
            Ok(bytes) => execute_outcome(held, msg) is Ok && after_execute(held, msg)
                == held.insert(KEY@, bytes),
            Err(e) => execute_outcome(held, msg) == Err::<(), ContractError>(e) && after_execute(
                held,
                msg,
            ) == held,
        },
{
}

/// What a request does to the counter: on success the counter reads as the
/// result of the operation; on failure the store is exactly as before. Either
/// way no key but the counter's changes.
pub proof fn lemma_execute_effect(held: Map<Seq<u8>, Seq<u8>>, msg: ExecuteMsg, other: Seq<u8>)
    requires
        other != KEY@,
    ensures
        execute_outcome(held, msg) is Ok ==> read_spec(after_execute(held, msg)) == next_value(
            held,
            msg,
        ),
        execute_outcome(held, msg) is Err ==> after_execute(held, msg) == held,
        after_execute(held, msg).contains_key(other) == held.contains_key(other),
        held.contains_key(other) ==> after_execute(held, msg)[other] == held[other],
{
    match next_value(held, msg) {
        Ok(value) => {
            crate::store::lemma_read_after_write(held, value);
        },
        Err(_) => {},
    }
}

/// The mathematical value reached from `start` by applying `msgs` in order.
pub open spec fn compose(start: int, msgs: Seq<ExecuteMsg>) -> int
    decreases msgs.len(),
{
    if msgs.len() == 0 {
        start
    } else {
        apply_int(compose(start, msgs.drop_last()), msgs.last())
    }
}

/// Whether every intermediate value on the way from `start` through `msgs`
/// fits in 32 signed bits.
pub open spec fn never_overflows(start: int, msgs: Seq<ExecuteMsg>) -> bool {
    forall|k: int| 0 <= k <= msgs.len() ==> fits(#[trigger] compose(start, msgs.take(k)))
}

/// The contents of the store after `msgs` have been handled in order.
pub open spec fn after_all(held: Map<Seq<u8>, Seq<u8>>, msgs: Seq<ExecuteMsg>) -> Map<
    Seq<u8>,
    Seq<u8>,
>
    decreases msgs.len(),
{
    if msgs.len() == 0 {
        held
    } else {
        after_execute(after_all(held, msgs.drop_last()), msgs.last())
    }
}

/// A run of requests that never overflows leaves the arithmetic composition
/// of its operations in the store: starting from a counter instantiated with
/// `start`, every request succeeds, and the counter then reads as `start`
/// with the operations applied in the order in which they came.
pub proof fn lemma_sequence_composes(held: Map<Seq<u8>, Seq<u8>>, start: i32, msgs: Seq<ExecuteMsg>)
    requires
        never_overflows(start as int, msgs),
    ensures
        fits(compose(start as int, msgs)),
        read_spec(after_all(write_spec(held, start), msgs)) == Ok::<i32, ContractError>(
            compose(start as int, msgs) as i32,
        ),
        forall|k: int|
            0 <= k < msgs.len() ==> execute_outcome(
                #[trigger] after_all(write_spec(held, start), msgs.take(k)),
                msgs[k],
            ) is Ok,
    decreases msgs.len(),
{
    assert(msgs.take(msgs.len() as int) =~= msgs);
    if msgs.len() == 0 {
        crate::store::lemma_read_after_write(held, start);
    } else {
        let front = msgs.drop_last();
        assert(front =~= msgs.take(msgs.len() - 1));
        assert forall|k: int| 0 <= k <= front.len() implies fits(
            #[trigger] compose(start as int, front.take(k)),
        ) by {
            assert(front.take(k) =~= msgs.take(k));
        }
        lemma_sequence_composes(held, start, front);
        let before = after_all(write_spec(held, start), front);
        let new_value = compose(start as int, msgs) as i32;
        assert(next_value(before, msgs.last()) == Ok::<i32, ContractError>(new_value));
        crate::store::lemma_read_after_write(before, new_value);
        assert forall|k: int| 0 <= k < msgs.len() implies execute_outcome(
            #[trigger] after_all(write_spec(held, start), msgs.take(k)),
            msgs[k],
        ) is Ok by {
            if k < front.len() {
                assert(front.take(k) =~= msgs.take(k));
                assert(front[k] == msgs[k]);
            } else {
                assert(msgs.take(k) =~= front);
            }
        }
    }
}

} // verus!
