use cosmwasm_std::{MemoryStorage, Storage};
use number::contract::{
    apply, execute, handle_add, handle_mul, handle_sub, instantiate, query, query_number, step,
};
use number::error::ContractError;
use number::msg::{ExecuteMsg, InstantiateMsg, NumberResponse, QueryMsg};

fn instantiated(value: i32) -> MemoryStorage {
    let mut storage = MemoryStorage::new();
    assert_eq!(instantiate(&mut storage, InstantiateMsg { value }), Ok(()));
    storage
}

#[test]
fn instantiate_then_query() {
    let storage = instantiated(5);
    assert_eq!(query(&storage, QueryMsg::Number {}), Ok(NumberResponse { value: 5 }));
}

#[test]
fn instantiate_add_then_query() {
    let mut storage = instantiated(5);
    assert_eq!(execute(&mut storage, ExecuteMsg::Add { value: 3 }), Ok(()));
    assert_eq!(query(&storage, QueryMsg::Number {}), Ok(NumberResponse { value: 8 }));
}

#[test]
fn add_overflow_leaves_the_value() {
    let mut storage = instantiated(i32::MAX);
    assert_eq!(execute(&mut storage, ExecuteMsg::Add { value: 1 }), Err(ContractError::Overflow));
    assert_eq!(query(&storage, QueryMsg::Number {}), Ok(NumberResponse { value: i32::MAX }));
    assert_eq!(storage.get(b"number"), Some(vec![0x7f, 0xff, 0xff, 0xff]));
}

#[test]
fn sub_overflow_leaves_the_value() {
    let mut storage = instantiated(i32::MIN);
    assert_eq!(execute(&mut storage, ExecuteMsg::Sub { value: 1 }), Err(ContractError::Overflow));
    assert_eq!(query(&storage, QueryMsg::Number {}), Ok(NumberResponse { value: i32::MIN }));
    assert_eq!(storage.get(b"number"), Some(vec![0x80, 0, 0, 0]));
}

#[test]
fn mul_overflow_leaves_the_value() {
    let mut storage = instantiated(2);
    assert_eq!(
        execute(&mut storage, ExecuteMsg::Mul { value: i32::MAX }),
        Err(ContractError::Overflow)
    );
    assert_eq!(query(&storage, QueryMsg::Number {}), Ok(NumberResponse { value: 2 }));
    assert_eq!(storage.get(b"number"), Some(vec![0, 0, 0, 2]));
}

#[test]
fn instantiate_overwrites_without_reading() {
    let mut storage = MemoryStorage::new();
    storage.set(b"number", &[1, 2, 3]);
    assert_eq!(instantiate(&mut storage, InstantiateMsg { value: -7 }), Ok(()));
    assert_eq!(query_number(&storage), Ok(NumberResponse { value: -7 }));
    assert_eq!(instantiate(&mut storage, InstantiateMsg { value: 11 }), Ok(()));
    assert_eq!(query_number(&storage), Ok(NumberResponse { value: 11 }));
}

#[test]
fn execute_without_a_counter_is_a_storage_error() {
    let mut storage = MemoryStorage::new();
    let msgs =
        [ExecuteMsg::Add { value: 1 }, ExecuteMsg::Sub { value: 1 }, ExecuteMsg::Mul { value: 1 }];
    for msg in msgs {
        assert_eq!(execute(&mut storage, msg), Err(ContractError::StorageError));
        assert_eq!(storage.get(b"number"), None);
    }
    assert_eq!(query(&storage, QueryMsg::Number {}), Err(ContractError::StorageError));
}

#[test]
fn execute_on_malformed_bytes_is_a_storage_error_and_writes_nothing() {
    let mut storage = MemoryStorage::new();
    storage.set(b"number", &[0, 1]);
    assert_eq!(
        execute(&mut storage, ExecuteMsg::Add { value: 1 }),
        Err(ContractError::StorageError)
    );
    assert_eq!(storage.get(b"number"), Some(vec![0, 1]));
    assert_eq!(query(&storage, QueryMsg::Number {}), Err(ContractError::StorageError));
}

#[test]
fn a_run_of_requests_composes_in_order() {
    let mut storage = instantiated(10);
    let run = [
        ExecuteMsg::Sub { value: 4 },
        ExecuteMsg::Mul { value: -3 },
        ExecuteMsg::Add { value: 100 },
        ExecuteMsg::Mul { value: 2 },
        ExecuteMsg::Sub { value: -1 },
    ];
    for msg in run {
        assert_eq!(execute(&mut storage, msg), Ok(()));
    }
    assert_eq!(((10 - 4) * -3 + 100) * 2 - -1, 165);
    assert_eq!(query(&storage, QueryMsg::Number {}), Ok(NumberResponse { value: 165 }));
}

#[test]
fn the_order_of_requests_matters() {
    let mut first = instantiated(10);
    assert_eq!(execute(&mut first, ExecuteMsg::Sub { value: 4 }), Ok(()));
    assert_eq!(execute(&mut first, ExecuteMsg::Mul { value: 3 }), Ok(()));
    let mut second = instantiated(10);
    assert_eq!(execute(&mut second, ExecuteMsg::Mul { value: 3 }), Ok(()));
    assert_eq!(execute(&mut second, ExecuteMsg::Sub { value: 4 }), Ok(()));
    assert_eq!(query_number(&first), Ok(NumberResponse { value: 18 }));
    assert_eq!(query_number(&second), Ok(NumberResponse { value: 26 }));
}

#[test]
fn a_failed_request_does_not_disturb_later_ones() {
    let mut storage = instantiated(i32::MAX - 1);
    assert_eq!(execute(&mut storage, ExecuteMsg::Add { value: 1 }), Ok(()));
    assert_eq!(execute(&mut storage, ExecuteMsg::Add { value: 1 }), Err(ContractError::Overflow));
    assert_eq!(execute(&mut storage, ExecuteMsg::Sub { value: 7 }), Ok(()));
    assert_eq!(query_number(&storage), Ok(NumberResponse { value: i32::MAX - 7 }));
}

#[test]
fn handlers_do_what_their_requests_do() {
    let mut storage = instantiated(6);
    assert_eq!(handle_add(&mut storage, 4), Ok(()));
    assert_eq!(query_number(&storage), Ok(NumberResponse { value: 10 }));
    assert_eq!(handle_sub(&mut storage, 13), Ok(()));
    assert_eq!(query_number(&storage), Ok(NumberResponse { value: -3 }));
    assert_eq!(handle_mul(&mut storage, -5), Ok(()));
    assert_eq!(query_number(&storage), Ok(NumberResponse { value: 15 }));
    assert_eq!(handle_mul(&mut storage, i32::MAX), Err(ContractError::Overflow));
    assert_eq!(handle_add(&mut storage, i32::MAX), Err(ContractError::Overflow));
    assert_eq!(handle_sub(&mut storage, i32::MIN), Err(ContractError::Overflow));
    assert_eq!(query_number(&storage), Ok(NumberResponse { value: 15 }));
}

#[test]
fn requests_touch_no_other_key() {
    let mut storage = instantiated(1);
    storage.set(b"neighbour", b"untouched");
    assert_eq!(execute(&mut storage, ExecuteMsg::Add { value: 1 }), Ok(()));
    assert_eq!(
        execute(&mut storage, ExecuteMsg::Mul { value: i32::MAX }),
        Err(ContractError::Overflow)
    );
    assert_eq!(storage.get(b"neighbour"), Some(b"untouched".to_vec()));
}

#[test]
fn query_does_not_change_the_store() {
    let storage = instantiated(42);
    let before = storage.get(b"number");
    for _ in 0..3 {
        assert_eq!(query(&storage, QueryMsg::Number {}), Ok(NumberResponse { value: 42 }));
    }
    assert_eq!(storage.get(b"number"), before);
}

#[test]
fn apply_picks_the_operation() {
    assert_eq!(apply(5, ExecuteMsg::Add { value: 3 }), Ok(8));
    assert_eq!(apply(5, ExecuteMsg::Sub { value: 3 }), Ok(2));
    assert_eq!(apply(5, ExecuteMsg::Mul { value: 3 }), Ok(15));
    assert_eq!(apply(i32::MAX, ExecuteMsg::Add { value: 1 }), Err(ContractError::Overflow));
    assert_eq!(apply(i32::MIN, ExecuteMsg::Sub { value: 1 }), Err(ContractError::Overflow));
    assert_eq!(apply(2, ExecuteMsg::Mul { value: i32::MAX }), Err(ContractError::Overflow));
}

#[test]
fn step_gives_the_bytes_to_write() {
    assert_eq!(step(Some(vec![0, 0, 0, 5]), ExecuteMsg::Add { value: 3 }), Ok([0, 0, 0, 8]));
    assert_eq!(
        step(Some(vec![0, 0, 0, 5]), ExecuteMsg::Sub { value: 6 }),
        Ok([0xff, 0xff, 0xff, 0xff])
    );
    assert_eq!(step(Some(vec![0, 0, 1, 0]), ExecuteMsg::Mul { value: 256 }), Ok([0, 1, 0, 0]));
}

#[test]
fn step_fails_as_a_request_would() {
    assert_eq!(step(None, ExecuteMsg::Add { value: 3 }), Err(ContractError::StorageError));
    assert_eq!(
        step(Some(vec![0, 0, 5]), ExecuteMsg::Add { value: 3 }),
        Err(ContractError::StorageError)
    );
    assert_eq!(
        step(Some(vec![0x7f, 0xff, 0xff, 0xff]), ExecuteMsg::Add { value: 1 }),
        Err(ContractError::Overflow)
    );
}

#[test]
fn step_agrees_with_execute_on_a_store() {
    let cases = [
        (7, ExecuteMsg::Add { value: -9 }),
        (7, ExecuteMsg::Mul { value: 1 << 29 }),
        (i32::MIN, ExecuteMsg::Sub { value: -1 }),
        (-4, ExecuteMsg::Mul { value: -4 }),
    ];
    for (start, msg) in cases {
        let mut storage = instantiated(start);
        let fetched = storage.get(b"number");
        let stepped = step(fetched.clone(), msg);
        let executed = execute(&mut storage, msg);
        match stepped {
            Ok(bytes) => {
                assert_eq!(executed, Ok(()));
                assert_eq!(storage.get(b"number"), Some(bytes.to_vec()));
            }
            Err(e) => {
                assert_eq!(executed, Err(e));
                assert_eq!(storage.get(b"number"), fetched);
            }
        }
    }
}
