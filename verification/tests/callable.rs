use cosmwasm_std::{MemoryStorage, Storage};
use number::callable;
use number::contract::{execute, instantiate};
use number::error::ContractError;
use number::msg::{ExecuteMsg, InstantiateMsg};

fn counter(value: i32) -> MemoryStorage {
    let mut storage = MemoryStorage::new();
    instantiate(&mut storage, InstantiateMsg { value }).unwrap();
    storage
}

#[test]
fn direct_calls_change_the_counter() {
    let mut storage = counter(5);
    assert_eq!(callable::number(&storage), Ok(5));
    assert_eq!(callable::add(&mut storage, 3), Ok(()));
    assert_eq!(callable::number(&storage), Ok(8));
    assert_eq!(callable::sub(&mut storage, 10), Ok(()));
    assert_eq!(callable::number(&storage), Ok(-2));
    assert_eq!(callable::mul(&mut storage, -21), Ok(()));
    assert_eq!(callable::number(&storage), Ok(42));
}

#[test]
fn direct_calls_report_overflow_and_write_nothing() {
    let mut storage = counter(i32::MAX);
    assert_eq!(callable::add(&mut storage, 1), Err(ContractError::Overflow));
    assert_eq!(callable::mul(&mut storage, 2), Err(ContractError::Overflow));
    assert_eq!(callable::sub(&mut storage, -1), Err(ContractError::Overflow));
    assert_eq!(callable::number(&storage), Ok(i32::MAX));
}

#[test]
fn direct_calls_report_a_missing_counter() {
    let mut storage = MemoryStorage::new();
    assert_eq!(callable::number(&storage), Err(ContractError::StorageError));
    assert_eq!(callable::add(&mut storage, 1), Err(ContractError::StorageError));
    assert_eq!(callable::sub(&mut storage, 1), Err(ContractError::StorageError));
    assert_eq!(callable::mul(&mut storage, 1), Err(ContractError::StorageError));
    assert_eq!(storage.get(b"number"), None);
}

#[test]
fn direct_calls_agree_with_requests() {
    let cases =
        [(0, 0), (5, 3), (-7, 9), (i32::MAX, 1), (i32::MIN, 1), (2, i32::MAX), (46_341, 46_341)];
    for (start, by) in cases {
        let mut a = counter(start);
        let mut b = counter(start);
        assert_eq!(callable::add(&mut a, by), execute(&mut b, ExecuteMsg::Add { value: by }));
        assert_eq!(a.get(b"number"), b.get(b"number"));
        let mut a = counter(start);
        let mut b = counter(start);
        assert_eq!(callable::sub(&mut a, by), execute(&mut b, ExecuteMsg::Sub { value: by }));
        assert_eq!(a.get(b"number"), b.get(b"number"));
        let mut a = counter(start);
        let mut b = counter(start);
        assert_eq!(callable::mul(&mut a, by), execute(&mut b, ExecuteMsg::Mul { value: by }));
        assert_eq!(a.get(b"number"), b.get(b"number"));
    }
}
