//! The counter's place in a key-value store.
//!
//! The store is `cosmwasm_std::MemoryStorage`, an ordered map from byte
//! strings to byte strings. The counter lives under one fixed key and no
//! other key is ever touched.

use vstd::prelude::*;
use cosmwasm_std::MemoryStorage;
use crate::codec::{decode, decode_spec, encode, encode_spec};
use crate::error::ContractError;

verus! {

/// `cosmwasm_std::MemoryStorage`, whose field is private to its crate.
#[verifier::external_type_specification]
#[verifier::external_body]
pub struct ExMemoryStorage(MemoryStorage);

/// What a store holds: the value kept under each key that is present.
pub uninterp spec fn contents(storage: MemoryStorage) -> Map<Seq<u8>, Seq<u8>>;

/// `<MemoryStorage as cosmwasm_std::Storage>::get`: a copy of the value kept
/// under `key`, or `None` where the key is absent.
#[verifier::external_body]
fn storage_get(storage: &MemoryStorage, key: &[u8]) -> (value: Option<Vec<u8>>)
    ensures
        match value {
            Some(bytes) => contents(*storage).contains_key(key@) && bytes@ == contents(
                *storage,
            )[key@],
            None => !contents(*storage).contains_key(key@),
        },
{
    cosmwasm_std::Storage::get(storage, key)
}

/// `<MemoryStorage as cosmwasm_std::Storage>::set`: puts `value` under `key`,
/// replacing what was there, and leaves every other key as it was. The store
/// refuses an empty value by panicking, so none is handed to it.
#[verifier::external_body]
fn storage_set(storage: &mut MemoryStorage, key: &[u8], value: &[u8])
    requires
        value@.len() > 0,
    ensures
        contents(*final(storage)) == contents(*old(storage)).insert(key@, value@),
{
    cosmwasm_std::Storage::set(storage, key, value)
}

/// The key under which the counter is kept: the ASCII bytes of `number`.
pub const KEY: [u8; 6] = [110, 117, 109, 98, 101, 114];

/// The counter that a store with these contents holds: the decoding of the
/// bytes under `KEY`, or `StorageError` where the key is absent.
pub open spec fn read_spec(held: Map<Seq<u8>, Seq<u8>>) -> Result<i32, ContractError> {
    if held.contains_key(KEY@) {
        decode_spec(held[KEY@])
    } else {
        Err(ContractError::StorageError)
    }
}

/// The contents after `value` has been written over `held`.
pub open spec fn write_spec(held: Map<Seq<u8>, Seq<u8>>, value: i32) -> Map<Seq<u8>, Seq<u8>> {
    held.insert(KEY@, encode_spec(value))
}

/// What the bytes fetched for the counter's key stand for.
pub open spec fn decode_stored_spec(fetched: Option<Seq<u8>>) -> Result<i32, ContractError> {
    match fetched {
        Some(bytes) => decode_spec(bytes),
        None => Err(ContractError::StorageError),
    }
}

/// What was fetched, as a sequence of bytes.
pub open spec fn fetched_view(fetched: Option<Vec<u8>>) -> Option<Seq<u8>> {
    match fetched {
        Some(bytes) => Some(bytes@),
        None => None,
    }
}

/// Interprets the outcome of fetching the counter's key: absent is a
/// `StorageError`, present is decoded.
pub fn decode_stored(fetched: Option<Vec<u8>>) -> (r: Result<i32, ContractError>)
    ensures
        r == decode_stored_spec(fetched_view(fetched)),
{
    match fetched {
        Some(bytes) => decode(bytes.as_slice()),
        None => Err(ContractError::StorageError),
    }
}

/// Reads the counter.
pub fn read(storage: &MemoryStorage) -> (r: Result<i32, ContractError>)
    ensures
        r == read_spec(contents(*storage)),
{
    let key = KEY;
    decode_stored(storage_get(storage, key.as_slice()))
}

/// Writes the counter, touching no other key.
pub fn write(storage: &mut MemoryStorage, value: i32)
    ensures
        contents(*final(storage)) == write_spec(contents(*old(storage)), value),
{
    let key = KEY;
    let bytes = encode(value);
    storage_set(storage, key.as_slice(), bytes.as_slice());
}

/// What was written is what is read, whatever the store held before.
pub proof fn lemma_read_after_write(held: Map<Seq<u8>, Seq<u8>>, value: i32)
    ensures
        read_spec(write_spec(held, value)) == Ok::<i32, ContractError>(value),
{
    crate::codec::lemma_decode_encode(value);
}

/// Writing changes the counter's key and nothing else.
pub proof fn lemma_write_touches_one_key(held: Map<Seq<u8>, Seq<u8>>, value: i32, other: Seq<u8>)
    requires
        other != KEY@,
    ensures
        write_spec(held, value).contains_key(other) == held.contains_key(other),
        held.contains_key(other) ==> write_spec(held, value)[other] == held[other],
        write_spec(held, value).dom() == held.dom().insert(KEY@),
{
}

} // verus!
