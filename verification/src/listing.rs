//! The registry as JSON, for a host that asks which operations exist.
//!
//! The rows of the table are put into a `serde_json::Map`, one member for
//! each row and in table order, and the map is pretty-printed.

use vstd::prelude::*;
use serde_json::Value;
use crate::error::ContractError;
use crate::registry::{distinct_names, enumerate, lemma_table_names, rows, table};

verus! {

/// `serde_json::Map`, a JSON object. Its field is private to its crate.
#[verifier::external_type_specification]
#[verifier::external_body]
#[verifier::reject_recursive_types(K)]
#[verifier::reject_recursive_types(V)]
pub struct ExJsonMap<K, V>(serde_json::Map<K, V>);

/// `serde_json::Value`, any JSON value.
#[verifier::external_type_specification]
#[verifier::external_body]
pub struct ExJsonValue(Value);

/// `serde_json::Error`, which says why a value could not be written as JSON.
#[verifier::external_type_specification]
#[verifier::external_body]
pub struct ExJsonError(serde_json::Error);

/// The members of an object that holds only booleans: each member's name and
/// value, in the order in which the object keeps them.
pub uninterp spec fn members(object: serde_json::Map<String, Value>) -> Seq<(Seq<char>, bool)>;

/// The bytes that `serde_json::to_vec_pretty` writes for an object with these
/// members.
pub uninterp spec fn pretty_json(members: Seq<(Seq<char>, bool)>) -> Seq<u8>;

/// `serde_json::Map::new`: an object without members.
#[verifier::external_body]
fn object_new() -> (object: serde_json::Map<String, Value>)
    ensures
        members(object) == Seq::<(Seq<char>, bool)>::empty(),
{
    serde_json::Map::new()
}

/// `serde_json::Map::insert` with a boolean value, for a name that the object
/// does not hold yet. With the `preserve_order` feature, which this crate asks
/// for, the object keeps its members in the order of insertion, so the new
/// member comes last.
#[verifier::external_body]
fn object_insert(object: &mut serde_json::Map<String, Value>, name: String, flag: bool)
    requires
        forall|i: int|
            0 <= i < members(*old(object)).len() ==> members(*old(object))[i].0 != name@,
    ensures
        members(*final(object)) == members(*old(object)).push((name@, flag)),
{
    object.insert(name, Value::Bool(flag));
}

/// `serde_json::to_vec_pretty` on an object: the call succeeds, and the bytes
/// are the pretty-printed object. It succeeds because the serializer writes
/// into a `Vec<u8>`, which takes every write, and an object's names are
/// strings: the only failures that the serializer knows are a failed write and
/// a name that is no string.
#[verifier::external_body]
fn to_vec_pretty(object: &serde_json::Map<String, Value>) -> (outcome: Result<
    Vec<u8>,
    serde_json::Error,
>)
    ensures
        outcome is Ok,
        outcome->Ok_0@ == pretty_json(members(*object)),
{
    serde_json::to_vec_pretty(object)
}

/// Turns the serializer's outcome into the listing's: the bytes as they are,
/// or `SerializationError` whatever the serializer's reason.
pub fn listing_from(outcome: Result<Vec<u8>, serde_json::Error>) -> (r: Result<
    Vec<u8>,
    ContractError,
>)
    ensures
        match outcome {
            Ok(bytes) => r == Ok::<Vec<u8>, ContractError>(bytes),
            Err(_) => r == Err::<Vec<u8>, ContractError>(ContractError::SerializationError),
        },
{
    match outcome {
        Ok(bytes) => Ok(bytes),
        Err(_) => Err(ContractError::SerializationError),
    }
}

/// The registry as pretty-printed JSON: one object whose members are the
/// rows of the table, in table order. The listing is always there: no call
/// fails.
pub fn callee_func_list() -> (r: Result<Vec<u8>, ContractError>)
    ensures
        r is Ok,
        r->Ok_0@ == pretty_json(table()),
{
    let entries = enumerate();
    let mut object = object_new();
    let mut i: usize = 0;
    proof {
        lemma_table_names();
    }
    while i < entries.len()
        invariant
            i <= entries.len(),
            rows(entries@) == table(),
            distinct_names(table()),
            members(object) == table().take(i as int),
        decreases entries.len() - i,
    {
        assert(rows(entries@)[i as int] == entries[i as int]@);
        object_insert(&mut object, entries[i].name.clone(), entries[i].mutates);
        assert(table().take(i as int).push(table()[i as int]) =~= table().take(i as int + 1));
        i += 1;
    }
    assert(table().take(i as int) =~= table());
    listing_from(to_vec_pretty(&object))
}

} // verus!
