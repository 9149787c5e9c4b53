//! The stored form of the counter: four bytes, big-endian, two's complement.

use vstd::prelude::*;
use crate::error::ContractError;

verus! {

/// The unsigned 32-bit number whose bits are those of `value`.
pub open spec fn unsigned(value: i32) -> int {
    if value < 0 {
        value + 0x1_0000_0000
    } else {
        value as int
    }
}

/// The four bytes that stand for `value`, most significant first.
pub open spec fn encode_spec(value: i32) -> Seq<u8> {
    let u = unsigned(value);
    seq![
        (u / 0x100_0000) as u8,
        (u / 0x1_0000 % 0x100) as u8,
        (u / 0x100 % 0x100) as u8,
        (u % 0x100) as u8,
    ]
}

/// The unsigned number that four bytes spell, most significant first.
pub open spec fn magnitude(bytes: Seq<u8>) -> int {
    bytes[0] * 0x100_0000 + bytes[1] * 0x1_0000 + bytes[2] * 0x100 + bytes[3]
}

/// The integer that `bytes` stand for, or `StorageError` unless there are
/// exactly four of them.
pub open spec fn decode_spec(bytes: Seq<u8>) -> Result<i32, ContractError> {
    if bytes.len() != 4 {
        Err(ContractError::StorageError)
    } else if magnitude(bytes) >= 0x8000_0000 {
        Ok((magnitude(bytes) - 0x1_0000_0000) as i32)
    } else {
        Ok(magnitude(bytes) as i32)
    }
}

/// Encodes `value` as four big-endian bytes.
pub fn encode(value: i32) -> (bytes: [u8; 4])
    ensures
        bytes@ == encode_spec(value),
{
    let u: i64 = if value < 0 {
        value as i64 + 0x1_0000_0000
    } else {
        value as i64
    };
    let bytes = [
        (u / 0x100_0000) as u8,
        (u / 0x1_0000 % 0x100) as u8,
        (u / 0x100 % 0x100) as u8,
        (u % 0x100) as u8,
    ];
    assert(bytes@ =~= encode_spec(value));
    bytes
}

/// Decodes four big-endian bytes; any other length is a `StorageError`.
pub fn decode(bytes: &[u8]) -> (r: Result<i32, ContractError>)
    ensures
        r == decode_spec(bytes@),
{
    if bytes.len() != 4 {
        return Err(ContractError::StorageError);
    }
    let m: i64 = bytes[0] as i64 * 0x100_0000 + bytes[1] as i64 * 0x1_0000
        + bytes[2] as i64 * 0x100 + bytes[3] as i64;
    if m >= 0x8000_0000 {
        Ok((m - 0x1_0000_0000) as i32)
    } else {
        Ok(m as i32)
    }
}

/// Decoding what was encoded gives the value back.
pub proof fn lemma_decode_encode(value: i32)
    ensures
        encode_spec(value).len() == 4,
        decode_spec(encode_spec(value)) == Ok::<i32, ContractError>(value),
{
}

/// Encoding what four bytes decode to gives the same four bytes.
pub proof fn lemma_encode_decode(bytes: Seq<u8>)
    requires
        bytes.len() == 4,
    ensures
        decode_spec(bytes) is Ok,
        encode_spec(decode_spec(bytes)->Ok_0) == bytes,
{
    let (b0, b1, b2, b3) = (bytes[0] as int, bytes[1] as int, bytes[2] as int, bytes[3] as int);
    let m = magnitude(bytes);
    assert(unsigned(decode_spec(bytes)->Ok_0) == m);
    assert(m % 0x100 == b3 && m / 0x100 == b0 * 0x1_0000 + b1 * 0x100 + b2);
    assert(m / 0x100 % 0x100 == b2);
    assert(m / 0x1_0000 == b0 * 0x100 + b1);
    assert(m / 0x1_0000 % 0x100 == b1);
    assert(m / 0x100_0000 == b0);
    assert(encode_spec(decode_spec(bytes)->Ok_0) =~= bytes);
}

} // verus!
