//! The failures that the counter reports.

use vstd::prelude::*;

verus! {

/// Why a request was not carried out.
#[derive(Debug, Clone, Copy, PartialEq, Eq, Structural)]
pub enum ContractError {
    /// The counter's key is absent, or its bytes are not a four-byte integer.
    StorageError,
    /// The mathematical result of an operation does not fit in 32 signed bits.
    Overflow,
    /// A response payload could not be encoded.
    SerializationError,
}

} // verus!
