//! A persistent counter: one signed 32-bit integer kept under a fixed key of a
//! byte-oriented key-value store, changed only by overflow-checked arithmetic,
//! together with a registry that names every operation and says whether it
//! mutates the stored value.
//!
//! - `codec`: the four bytes that stand for the counter.
//! - `engine`: checked addition, subtraction and multiplication.
//! - `store`: reading and writing the counter in a store.
//! - `contract`: the requests and what each does to the store.
//! - `callable`: the same operations, called by name.
//! - `registry` and `listing`: the table of operations, and the table as JSON.

pub mod error;
pub mod msg;
pub mod codec;
pub mod engine;
pub mod store;
pub mod contract;
pub mod callable;
pub mod registry;
pub mod listing;
