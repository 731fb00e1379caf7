//! The decisions of a runner of scripted transaction tests.
//!
//! `args` reads the reference forms that a script embeds in the base value
//! language (`object(..)`, `receiving(..)`, `digest(..)`) and resolves them,
//! against the state of a scenario, into transaction inputs.
//! `transactional_adapter` states what each of the two execution backends is
//! asked for. `read_api_v2` and `package_store` decide the answers of a read
//! interface and of a write-through store from what their reads gave.
//!
//! Nothing here waits or writes. The one thing that is read is the object
//! store of a backend, through `storage::ObjectStore`; every other function
//! takes plain values and returns plain values.

pub mod args;
pub mod base_types;
pub mod move_value;
pub mod object;
pub mod package_store;
pub mod parser;
pub mod read_api_v2;
pub mod storage;
pub mod test_adapter;
pub mod transaction;
pub mod transactional_adapter;
pub mod u256;
