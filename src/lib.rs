//! Interchain accounts for a contract: the bookkeeping that correlates a submitted transaction
//! with its local and remote results, and the encoding of remote key/value storage addresses.

use vstd::prelude::*;

pub mod contract;
pub mod decimal;
pub mod hex;
pub mod kv_key;
pub mod msg;
pub mod proto;
pub mod register_queries;
pub mod store;
pub mod types;

pub use hex::{decode_hex, encode_hex};

verus! {

} // verus!
