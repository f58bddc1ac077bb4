use vstd::prelude::*;

use crate::kv_key::KVKey;

verus! {

/// A registered interchain query.
pub struct RegisteredQuery {
    /// The unique id of the registered query.
    pub id: u64,
    /// The address that registered the query.
    pub owner: String,
    /// The KV-storage keys for which we want to get values from remote chain
    pub keys: Vec<KVKey>,
    /// The query type identifier (i.e. 'kv' or 'tx' for now)
    pub query_type: String,
    /// The filter for transaction search ICQ
    pub transactions_filter: String,
    /// The chain of interest identifier.
    pub zone_id: String,
    /// The IBC connection ID for getting ConsensusState to verify proofs.
    pub connection_id: String,
    /// Parameter that defines how often the query must be updated.
    pub update_period: u64,
    /// The local height when the event to update the query result was emitted last time.
    pub last_emitted_height: u64,
    /// The local chain last block height when the query result was updated.
    pub last_submitted_result_local_height: u64,
    /// The remote chain last block height when the query result was updated.
    pub last_submitted_result_remote_height: u64,
}

/// InterchainQueryResult is a result data for a registered query
pub struct InterchainQueryResult {
    /// **kv_results** is a raw key-value pairs of query result
    pub kv_results: Vec<StorageValue>,
    /// **height** is a height of remote chain
    pub height: u64,
    /// **revision** is a revision of remote chain
    pub revision: u64,
}

/// Describes value in the Cosmos-SDK KV-storage on remote chain
pub struct StorageValue {
    /// **storage_prefix** is a path to the storage (storage prefix) where you want to read value by key (usually name of cosmos-sdk module: 'staking', 'bank', etc.)
    pub storage_prefix: String,
    /// **key** is a key under which the **value** is stored in the storage on remote chain
    pub key: Vec<u8>,
    /// **value** is a value which is stored under the **key** in the storage on remote chain
    pub value: Vec<u8>,
}

/// Type for wrapping any protobuf message
pub struct ProtobufAny {
    /// **type_url** describes the type of the serialized message
    pub type_url: String,
    ///  **value** must be a valid serialized protocol buffer of the above specified type
    pub value: Vec<u8>,
}

impl View for ProtobufAny {
    type V = (Seq<char>, Seq<u8>);

    open spec fn view(&self) -> (Seq<char>, Seq<u8>) {
        (self.type_url@, self.value@)
    }
}

impl ProtobufAny {
    /// Helper to create new ProtobufAny type:
    /// * **type_url** describes the type of the serialized message
    /// * **value** must be a valid serialized protocol buffer of the above specified type
    pub fn new(type_url: String, value: Vec<u8>) -> (r: Self)
        ensures
            r.type_url == type_url,
            r.value == value,
    {
        ProtobufAny { type_url, value }
    }
}

} // verus!
