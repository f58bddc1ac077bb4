use vstd::prelude::*;
use vstd::string::StringExecFns;

use crate::decimal::{decimal, decimal_string};
use crate::kv_key::{encode_keys, KVKey, KVKeys};

verus! {

/// A key/value pair that describes an action to the host.
pub struct Attribute {
    pub key: String,
    pub value: String,
}

impl View for Attribute {
    type V = (Seq<char>, Seq<char>);

    open spec fn view(&self) -> (Seq<char>, Seq<char>) {
        (self.key@, self.value@)
    }
}

/// The kind of an interchain query: over key/value storage, or over transactions.
#[derive(Clone, Copy, Debug, PartialEq, Eq, Structural)]
pub enum QueryType {
    KV,
    TX,
}

/// The name of a query type.
pub open spec fn query_type_name(t: QueryType) -> Seq<char> {
    match t {
        QueryType::KV => "kv"@,
        QueryType::TX => "tx"@,
    }
}

impl QueryType {
    pub fn name(&self) -> (r: String)
        ensures
            r@ == query_type_name(*self),
    {
        match self {
            QueryType::KV => <String as StringExecFns>::from_str("kv"),
            QueryType::TX => <String as StringExecFns>::from_str("tx"),
        }
    }
}

/// A message to the interchain queries module.
pub enum InterchainQueryMsg {
    Register {
        query_type: String,
        keys: Vec<KVKey>,
        transactions_filter: String,
        zone_id: String,
        connection_id: String,
        update_period: u64,
    },
    Update { query_id: u64, new_keys: Option<Vec<KVKey>>, new_update_period: Option<u64> },
    Remove { query_id: u64 },
}

/// A message for the host together with the attributes that describe it.
pub struct QueryRequest {
    pub msg: InterchainQueryMsg,
    pub attributes: Vec<Attribute>,
}

/// The views of the attributes.
pub open spec fn attribute_views(a: Seq<Attribute>) -> Seq<(Seq<char>, Seq<char>)> {
    a.map_values(|x: Attribute| x@)
}

/// The view of a list of keys.
pub open spec fn key_views(keys: Seq<KVKey>) -> Seq<(Seq<char>, Seq<u8>)> {
    keys.map_values(|k: KVKey| k@)
}

/// Every key of the list can be written out.
pub open spec fn keys_encodable(keys: Seq<KVKey>) -> bool {
    forall|i: int| 0 <= i < keys.len() ==> (#[trigger] keys[i]).key@.len() * 2 <= usize::MAX
}

/// The attributes that describe a query registration.
pub open spec fn register_attributes(
    connection_id: Seq<char>,
    zone_id: Seq<char>,
    query_type: QueryType,
    keys: Seq<(Seq<char>, Seq<u8>)>,
    transactions_filter: Seq<char>,
    update_period: u64,
) -> Seq<(Seq<char>, Seq<char>)> {
    seq![
        ("action"@, "register_interchain_query"@),
        ("connection_id"@, connection_id),
        ("zone_id"@, zone_id),
        ("query_type"@, query_type_name(query_type)),
        ("update_period"@, decimal(update_period as nat)),
    ] + (if transactions_filter.len() > 0 {
        seq![("transactions_filter"@, transactions_filter)]
    } else {
        Seq::empty()
    }) + (if keys.len() > 0 {
        seq![("kv_keys"@, encode_keys(keys))]
    } else {
        Seq::empty()
    })
}

/// The attributes that describe a query update.
pub open spec fn update_attributes(
    query_id: u64,
    new_keys: Option<Seq<(Seq<char>, Seq<u8>)>>,
    new_update_period: Option<u64>,
) -> Seq<(Seq<char>, Seq<char>)> {
    seq![("action"@, "update_interchain_query"@), ("query_id"@, decimal(query_id as nat))] + (match new_keys {
        Some(k) => seq![("new_keys"@, encode_keys(k))],
        None => Seq::empty(),
    }) + (match new_update_period {
        Some(p) => seq![("new_update_period"@, decimal(p as nat))],
        None => Seq::empty(),
    })
}

fn attribute(key: &'static str, value: String) -> (r: Attribute)
    ensures
        r@ == (key@, value@),
{
    Attribute { key: <String as StringExecFns>::from_str(key), value }
}

/// The keys written as a list, and the keys given back.
fn encode_key_list(keys: Vec<KVKey>) -> (r: (String, Vec<KVKey>))
    requires
        keys_encodable(keys@),
    ensures
        r.0@ == encode_keys(key_views(keys@)),
        r.1 == keys,
{
    let list = KVKeys(keys);
    let s = list.into_string();
    (s, list.0)
}

/// Registers an Interchain Query with provided params
pub fn register_interchain_query(
    connection_id: String,
    zone_id: String,
    query_type: QueryType,
    kv_keys: Vec<KVKey>,
    transactions_filter: String,
    update_period: u64,
) -> (r: QueryRequest)
    requires
        keys_encodable(kv_keys@),
    ensures
        r.msg == (InterchainQueryMsg::Register {
            query_type: r.msg->Register_query_type,
            keys: kv_keys,
            transactions_filter,
            zone_id,
            connection_id,
            update_period,
        }),
        r.msg->Register_query_type@ == query_type_name(query_type),
        attribute_views(r.attributes@) == register_attributes(
            connection_id@,
            zone_id@,
            query_type,
            key_views(kv_keys@),
            transactions_filter@,
            update_period,
        ),
{
    let mut attributes: Vec<Attribute> = Vec::new();
    attributes.push(attribute("action", <String as StringExecFns>::from_str("register_interchain_query")));
    attributes.push(attribute("connection_id", connection_id.clone()));
    attributes.push(attribute("zone_id", zone_id.clone()));
    attributes.push(attribute("query_type", query_type.name()));
    attributes.push(attribute("update_period", decimal_string(update_period as u128)));
    let ghost head = attribute_views(attributes@);
    if transactions_filter.unicode_len() > 0 {
        attributes.push(attribute("transactions_filter", transactions_filter.clone()));
    }
    let ghost middle = attribute_views(attributes@);
    let keys = if kv_keys.len() > 0 {
        let (list, keys) = encode_key_list(kv_keys);
        attributes.push(attribute("kv_keys", list));
        keys
    } else {
        kv_keys
    };
    proof {
        assert(head =~= seq![
            ("action"@, "register_interchain_query"@),
            ("connection_id"@, connection_id@),
            ("zone_id"@, zone_id@),
            ("query_type"@, query_type_name(query_type)),
            ("update_period"@, decimal(update_period as nat)),
        ]);
        assert(attribute_views(attributes@) =~= register_attributes(
            connection_id@,
            zone_id@,
            query_type,
            key_views(kv_keys@),
            transactions_filter@,
            update_period,
        ));
    }
    let msg = InterchainQueryMsg::Register {
        query_type: query_type.name(),
        keys,
        transactions_filter,
        zone_id,
        connection_id,
        update_period,
    };
    QueryRequest { msg, attributes }
}

/// Updates a registered Interchain Query.
/// Only the owner of the query can execute this message.
pub fn update_interchain_query(
    query_id: u64,
    new_keys: Option<Vec<KVKey>>,
    new_update_period: Option<u64>,
) -> (r: QueryRequest)
    requires
        new_keys matches Some(k) ==> keys_encodable(k@),
    ensures
        r.msg == (InterchainQueryMsg::Update { query_id, new_keys, new_update_period }),
        attribute_views(r.attributes@) == update_attributes(
            query_id,
            match new_keys {
                Some(k) => Some(key_views(k@)),
                None => None,
            },
            new_update_period,
        ),
{
    let mut attributes: Vec<Attribute> = Vec::new();
    attributes.push(attribute("action", <String as StringExecFns>::from_str("update_interchain_query")));
    attributes.push(attribute("query_id", decimal_string(query_id as u128)));
    let new_keys = match new_keys {
        Some(keys) => {
            let (list, keys) = encode_key_list(keys);
            attributes.push(attribute("new_keys", list));
            Some(keys)
        },
        None => None,
    };
    match new_update_period {
        Some(p) => {
            attributes.push(attribute("new_update_period", decimal_string(p as u128)));
        },
        None => {},
    }
    proof {
        assert(attribute_views(attributes@) =~= update_attributes(
            query_id,
            match new_keys {
                Some(k) => Some(key_views(k@)),
                None => None,
            },
            new_update_period,
        ));
    }
    QueryRequest { msg: InterchainQueryMsg::Update { query_id, new_keys, new_update_period }, attributes }
}

/// Removes a registered Interchain Query from the Interchain Queries Module.
/// Only the owner of the query can execute this message.
pub fn remove_interchain_query(query_id: u64) -> (r: QueryRequest)
    ensures
        r.msg == (InterchainQueryMsg::Remove { query_id }),
        attribute_views(r.attributes@) == seq![
            ("action"@, "remove_interchain_query"@),
            ("query_id"@, decimal(query_id as nat)),
        ],
{
    let mut attributes: Vec<Attribute> = Vec::new();
    attributes.push(attribute("action", <String as StringExecFns>::from_str("remove_interchain_query")));
    attributes.push(attribute("query_id", decimal_string(query_id as u128)));
    proof {
        assert(attribute_views(attributes@) =~= seq![
            ("action"@, "remove_interchain_query"@),
            ("query_id"@, decimal(query_id as nat)),
        ]);
    }
    QueryRequest { msg: InterchainQueryMsg::Remove { query_id }, attributes }
}

} // verus!
