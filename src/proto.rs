use vstd::prelude::*;

use cosmos_sdk_proto::cosmos::base::abci::v1beta1::TxMsgData;
use cosmos_sdk_proto::cosmos::base::v1beta1::Coin;
use cosmos_sdk_proto::cosmos::staking::v1beta1::{
    MsgDelegate, MsgDelegateResponse, MsgUndelegate, MsgUndelegateResponse,
};
use cosmos_sdk_proto::prost::Message;

verus! {

/// One item of a transaction's response data: the type of the message and its encoded response.
pub struct ResponseItem {
    pub msg_type: String,
    pub data: Vec<u8>,
}

impl View for ResponseItem {
    type V = (Seq<char>, Seq<u8>);

    open spec fn view(&self) -> (Seq<char>, Seq<u8>) {
        (self.msg_type@, self.data@)
    }
}

/// The protobuf encoding of a `MsgDelegate` with these fields.
pub uninterp spec fn delegate_body(
    delegator: Seq<char>,
    validator: Seq<char>,
    denom: Seq<char>,
    amount: Seq<char>,
) -> Seq<u8>;

/// The protobuf encoding of a `MsgUndelegate` with these fields.
pub uninterp spec fn undelegate_body(
    delegator: Seq<char>,
    validator: Seq<char>,
    denom: Seq<char>,
    amount: Seq<char>,
) -> Seq<u8>;

/// The items of the `data` field of a `TxMsgData` decoded from these bytes, or `None`
/// where they do not decode.
pub uninterp spec fn tx_msg_items(data: Seq<u8>) -> Option<Seq<(Seq<char>, Seq<u8>)>>;

/// Whether these bytes decode as a `MsgDelegateResponse`.
pub uninterp spec fn delegate_response_decodes(data: Seq<u8>) -> bool;

/// The completion time, as seconds and nanoseconds, of the `MsgUndelegateResponse` that
/// these bytes decode to, or `None` where they do not decode.
pub uninterp spec fn undelegate_completion(data: Seq<u8>) -> Option<Option<(i64, i32)>>;

/// Relies on prost's `Message::encode_to_vec` for cosmos-sdk-proto's `MsgDelegate`:
/// the bytes are a function of the fields.
#[verifier::external_body]
pub(crate) fn encode_delegate(delegator: &String, validator: &String, denom: &String, amount: &String) -> (r: Vec<u8>)
    ensures
        r@ == delegate_body(delegator@, validator@, denom@, amount@),
{
    MsgDelegate {
        delegator_address: delegator.clone(),
        validator_address: validator.clone(),
        amount: Some(Coin { denom: denom.clone(), amount: amount.clone() }),
    }.encode_to_vec()
}

/// Relies on prost's `Message::encode_to_vec` for cosmos-sdk-proto's `MsgUndelegate`:
/// the bytes are a function of the fields.
#[verifier::external_body]
pub(crate) fn encode_undelegate(delegator: &String, validator: &String, denom: &String, amount: &String) -> (r: Vec<u8>)
    ensures
        r@ == undelegate_body(delegator@, validator@, denom@, amount@),
{
    MsgUndelegate {
        delegator_address: delegator.clone(),
        validator_address: validator.clone(),
        amount: Some(Coin { denom: denom.clone(), amount: amount.clone() }),
    }.encode_to_vec()
}

/// Relies on prost's `Message::decode` for cosmos-sdk-proto's `TxMsgData`: the items of
/// its `data` field, in order, are a function of the bytes.
#[verifier::external_body]
pub(crate) fn decode_tx_msg_data(data: &Vec<u8>) -> (r: Option<Vec<ResponseItem>>)
    ensures
        r matches Some(v) ==> tx_msg_items(data@) == Some(v@.map_values(|i: ResponseItem| i@)),
        r is None ==> tx_msg_items(data@) is None,
{
    #[allow(deprecated)]
    TxMsgData::decode(data.as_slice()).ok().map(
        |m| m.data.into_iter().map(|d| ResponseItem { msg_type: d.msg_type, data: d.data }).collect(),
    )
}

/// Relies on prost's `Message::decode` for cosmos-sdk-proto's `MsgDelegateResponse`:
/// whether it succeeds is a function of the bytes.
#[verifier::external_body]
pub(crate) fn decode_delegate_response(data: &Vec<u8>) -> (r: bool)
    ensures
        r == delegate_response_decodes(data@),
{
    MsgDelegateResponse::decode(data.as_slice()).is_ok()
}

/// Relies on prost's `Message::decode` for cosmos-sdk-proto's `MsgUndelegateResponse`:
/// the completion time it holds is a function of the bytes.
#[verifier::external_body]
pub(crate) fn decode_undelegate_response(data: &Vec<u8>) -> (r: Option<Option<(i64, i32)>>)
    ensures
        r == undelegate_completion(data@),
{
    MsgUndelegateResponse::decode(data.as_slice()).ok().map(
        |m| m.completion_time.map(|t| (t.seconds, t.nanos)),
    )
}

} // verus!
