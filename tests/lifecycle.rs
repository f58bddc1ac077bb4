use cosmos_sdk_proto::cosmos::base::abci::v1beta1::{MsgData, TxMsgData};
use cosmos_sdk_proto::cosmos::base::v1beta1::Coin;
use cosmos_sdk_proto::cosmos::staking::v1beta1::{
    MsgDelegate, MsgDelegateResponse, MsgUndelegate, MsgUndelegateResponse,
};
use cosmos_sdk_proto::prost::Message;
use cosmos_sdk_proto::Timestamp;
use neutron_interchain_txs::contract::{
    get_port_id, AcknowledgementResult, Contract, ContractError, ItemStatus, OpenAckVersion,
    SequenceKey, DEFAULT_TIMEOUT_SECONDS,
};
use neutron_interchain_txs::proto::ResponseItem;

const CONTRACT: &str = "neutron1contract";
const DELEGATE: &str = "/cosmos.staking.v1beta1.MsgDelegate";
const UNDELEGATE: &str = "/cosmos.staking.v1beta1.MsgUndelegate";

fn version(address: &str, connection: &str) -> OpenAckVersion {
    OpenAckVersion {
        version: "ics27-1".to_string(),
        controller_connection_id: connection.to_string(),
        host_connection_id: "connection-1".to_string(),
        address: address.to_string(),
        encoding: "proto3".to_string(),
        tx_type: "sdk_multi_msg".to_string(),
    }
}

fn seq_key(channel: &str, sequence: u64) -> SequenceKey {
    SequenceKey { channel_id: channel.to_string(), sequence }
}

fn open_account(c: &mut Contract, label: &str, address: &str) {
    c.execute_register_ica(CONTRACT, "conn-0".to_string(), label.to_string());
    c.sudo_open_ack(get_port_id(CONTRACT, label), Some(version(address, "conn-0"))).unwrap();
}

#[allow(deprecated)]
fn response_data(items: Vec<(&str, Vec<u8>)>) -> Vec<u8> {
    TxMsgData {
        data: items
            .into_iter()
            .map(|(t, d)| MsgData { msg_type: t.to_string(), data: d })
            .collect(),
        msg_responses: vec![],
    }
    .encode_to_vec()
}

#[test]
fn submit_before_handshake_is_not_ready() {
    let mut c = Contract::instantiate();
    let r = c.execute_delegate(CONTRACT, "acc-1".to_string(), "val".to_string(), 10, None);
    assert_eq!(r.err(), Some(ContractError::AccountNotReady));
    c.execute_register_ica(CONTRACT, "conn-0".to_string(), "acc-1".to_string());
    let r = c.execute_delegate(CONTRACT, "acc-1".to_string(), "val".to_string(), 10, None);
    assert_eq!(r.err(), Some(ContractError::AccountNotReady));
    assert_eq!(c.prepare_sudo_payload("chan-1".to_string(), 1), Err(ContractError::NoPendingPayload));
}

#[test]
fn happy_path_records_success() {
    let mut c = Contract::instantiate();
    let reg = c.execute_register_ica(CONTRACT, "conn-0".to_string(), "acc-1".to_string());
    assert_eq!(reg.connection_id, "conn-0");
    assert_eq!(reg.interchain_account_id, "acc-1");
    assert_eq!(c.get_ica(CONTRACT, "acc-1"), Err(ContractError::AccountNotReady));
    c.sudo_open_ack(get_port_id(CONTRACT, "acc-1"), Some(version("cosmos1remote", "conn-0"))).unwrap();
    assert_eq!(
        c.query_interchain_address_contract(CONTRACT, "acc-1"),
        Ok(("cosmos1remote".to_string(), "conn-0".to_string()))
    );
    let tx = c.execute_delegate(CONTRACT, "acc-1".to_string(), "cosmosvaloper1v".to_string(), 1000, None).unwrap();
    assert_eq!(tx.connection_id, "conn-0");
    assert_eq!(tx.interchain_account_id, "acc-1");
    assert_eq!(tx.memo, "");
    assert_eq!(tx.timeout, DEFAULT_TIMEOUT_SECONDS);
    assert_eq!(tx.timeout, 1_209_600);
    assert_eq!(tx.msgs.len(), 1);
    assert_eq!(tx.msgs[0].type_url, DELEGATE);
    let expected = MsgDelegate {
        delegator_address: "cosmos1remote".to_string(),
        validator_address: "cosmosvaloper1v".to_string(),
        amount: Some(Coin { denom: "stake".to_string(), amount: "1000".to_string() }),
    }
    .encode_to_vec();
    assert_eq!(tx.msgs[0].value, expected);
    c.prepare_sudo_payload("chan-1".to_string(), 7).unwrap();
    let data = response_data(vec![(DELEGATE, MsgDelegateResponse {}.encode_to_vec())]);
    let st = c.sudo_response(&seq_key("chan-1", 7), &data).unwrap();
    assert_eq!(st, vec![ItemStatus::Interpreted]);
    assert_eq!(
        c.query_acknowledgement_result(CONTRACT, "acc-1"),
        Some(&AcknowledgementResult::Success(vec![DELEGATE.to_string()]))
    );
    // the tracked packet was consumed
    assert_eq!(c.sudo_timeout(&seq_key("chan-1", 7)), Err(ContractError::UnknownSequence));
}

#[test]
fn timeout_path_records_timeout() {
    let mut c = Contract::instantiate();
    open_account(&mut c, "acc-1", "cosmos1remote");
    let tx = c.execute_undelegate(CONTRACT, "acc-1".to_string(), "val".to_string(), 5, Some(60)).unwrap();
    assert_eq!(tx.timeout, 60);
    assert_eq!(tx.msgs[0].type_url, UNDELEGATE);
    let expected = MsgUndelegate {
        delegator_address: "cosmos1remote".to_string(),
        validator_address: "val".to_string(),
        amount: Some(Coin { denom: "stake".to_string(), amount: "5".to_string() }),
    }
    .encode_to_vec();
    assert_eq!(tx.msgs[0].value, expected);
    c.prepare_sudo_payload("chan-1".to_string(), 7).unwrap();
    c.sudo_timeout(&seq_key("chan-1", 7)).unwrap();
    assert_eq!(
        c.query_acknowledgement_result(CONTRACT, "acc-1"),
        Some(&AcknowledgementResult::Timeout("message".to_string()))
    );
}

#[test]
fn error_path_records_details() {
    let mut c = Contract::instantiate();
    open_account(&mut c, "acc-1", "cosmos1remote");
    c.execute_delegate(CONTRACT, "acc-1".to_string(), "val".to_string(), 5, None).unwrap();
    c.prepare_sudo_payload("chan-2".to_string(), 3).unwrap();
    c.sudo_error(&seq_key("chan-2", 3), "out of gas".to_string()).unwrap();
    assert_eq!(
        c.query_acknowledgement_result(CONTRACT, "acc-1"),
        Some(&AcknowledgementResult::Error("message".to_string(), "out of gas".to_string()))
    );
}

#[test]
fn unknown_sequence_leaves_outcomes_alone() {
    let mut c = Contract::instantiate();
    open_account(&mut c, "acc-1", "cosmos1remote");
    c.execute_delegate(CONTRACT, "acc-1".to_string(), "val".to_string(), 5, None).unwrap();
    c.prepare_sudo_payload("chan-1".to_string(), 7).unwrap();
    assert_eq!(c.sudo_timeout(&seq_key("chan-1", 8)), Err(ContractError::UnknownSequence));
    assert_eq!(c.sudo_error(&seq_key("chan-9", 7), "x".to_string()), Err(ContractError::UnknownSequence));
    let data = response_data(vec![(DELEGATE, vec![])]);
    assert_eq!(c.sudo_response(&seq_key("chan-1", 6), &data), Err(ContractError::UnknownSequence));
    assert_eq!(c.query_acknowledgement_result(CONTRACT, "acc-1"), None);
    // the tracked packet is still there
    c.sudo_timeout(&seq_key("chan-1", 7)).unwrap();
}

#[test]
fn clean_ack_results_erases_everything() {
    let mut c = Contract::instantiate();
    open_account(&mut c, "acc-1", "cosmos1a");
    open_account(&mut c, "acc-2", "cosmos1b");
    for (label, seq) in [("acc-1", 1u64), ("acc-2", 2u64)] {
        c.execute_delegate(CONTRACT, label.to_string(), "val".to_string(), 5, None).unwrap();
        c.prepare_sudo_payload("chan-1".to_string(), seq).unwrap();
        c.sudo_timeout(&seq_key("chan-1", seq)).unwrap();
    }
    assert!(c.query_acknowledgement_result(CONTRACT, "acc-1").is_some());
    c.execute_clean_ack_results();
    assert_eq!(c.query_acknowledgement_result(CONTRACT, "acc-1"), None);
    assert_eq!(c.query_acknowledgement_result(CONTRACT, "acc-2"), None);
    c.execute_clean_ack_results();
    assert_eq!(c.query_acknowledgement_result(CONTRACT, "acc-3"), None);
}

#[test]
fn second_submission_overwrites_pending_payload() {
    let mut c = Contract::instantiate();
    open_account(&mut c, "acc-1", "cosmos1a");
    open_account(&mut c, "acc-2", "cosmos1b");
    c.execute_delegate(CONTRACT, "acc-1".to_string(), "val".to_string(), 5, None).unwrap();
    c.execute_delegate(CONTRACT, "acc-2".to_string(), "val".to_string(), 5, None).unwrap();
    c.prepare_sudo_payload("chan-1".to_string(), 1).unwrap();
    assert_eq!(c.prepare_sudo_payload("chan-1".to_string(), 2), Err(ContractError::NoPendingPayload));
    c.sudo_timeout(&seq_key("chan-1", 1)).unwrap();
    assert_eq!(c.query_acknowledgement_result(CONTRACT, "acc-1"), None);
    assert_eq!(
        c.query_acknowledgement_result(CONTRACT, "acc-2"),
        Some(&AcknowledgementResult::Timeout("message".to_string()))
    );
}

#[test]
fn invalid_handshake_leaves_account_absent() {
    let mut c = Contract::instantiate();
    c.execute_register_ica(CONTRACT, "conn-0".to_string(), "acc-1".to_string());
    assert_eq!(
        c.sudo_open_ack(get_port_id(CONTRACT, "acc-1"), None),
        Err(ContractError::HandshakeMetadataInvalid)
    );
    assert_eq!(c.get_ica(CONTRACT, "acc-1"), Err(ContractError::AccountNotReady));
}

#[test]
fn reregistration_clears_confirmed_account() {
    let mut c = Contract::instantiate();
    open_account(&mut c, "acc-1", "cosmos1a");
    assert!(c.get_ica(CONTRACT, "acc-1").is_ok());
    c.execute_register_ica(CONTRACT, "conn-0".to_string(), "acc-1".to_string());
    assert_eq!(c.get_ica(CONTRACT, "acc-1"), Err(ContractError::AccountNotReady));
}

#[test]
fn undecodable_response_changes_nothing() {
    let mut c = Contract::instantiate();
    open_account(&mut c, "acc-1", "cosmos1a");
    c.execute_delegate(CONTRACT, "acc-1".to_string(), "val".to_string(), 5, None).unwrap();
    c.prepare_sudo_payload("chan-1".to_string(), 7).unwrap();
    assert_eq!(c.sudo_response(&seq_key("chan-1", 7), &vec![0xff]), Err(ContractError::ResponseDecode));
    assert_eq!(c.query_acknowledgement_result(CONTRACT, "acc-1"), None);
    c.sudo_timeout(&seq_key("chan-1", 7)).unwrap();
}

#[test]
fn partial_understanding_is_recorded() {
    let mut c = Contract::instantiate();
    open_account(&mut c, "acc-1", "cosmos1a");
    c.execute_delegate(CONTRACT, "acc-1".to_string(), "val".to_string(), 5, None).unwrap();
    c.prepare_sudo_payload("chan-1".to_string(), 7).unwrap();
    let complete = MsgUndelegateResponse {
        completion_time: Some(Timestamp { seconds: 100, nanos: 0 }),
        amount: None,
    }
    .encode_to_vec();
    let data = response_data(vec![
        ("/custom.Msg", vec![1, 2, 3]),
        (UNDELEGATE, complete),
        (UNDELEGATE, vec![]),
        (DELEGATE, vec![0xff]),
    ]);
    let st = c.sudo_response(&seq_key("chan-1", 7), &data).unwrap();
    assert_eq!(
        st,
        vec![ItemStatus::Uninterpreted, ItemStatus::Interpreted, ItemStatus::DecodeFailed, ItemStatus::DecodeFailed]
    );
    assert_eq!(
        c.query_acknowledgement_result(CONTRACT, "acc-1"),
        Some(&AcknowledgementResult::Success(vec![
            "/custom.Msg".to_string(),
            UNDELEGATE.to_string(),
            UNDELEGATE.to_string(),
            DELEGATE.to_string(),
        ]))
    );
}

#[test]
fn record_response_from_decoded_items() {
    let mut c = Contract::instantiate();
    open_account(&mut c, "acc-1", "cosmos1a");
    c.execute_delegate(CONTRACT, "acc-1".to_string(), "val".to_string(), 5, None).unwrap();
    c.prepare_sudo_payload("chan-1".to_string(), 7).unwrap();
    let items = vec![ResponseItem { msg_type: "/other".to_string(), data: vec![] }];
    assert_eq!(c.record_response(&seq_key("chan-1", 8), &items), Err(ContractError::UnknownSequence));
    assert_eq!(c.record_response(&seq_key("chan-1", 7), &items), Ok(vec![ItemStatus::Uninterpreted]));
    assert_eq!(
        c.query_acknowledgement_result(CONTRACT, "acc-1"),
        Some(&AcknowledgementResult::Success(vec!["/other".to_string()]))
    );
}

#[test]
fn empty_response_records_empty_success() {
    let mut c = Contract::instantiate();
    open_account(&mut c, "acc-1", "cosmos1a");
    c.execute_delegate(CONTRACT, "acc-1".to_string(), "val".to_string(), 5, None).unwrap();
    c.prepare_sudo_payload("chan-1".to_string(), 7).unwrap();
    assert_eq!(c.sudo_response(&seq_key("chan-1", 7), &vec![]), Ok(vec![]));
    assert_eq!(c.query_acknowledgement_result(CONTRACT, "acc-1"), Some(&AcknowledgementResult::Success(vec![])));
}
