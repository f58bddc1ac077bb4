use vstd::prelude::*;
use vstd::string::StringExecFns;

use crate::proto::{
    decode_delegate_response, decode_tx_msg_data, decode_undelegate_response, delegate_body,
    delegate_response_decodes, encode_delegate, encode_undelegate, tx_msg_items, undelegate_body,
    undelegate_completion, ResponseItem,
};
use crate::store::{Store, StoreKey};
use crate::types::ProtobufAny;
use crate::decimal::{decimal, decimal_string};
use crate::hex::push_char;

verus! {

/// Default timeout for submitted transactions: two weeks, in seconds.
pub const DEFAULT_TIMEOUT_SECONDS: u64 = 60 * 60 * 24 * 7 * 2;

/// The reply slot under which the pending payload waits for the local submission result.
pub const SUDO_PAYLOAD_REPLY_ID: u64 = 1;

/// Prefix of the port of an interchain account controlled by a contract.
pub const CONTROLLER_PORT_ID_PREFIX: &'static str = "icacontroller";

/// Label of the payload that a submission stages.
pub const PAYLOAD_MESSAGE: &'static str = "message";

/// Denomination in which amounts are delegated and undelegated.
pub const STAKE_DENOM: &'static str = "stake";

pub const DELEGATE_TYPE_URL: &'static str = "/cosmos.staking.v1beta1.MsgDelegate";

pub const UNDELEGATE_TYPE_URL: &'static str = "/cosmos.staking.v1beta1.MsgUndelegate";

/// The local identifier of an account: `icacontroller.<contract>.<label>`.
pub open spec fn port_id_of(contract: Seq<char>, id: Seq<char>) -> Seq<char> {
    CONTROLLER_PORT_ID_PREFIX@ + seq!['.'] + contract + seq!['.'] + id
}

/// Builds the local identifier of an account.
pub fn get_port_id(contract_address: &str, interchain_account_id: &str) -> (r: String)
    ensures
        r@ == port_id_of(contract_address@, interchain_account_id@),
{
    let mut s = <String as StringExecFns>::from_str(CONTROLLER_PORT_ID_PREFIX);
    push_char(&mut s, '.');
    s.append(contract_address);
    push_char(&mut s, '.');
    s.append(interchain_account_id);
    s
}

/// What the contract remembers of a submission between its callbacks.
pub struct SudoPayload {
    /// The local identifier of the account that submitted.
    pub port_id: String,
    /// The label of the submission.
    pub message: String,
}

impl View for SudoPayload {
    type V = (Seq<char>, Seq<char>);

    open spec fn view(&self) -> (Seq<char>, Seq<char>) {
        (self.port_id@, self.message@)
    }
}

/// A channel and the sequence number of a packet on it.
pub struct SequenceKey {
    pub channel_id: String,
    pub sequence: u64,
}

impl View for SequenceKey {
    type V = (Seq<char>, u64);

    open spec fn view(&self) -> (Seq<char>, u64) {
        (self.channel_id@, self.sequence)
    }
}

impl StoreKey for SequenceKey {
    fn same_key(&self, other: &SequenceKey) -> (r: bool) {
        self.sequence == other.sequence && self.channel_id == other.channel_id
    }
}

/// The final outcome of a submission.
#[derive(Clone, Debug, PartialEq, Eq)]
pub enum AcknowledgementResult {
    /// The types of the messages that the remote chain acknowledged.
    Success(Vec<String>),
    /// The label of the submission and the details of the error.
    Error(String, String),
    /// The label of the submission.
    Timeout(String),
}

/// The failures of the contract's operations.
#[derive(Clone, Copy, Debug, PartialEq, Eq, Structural)]
pub enum ContractError {
    /// The account has no confirmed remote address.
    AccountNotReady,
    /// No submission waits for its local result.
    NoPendingPayload,
    /// No submission was tracked under this channel and sequence.
    UnknownSequence,
    /// The handshake metadata of a channel could not be parsed.
    HandshakeMetadataInvalid,
    /// The response data of a transaction could not be decoded.
    ResponseDecode,
}

/// How one message of an acknowledged transaction was read.
#[derive(Clone, Copy, Debug, PartialEq, Eq, Structural)]
pub enum ItemStatus {
    /// Its response was decoded.
    Interpreted,
    /// Its type is not one the contract reads; it is recorded as acknowledged.
    Uninterpreted,
    /// Its type is known but its response did not decode.
    DecodeFailed,
}

/// The counterparty version sent when an interchain account's channel opens.
pub struct OpenAckVersion {
    pub version: String,
    pub controller_connection_id: String,
    pub host_connection_id: String,
    pub address: String,
    pub encoding: String,
    pub tx_type: String,
}

/// A request to open an interchain account.
pub struct RegisterInterchainAccount {
    pub connection_id: String,
    pub interchain_account_id: String,
}

/// A transaction to submit through an interchain account.
pub struct SubmitTx {
    pub connection_id: String,
    pub interchain_account_id: String,
    pub msgs: Vec<ProtobufAny>,
    pub memo: String,
    pub timeout: u64,
}

/// The timeout given, or two weeks.
pub open spec fn timeout_or_default(timeout: Option<u64>) -> u64 {
    match timeout {
        Some(t) => t,
        None => DEFAULT_TIMEOUT_SECONDS,
    }
}

/// How the contract reads one message of an acknowledged transaction.
pub open spec fn item_status(msg_type: Seq<char>, data: Seq<u8>) -> ItemStatus {
    if msg_type == DELEGATE_TYPE_URL@ {
        if delegate_response_decodes(data) {
            ItemStatus::Interpreted
        } else {
            ItemStatus::DecodeFailed
        }
    } else if msg_type == UNDELEGATE_TYPE_URL@ {
        match undelegate_completion(data) {
            Some(Some(_)) => ItemStatus::Interpreted,
            _ => ItemStatus::DecodeFailed,
        }
    } else {
        ItemStatus::Uninterpreted
    }
}

/// A success that lists exactly these message types.
pub open spec fn is_success_with(o: AcknowledgementResult, tags: Seq<Seq<char>>) -> bool {
    match o {
        AcknowledgementResult::Success(v) => v@.map_values(|s: String| s@) == tags,
        _ => false,
    }
}

/// The durable state of the contract.
pub ghost struct ContractModel {
    /// Local identifier to the remote address and connection, or `None` while the channel is not open.
    pub accounts: Map<Seq<char>, Option<(String, String)>>,
    /// The payload of the submission that waits for its local result.
    pub pending: Option<SudoPayload>,
    /// Channel and sequence to the payload of the submission sent under them.
    pub sequences: Map<(Seq<char>, u64), SudoPayload>,
    /// Local identifier to the outcome of its last submission.
    pub results: Map<Seq<char>, AcknowledgementResult>,
}

impl ContractModel {
    /// The account is registered and its channel is not open yet.
    pub open spec fn registered(self, port: Seq<char>) -> ContractModel {
        ContractModel { accounts: self.accounts.insert(port, None), ..self }
    }

    /// The account's channel opened with this address and connection.
    pub open spec fn opened(self, port: Seq<char>, address: String, connection: String) -> ContractModel {
        ContractModel { accounts: self.accounts.insert(port, Some((address, connection))), ..self }
    }

    /// The account has a confirmed remote address.
    pub open spec fn is_ready(self, port: Seq<char>) -> bool {
        self.accounts.contains_key(port) && self.accounts[port] is Some
    }

    /// `new` is `self` with a payload for `port` staged in the reply slot.
    pub open spec fn stages(self, new: ContractModel, port: Seq<char>) -> bool {
        &&& new.accounts == self.accounts
        &&& new.sequences == self.sequences
        &&& new.results == self.results
        &&& new.pending matches Some(p) && p@ == (port, PAYLOAD_MESSAGE@)
    }

    /// The staged payload, moved under the channel and sequence of its packet.
    pub open spec fn accepted(self, key: (Seq<char>, u64)) -> ContractModel {
        ContractModel {
            pending: None,
            sequences: self.sequences.insert(key, self.pending.unwrap()),
            ..self
        }
    }

    /// The payload tracked under `key` is consumed and `o` recorded for its account.
    pub open spec fn recorded(self, key: (Seq<char>, u64), o: AcknowledgementResult) -> ContractModel {
        ContractModel {
            sequences: self.sequences.remove(key),
            results: self.results.insert(self.sequences[key].port_id@, o),
            ..self
        }
    }

    /// Every outcome is erased.
    pub open spec fn cleared(self) -> ContractModel {
        ContractModel { results: Map::empty(), ..self }
    }
}

/// The contract: its accounts, its pending payload, its tracked packets and its outcomes.
pub struct Contract {
    accounts: Store<String, Option<(String, String)>>,
    pending: Option<SudoPayload>,
    sequences: Store<SequenceKey, SudoPayload>,
    results: Store<String, AcknowledgementResult>,
}

impl View for Contract {
    type V = ContractModel;

    closed spec fn view(&self) -> ContractModel {
        ContractModel {
            accounts: self.accounts@,
            pending: self.pending,
            sequences: self.sequences@,
            results: self.results@,
        }
    }
}

impl Contract {
    /// The internal invariant of the stores.
    pub closed spec fn wf(&self) -> bool {
        self.accounts.wf() && self.sequences.wf() && self.results.wf()
    }

    /// A contract with no account, no pending payload, no tracked packet and no outcome.
    pub fn instantiate() -> (r: Contract)
        ensures
            r.wf(),
            r@.accounts == Map::<Seq<char>, Option<(String, String)>>::empty(),
            r@.pending is None,
            r@.sequences == Map::<(Seq<char>, u64), SudoPayload>::empty(),
            r@.results == Map::<Seq<char>, AcknowledgementResult>::empty(),
    {
        Contract { accounts: Store::new(), pending: None, sequences: Store::new(), results: Store::new() }
    }

    /// Registers an account: its slot is set to "not open", and the request to open it is returned.
    pub fn execute_register_ica(
        &mut self,
        contract_address: &str,
        connection_id: String,
        interchain_account_id: String,
    ) -> (r: RegisterInterchainAccount)
        requires
            old(self).wf(),
        ensures
            final(self).wf(),
            final(self)@ == old(self)@.registered(port_id_of(contract_address@, interchain_account_id@)),
            r.connection_id == connection_id,
            r.interchain_account_id == interchain_account_id,
    {
        let key = get_port_id(contract_address, interchain_account_id.as_str());
        self.accounts.insert(key, None);
        RegisterInterchainAccount { connection_id, interchain_account_id }
    }

    /// The remote address and connection of a confirmed account.
    pub fn get_ica(&self, contract_address: &str, interchain_account_id: &str) -> (r: Result<(String, String), ContractError>)
        requires
            self.wf(),
        ensures
            self@.is_ready(port_id_of(contract_address@, interchain_account_id@))
                ==> r == Ok::<(String, String), ContractError>(self@.accounts[port_id_of(contract_address@, interchain_account_id@)].unwrap()),
            !self@.is_ready(port_id_of(contract_address@, interchain_account_id@))
                ==> r == Err::<(String, String), ContractError>(ContractError::AccountNotReady),
    {
        let key = get_port_id(contract_address, interchain_account_id);
        match self.accounts.get(&key) {
            Some(Some((address, connection))) => Ok((address.clone(), connection.clone())),
            _ => Err(ContractError::AccountNotReady),
        }
    }

    /// The remote address and connection of a confirmed account, as stored by the contract.
    pub fn query_interchain_address_contract(&self, contract_address: &str, interchain_account_id: &str) -> (r: Result<(String, String), ContractError>)
        requires
            self.wf(),
        ensures
            self@.is_ready(port_id_of(contract_address@, interchain_account_id@))
                ==> r == Ok::<(String, String), ContractError>(self@.accounts[port_id_of(contract_address@, interchain_account_id@)].unwrap()),
            !self@.is_ready(port_id_of(contract_address@, interchain_account_id@))
                ==> r == Err::<(String, String), ContractError>(ContractError::AccountNotReady),
    {
        self.get_ica(contract_address, interchain_account_id)
    }

    /// The outcome recorded for an account, if any.
    pub fn query_acknowledgement_result(&self, contract_address: &str, interchain_account_id: &str) -> (r: Option<&AcknowledgementResult>)
        requires
            self.wf(),
        ensures
            r matches Some(o) ==> self@.results.contains_key(port_id_of(contract_address@, interchain_account_id@))
                && *o == self@.results[port_id_of(contract_address@, interchain_account_id@)],
            r is None ==> !self@.results.contains_key(port_id_of(contract_address@, interchain_account_id@)),
    {
        let key = get_port_id(contract_address, interchain_account_id);
        self.results.get(&key)
    }

    /// Stages a submission of `msg` through a confirmed account: the payload goes to the reply
    /// slot, replacing any payload there, and the transaction to send is returned.
    pub fn submit_instruction(
        &mut self,
        contract_address: &str,
        interchain_account_id: String,
        msg: ProtobufAny,
        timeout: Option<u64>,
    ) -> (r: Result<SubmitTx, ContractError>)
        requires
            old(self).wf(),
        ensures
            final(self).wf(),
            old(self)@.is_ready(port_id_of(contract_address@, interchain_account_id@)) ==> {
                &&& r matches Ok(tx)
                &&& old(self)@.stages(final(self)@, port_id_of(contract_address@, interchain_account_id@))
                &&& tx.connection_id == old(self)@.accounts[port_id_of(contract_address@, interchain_account_id@)].unwrap().1
                &&& tx.interchain_account_id == interchain_account_id
                &&& tx.msgs@ == seq![msg]
                &&& tx.memo@ == Seq::<char>::empty()
                &&& tx.timeout == timeout_or_default(timeout)
            },
            !old(self)@.is_ready(port_id_of(contract_address@, interchain_account_id@)) ==> {
                &&& r == Err::<SubmitTx, ContractError>(ContractError::AccountNotReady)
                &&& final(self)@ == old(self)@
            },
    {
        let (_, connection_id) = match self.get_ica(contract_address, interchain_account_id.as_str()) {
            Ok(account) => account,
            Err(e) => return Err(e),
        };
        let port_id = get_port_id(contract_address, interchain_account_id.as_str());
        let timeout = match timeout {
            Some(t) => t,
            None => DEFAULT_TIMEOUT_SECONDS,
        };
        let tx = SubmitTx {
            connection_id,
            interchain_account_id,
            msgs: vec![msg],
            memo: String::new(),
            timeout,
        };
        let message = <String as StringExecFns>::from_str(PAYLOAD_MESSAGE);
        self.pending = Some(SudoPayload { port_id, message });
        proof {
            assert(tx.msgs@ =~= seq![msg]);
        }
        Ok(tx)
    }

    /// Stages a delegation of `amount` "stake" from the account to `validator`.
    pub fn execute_delegate(
        &mut self,
        contract_address: &str,
        interchain_account_id: String,
        validator: String,
        amount: u128,
        timeout: Option<u64>,
    ) -> (r: Result<SubmitTx, ContractError>)
        requires
            old(self).wf(),
        ensures
            final(self).wf(),
            old(self)@.is_ready(port_id_of(contract_address@, interchain_account_id@)) ==> {
                let (delegator, connection) = old(self)@.accounts[port_id_of(contract_address@, interchain_account_id@)].unwrap();
                &&& r matches Ok(tx)
                &&& old(self)@.stages(final(self)@, port_id_of(contract_address@, interchain_account_id@))
                &&& tx.connection_id == connection
                &&& tx.interchain_account_id == interchain_account_id
                &&& tx.msgs@.len() == 1
                &&& tx.msgs@[0]@ == (DELEGATE_TYPE_URL@, delegate_body(delegator@, validator@, STAKE_DENOM@, decimal(amount as nat)))
                &&& tx.memo@ == Seq::<char>::empty()
                &&& tx.timeout == timeout_or_default(timeout)
            },
            !old(self)@.is_ready(port_id_of(contract_address@, interchain_account_id@)) ==> {
                &&& r == Err::<SubmitTx, ContractError>(ContractError::AccountNotReady)
                &&& final(self)@ == old(self)@
            },
    {
        let (delegator, _) = match self.get_ica(contract_address, interchain_account_id.as_str()) {
            Ok(account) => account,
            Err(e) => return Err(e),
        };
        let denom = <String as StringExecFns>::from_str(STAKE_DENOM);
        let body = encode_delegate(&delegator, &validator, &denom, &decimal_string(amount));
        let msg = ProtobufAny::new(<String as StringExecFns>::from_str(DELEGATE_TYPE_URL), body);
        self.submit_instruction(contract_address, interchain_account_id, msg, timeout)
    }

    /// Stages an undelegation of `amount` "stake" from `validator` back to the account.
    pub fn execute_undelegate(
        &mut self,
        contract_address: &str,
        interchain_account_id: String,
        validator: String,
        amount: u128,
        timeout: Option<u64>,
    ) -> (r: Result<SubmitTx, ContractError>)
        requires
            old(self).wf(),
        ensures
            final(self).wf(),
            old(self)@.is_ready(port_id_of(contract_address@, interchain_account_id@)) ==> {
                let (delegator, connection) = old(self)@.accounts[port_id_of(contract_address@, interchain_account_id@)].unwrap();
                &&& r matches Ok(tx)
                &&& old(self)@.stages(final(self)@, port_id_of(contract_address@, interchain_account_id@))
                &&& tx.connection_id == connection
                &&& tx.interchain_account_id == interchain_account_id
                &&& tx.msgs@.len() == 1
                &&& tx.msgs@[0]@ == (UNDELEGATE_TYPE_URL@, undelegate_body(delegator@, validator@, STAKE_DENOM@, decimal(amount as nat)))
                &&& tx.memo@ == Seq::<char>::empty()
                &&& tx.timeout == timeout_or_default(timeout)
            },
            !old(self)@.is_ready(port_id_of(contract_address@, interchain_account_id@)) ==> {
                &&& r == Err::<SubmitTx, ContractError>(ContractError::AccountNotReady)
                &&& final(self)@ == old(self)@
            },
    {
        let (delegator, _) = match self.get_ica(contract_address, interchain_account_id.as_str()) {
            Ok(account) => account,
            Err(e) => return Err(e),
        };
        let denom = <String as StringExecFns>::from_str(STAKE_DENOM);
        let body = encode_undelegate(&delegator, &validator, &denom, &decimal_string(amount));
        let msg = ProtobufAny::new(<String as StringExecFns>::from_str(UNDELEGATE_TYPE_URL), body);
        self.submit_instruction(contract_address, interchain_account_id, msg, timeout)
    }

    /// Erases every recorded outcome.
    pub fn execute_clean_ack_results(&mut self)
        requires
            old(self).wf(),
        ensures
            final(self).wf(),
            final(self)@ == old(self)@.cleared(),
    {
        self.results.clear();
    }

    /// Confirms an account once its channel opened, from the parsed counterparty version;
    /// `None` stands for a version that did not parse.
    pub fn sudo_open_ack(&mut self, port_id: String, parsed: Option<OpenAckVersion>) -> (r: Result<(), ContractError>)
        requires
            old(self).wf(),
        ensures
            final(self).wf(),
            parsed matches Some(v) ==> r is Ok && final(self)@ == old(self)@.opened(port_id@, v.address, v.controller_connection_id),
            parsed is None ==> r == Err::<(), ContractError>(ContractError::HandshakeMetadataInvalid) && final(self)@ == old(self)@,
    {
        match parsed {
            Some(v) => {
                self.accounts.insert(port_id, Some((v.address, v.controller_connection_id)));
                Ok(())
            },
            None => Err(ContractError::HandshakeMetadataInvalid),
        }
    }

    /// Moves the staged payload under the channel and sequence of the packet that was sent.
    pub fn prepare_sudo_payload(&mut self, channel_id: String, sequence: u64) -> (r: Result<(), ContractError>)
        requires
            old(self).wf(),
        ensures
            final(self).wf(),
            old(self)@.pending is Some ==> r is Ok && final(self)@ == old(self)@.accepted((channel_id@, sequence)),
            old(self)@.pending is None ==> r == Err::<(), ContractError>(ContractError::NoPendingPayload) && final(self)@ == old(self)@,
    {
        match self.pending.take() {
            Some(payload) => {
                self.sequences.insert(SequenceKey { channel_id, sequence }, payload);
                Ok(())
            },
            None => Err(ContractError::NoPendingPayload),
        }
    }

    /// Records a timeout for the packet sent under `request`.
    pub fn sudo_timeout(&mut self, request: &SequenceKey) -> (r: Result<(), ContractError>)
        requires
            old(self).wf(),
        ensures
            final(self).wf(),
            old(self)@.sequences.contains_key(request@) ==> r is Ok && final(self)@ == old(self)@.recorded(
                request@,
                AcknowledgementResult::Timeout(old(self)@.sequences[request@].message),
            ),
            !old(self)@.sequences.contains_key(request@) ==> r == Err::<(), ContractError>(ContractError::UnknownSequence)
                && final(self)@ == old(self)@,
    {
        match self.sequences.remove(request) {
            Some(payload) => {
                self.results.insert(payload.port_id, AcknowledgementResult::Timeout(payload.message));
                Ok(())
            },
            None => Err(ContractError::UnknownSequence),
        }
    }

    /// Records the error that the remote chain returned for the packet sent under `request`.
    pub fn sudo_error(&mut self, request: &SequenceKey, details: String) -> (r: Result<(), ContractError>)
        requires
            old(self).wf(),
        ensures
            final(self).wf(),
            old(self)@.sequences.contains_key(request@) ==> r is Ok && final(self)@ == old(self)@.recorded(
                request@,
                AcknowledgementResult::Error(old(self)@.sequences[request@].message, details),
            ),
            !old(self)@.sequences.contains_key(request@) ==> r == Err::<(), ContractError>(ContractError::UnknownSequence)
                && final(self)@ == old(self)@,
    {
        match self.sequences.remove(request) {
            Some(payload) => {
                self.results.insert(payload.port_id, AcknowledgementResult::Error(payload.message, details));
                Ok(())
            },
            None => Err(ContractError::UnknownSequence),
        }
    }

    /// Records the success of the packet sent under `request`, from the decoded items of its
    /// response: every item's type is listed, and each item is read as far as the contract can.
    pub fn record_response(&mut self, request: &SequenceKey, items: &Vec<ResponseItem>) -> (r: Result<Vec<ItemStatus>, ContractError>)
        requires
            old(self).wf(),
        ensures
            final(self).wf(),
            old(self)@.sequences.contains_key(request@) ==> {
                let port = old(self)@.sequences[request@].port_id@;
                &&& r matches Ok(st)
                &&& st@ == items@.map_values(|i: ResponseItem| item_status(i.msg_type@, i.data@))
                &&& final(self)@ == old(self)@.recorded(request@, final(self)@.results[port])
                &&& is_success_with(final(self)@.results[port], items@.map_values(|i: ResponseItem| i.msg_type@))
            },
            !old(self)@.sequences.contains_key(request@) ==> r == Err::<Vec<ItemStatus>, ContractError>(ContractError::UnknownSequence)
                && final(self)@ == old(self)@,
    {
        let payload = match self.sequences.remove(request) {
            Some(p) => p,
            None => return Err(ContractError::UnknownSequence),
        };
        let delegate_type = <String as StringExecFns>::from_str(DELEGATE_TYPE_URL);
        let undelegate_type = <String as StringExecFns>::from_str(UNDELEGATE_TYPE_URL);
        let mut item_types: Vec<String> = Vec::new();
        let mut statuses: Vec<ItemStatus> = Vec::new();
        let mut i: usize = 0;
        while i < items.len()
            invariant
                i <= items@.len(),
                delegate_type@ == DELEGATE_TYPE_URL@,
                undelegate_type@ == UNDELEGATE_TYPE_URL@,
                item_types@.len() == i,
                statuses@.len() == i,
                forall|j: int| 0 <= j < i ==> (#[trigger] item_types@[j])@ == items@[j].msg_type@,
                forall|j: int| 0 <= j < i ==> #[trigger] statuses@[j] == item_status(items@[j].msg_type@, items@[j].data@),
            decreases items@.len() - i,
        {
            let item = &items[i];
            item_types.push(item.msg_type.clone());
            let status = if item.msg_type == delegate_type {
                if decode_delegate_response(&item.data) {
                    ItemStatus::Interpreted
                } else {
                    ItemStatus::DecodeFailed
                }
            } else if item.msg_type == undelegate_type {
                match decode_undelegate_response(&item.data) {
                    Some(Some(_)) => ItemStatus::Interpreted,
                    _ => ItemStatus::DecodeFailed,
                }
            } else {
                ItemStatus::Uninterpreted
            };
            statuses.push(status);
            i = i + 1;
        }
        let ghost port = payload.port_id@;
        let outcome = AcknowledgementResult::Success(item_types);
        proof {
            assert(item_types@.map_values(|s: String| s@) =~= items@.map_values(|i: ResponseItem| i.msg_type@));
            assert(statuses@ =~= items@.map_values(|i: ResponseItem| item_status(i.msg_type@, i.data@)));
        }
        self.results.insert(payload.port_id, outcome);
        Ok(statuses)
    }

    /// Records the success of the packet sent under `request`, from its raw response data.
    /// Where the data does not decode, nothing changes.
    pub fn sudo_response(&mut self, request: &SequenceKey, data: &Vec<u8>) -> (r: Result<Vec<ItemStatus>, ContractError>)
        requires
            old(self).wf(),
        ensures
            final(self).wf(),
            !old(self)@.sequences.contains_key(request@) ==> r == Err::<Vec<ItemStatus>, ContractError>(ContractError::UnknownSequence)
                && final(self)@ == old(self)@,
            old(self)@.sequences.contains_key(request@) && tx_msg_items(data@) is None
                ==> r == Err::<Vec<ItemStatus>, ContractError>(ContractError::ResponseDecode) && final(self)@ == old(self)@,
            old(self)@.sequences.contains_key(request@) && tx_msg_items(data@) is Some ==> {
                let port = old(self)@.sequences[request@].port_id@;
                let items = tx_msg_items(data@).unwrap();
                &&& r matches Ok(st)
                &&& st@ == items.map_values(|i: (Seq<char>, Seq<u8>)| item_status(i.0, i.1))
                &&& final(self)@ == old(self)@.recorded(request@, final(self)@.results[port])
                &&& is_success_with(final(self)@.results[port], items.map_values(|i: (Seq<char>, Seq<u8>)| i.0))
            },
    {
        if self.sequences.get(request).is_none() {
            return Err(ContractError::UnknownSequence);
        }
        match decode_tx_msg_data(data) {
            Some(items) => {
                let r = self.record_response(request, &items);
                proof {
                    let views = items@.map_values(|i: ResponseItem| i@);
                    assert(views.map_values(|i: (Seq<char>, Seq<u8>)| i.0) =~= items@.map_values(|i: ResponseItem| i.msg_type@));
                    assert(views.map_values(|i: (Seq<char>, Seq<u8>)| item_status(i.0, i.1))
                        =~= items@.map_values(|i: ResponseItem| item_status(i.msg_type@, i.data@)));
                }
                r
            },
            None => Err(ContractError::ResponseDecode),
        }
    }
}

/// Once every outcome is erased, no account has one, whatever was recorded before.
pub proof fn lemma_cleared_has_no_outcome(m: ContractModel, port: Seq<char>)
    ensures
        m.cleared().results == Map::<Seq<char>, AcknowledgementResult>::empty(),
        !m.cleared().results.contains_key(port),
{
}

/// The reply slot holds one payload: when a second submission is staged before the first one's
/// packet is accepted, the packet accepted next is tracked with the second submission's payload,
/// and the first payload is gone.
pub proof fn lemma_second_submission_overwrites(
    m: ContractModel,
    m1: ContractModel,
    m2: ContractModel,
    port1: Seq<char>,
    port2: Seq<char>,
    key: (Seq<char>, u64),
)
    requires
        m.stages(m1, port1),
        m1.stages(m2, port2),
    ensures
        m2.accepted(key).sequences[key]@ == (port2, PAYLOAD_MESSAGE@),
        m2.accepted(key).pending is None,
        m2.accepted(key).sequences.remove(key) == m.sequences.remove(key),
{
    assert(m2.accepted(key).sequences.remove(key) =~= m.sequences.remove(key));
}

} // verus!
