use vstd::prelude::*;

verus! {

/// The queries that the contract answers.
pub enum QueryMsg {
    /// this query goes to neutron and get stored ICA with a specific query
    InterchainAccountAddress { interchain_account_id: String, connection_id: String },
    /// this query returns ICA from contract store, which saved from acknowledgement
    InterchainAccountAddressFromContract { interchain_account_id: String },
    /// this query returns acknowledgement result after interchain transaction
    AcknowledgementResult { interchain_account_id: String },
}

/// The message that migrates the contract; it carries nothing.
pub struct MigrateMsg {}

/// The message that instantiates the contract; it carries nothing.
pub struct InstantiateMsg {}

/// The operations that the contract executes.
pub enum ExecuteMsg {
    Register { connection_id: String, interchain_account_id: String },
    Delegate { interchain_account_id: String, validator: String, amount: u128, timeout: Option<u64> },
    Undelegate { interchain_account_id: String, validator: String, amount: u128, timeout: Option<u64> },
    CleanAckResults {},
}

} // verus!
