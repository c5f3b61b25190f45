use vstd::prelude::*;
use crate::codec::{check_encoded, hex_to_tron_address};
use crate::hexcodec::{hex_bytes, is_hex_text, without_hex_prefix};
use crate::message::{decode_hex_message, message_text};

verus! {

/// What the deployment flow reads from a node's answer to a request that
/// creates a transaction.
pub struct CreateResponse {
    /// The answer holds `result.result == false`.
    pub rejected: bool,
    /// The text of `result.message`, when there is one.
    pub rejection_message: Option<String>,
    /// The rendered `Error` field, when there is one.
    pub error: Option<String>,
    /// The answer holds a `transaction` field.
    pub has_transaction: bool,
    /// The answer holds a `txID` field at its root.
    pub has_root_tx_id: bool,
}

/// Where the created transaction stands in a node's answer.
#[derive(Debug, Clone, Copy, PartialEq, Eq, Structural)]
pub enum TxSource {
    /// Under the `transaction` field.
    Nested,
    /// At the root of the answer.
    Root,
}

/// Why a deployment stopped.
#[derive(Debug, PartialEq, Eq)]
pub enum DeployFailure {
    /// The node refused to create the transaction, with its decoded message.
    Rejected(String),
    /// The node answered with an `Error` field.
    Api(String),
    /// The answer holds no transaction.
    NoTransaction,
    /// The transaction holds no `txID`.
    NoTxId,
    /// Broadcasting failed, with the node's code and decoded message.
    Broadcast(String, String),
}

/// The text used when a node gives no message.
pub open spec fn unknown_error_text() -> Seq<char> {
    "Unknown error"@
}

/// The message of an optional hex-encoded node message.
pub open spec fn optional_message_text(m: Option<Seq<char>>) -> Seq<char> {
    match m {
        Some(t) => message_text(t),
        None => unknown_error_text(),
    }
}

/// The view of an optional string.
pub open spec fn opt_view(m: Option<String>) -> Option<Seq<char>> {
    match m {
        Some(s) => Some(s@),
        None => None,
    }
}

/// Decodes an optional hex-encoded node message.
pub fn optional_message(m: &Option<String>) -> (r: String)
    ensures
        r@ == optional_message_text(opt_view(*m)),
{
    match m {
        Some(t) => decode_hex_message(t.as_str()),
        None => String::from_str("Unknown error"),
    }
}

/// Decides, from a node's answer to a creation request, where the
/// transaction stands or why the deployment stops. A rejection is checked
/// first, then an `Error` field, then a nested transaction, then one at the
/// root.
pub fn create_outcome(resp: &CreateResponse) -> (r: Result<TxSource, DeployFailure>)
    ensures
        resp.rejected ==> (r matches Err(DeployFailure::Rejected(m)) && m@ == optional_message_text(
            opt_view(resp.rejection_message),
        )),
        !resp.rejected && resp.error is Some ==> (r matches Err(DeployFailure::Api(e)) && e@
            == resp.error->Some_0@),
        !resp.rejected && resp.error is None ==> r == (if resp.has_transaction {
            Ok::<TxSource, DeployFailure>(TxSource::Nested)
        } else if resp.has_root_tx_id {
            Ok::<TxSource, DeployFailure>(TxSource::Root)
        } else {
            Err::<TxSource, DeployFailure>(DeployFailure::NoTransaction)
        }),
{
    if resp.rejected {
        return Err(DeployFailure::Rejected(optional_message(&resp.rejection_message)));
    }
    match &resp.error {
        Some(e) => {
            return Err(DeployFailure::Api(e.clone()));
        },
        None => {},
    }
    if resp.has_transaction {
        Ok(TxSource::Nested)
    } else if resp.has_root_tx_id {
        Ok(TxSource::Root)
    } else {
        Err(DeployFailure::NoTransaction)
    }
}

/// The transaction id, which a created transaction must hold.
pub fn require_tx_id(tx_id: Option<String>) -> (r: Result<String, DeployFailure>)
    ensures
        match tx_id {
            Some(t) => r matches Ok(s) && s@ == t@,
            None => r matches Err(DeployFailure::NoTxId),
        },
{
    match tx_id {
        Some(t) => Ok(t),
        None => Err(DeployFailure::NoTxId),
    }
}

/// Decides whether a broadcast succeeded: only an explicit `result: true`
/// counts as success.
pub fn broadcast_outcome(result: Option<bool>, code: Option<String>, message: Option<String>) -> (r: Result<(), DeployFailure>)
    ensures
        result == Some(true) ==> r is Ok,
        result != Some(true) ==> (r matches Err(DeployFailure::Broadcast(c, m)) && c@ == (match code {
            Some(s) => s@,
            None => Seq::<char>::empty(),
        }) && m@ == optional_message_text(opt_view(message))),
{
    match result {
        Some(true) => Ok(()),
        _ => {
            let c = match code {
                Some(s) => s,
                None => String::new(),
            };
            Err(DeployFailure::Broadcast(c, optional_message(&message)))
        },
    }
}

/// How the deployed contract's address is shown: the Base58Check text of the
/// hex address the node gave, the hex itself when it does not convert, or a
/// pointer to the explorer when there is none.
pub fn contract_address_display(hex_addr: Option<&str>) -> (r: String)
    ensures
        match hex_addr {
            Some(h) => if is_hex_text(without_hex_prefix(h@)) {
                r@ == check_encoded(hex_bytes(without_hex_prefix(h@)))
            } else {
                r@ == h@
            },
            None => r@ == "(Check TronScan for contract address)"@,
        },
{
    match hex_addr {
        Some(h) => match hex_to_tron_address(h) {
            Ok(t) => t,
            Err(_) => String::from_str(h),
        },
        None => String::from_str("(Check TronScan for contract address)"),
    }
}

} // verus!
