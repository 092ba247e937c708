//! The failures of remote calls.

use vstd::prelude::*;

use crate::text::{decimal, decimal_text};

verus! {

/// Error types for RPC operations. Failures of the transport carry their text.
#[derive(Debug, PartialEq, Eq)]
pub enum RpcError {
    /// Failed to query view method
    ViewMethodError(String),
    /// Failed to get access key data
    AccessKeyDataError(String),
    /// Got wrong response kind from RPC
    WrongResponseKind(String),
    /// Failed to send transaction
    SendTransactionError(String),
    /// Failed to deserialize response
    DeserializeError(String),
    /// Timeout exceeded: the seconds allowed, and the seconds that passed
    TimeoutError(u64, u64),
    /// No outcome for transaction
    NoOutcome(String),
    /// Error sending request to Solver RPC
    SolverRequestError(String),
    /// Error deserializing response from Solver RPC
    SolverResponseDeserialization(String),
    /// No quote hash received from Solver RPC
    NoQuoteHashReceived,
    /// Error getting system time
    SystemTimeError(String),
}

/// The result of a remote operation.
pub type RpcResult<T = ()> = Result<T, RpcError>;

impl RpcError {
    /// What the error says to a reader.
    pub open spec fn message_text(self) -> Seq<char> {
        match self {
            RpcError::ViewMethodError(text) => "Failed to query view method: "@ + text@,
            RpcError::AccessKeyDataError(text) => "Failed to get access key data: "@ + text@,
            RpcError::WrongResponseKind(text) => "Got wrong response kind from RPC: "@ + text@,
            RpcError::SendTransactionError(text) => "Failed to send transaction: "@ + text@,
            RpcError::DeserializeError(text) => "Failed to deserialize response: "@ + text@,
            RpcError::TimeoutError(timeout, _) => "Timeout exceeded: "@ + decimal(timeout as nat),
            RpcError::NoOutcome(text) => "No outcome for transaction: "@ + text@,
            RpcError::SolverRequestError(text) => "Error sending request to Solver RPC: "@ + text@,
            RpcError::SolverResponseDeserialization(text) => {
                "Error deserializing response from Solver RPC: "@ + text@
            },
            RpcError::NoQuoteHashReceived => "No quote hash received from Solver RPC"@,
            RpcError::SystemTimeError(text) => "Error getting system time: "@ + text@,
        }
    }

    /// What the error says to a reader.
    pub fn message(&self) -> (message: String)
        ensures
            message@ == self.message_text(),
    {
        match self {
            RpcError::ViewMethodError(text) => {
                "Failed to query view method: ".to_owned().concat(text.as_str())
            },
            RpcError::AccessKeyDataError(text) => {
                "Failed to get access key data: ".to_owned().concat(text.as_str())
            },
            RpcError::WrongResponseKind(text) => {
                "Got wrong response kind from RPC: ".to_owned().concat(text.as_str())
            },
            RpcError::SendTransactionError(text) => {
                "Failed to send transaction: ".to_owned().concat(text.as_str())
            },
            RpcError::DeserializeError(text) => {
                "Failed to deserialize response: ".to_owned().concat(text.as_str())
            },
            RpcError::TimeoutError(timeout, _) => {
                "Timeout exceeded: ".to_owned().concat(decimal_text(*timeout as u128).as_str())
            },
            RpcError::NoOutcome(text) => {
                "No outcome for transaction: ".to_owned().concat(text.as_str())
            },
            RpcError::SolverRequestError(text) => {
                "Error sending request to Solver RPC: ".to_owned().concat(text.as_str())
            },
            RpcError::SolverResponseDeserialization(text) => {
                "Error deserializing response from Solver RPC: ".to_owned().concat(text.as_str())
            },
            RpcError::NoQuoteHashReceived => "No quote hash received from Solver RPC".to_owned(),
            RpcError::SystemTimeError(text) => {
                "Error getting system time: ".to_owned().concat(text.as_str())
            },
        }
    }
}

} // verus!
