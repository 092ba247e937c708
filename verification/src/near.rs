//! Queries to a NEAR node, and what is made of their answers.

use vstd::prelude::*;
use vstd::utf8::encode_utf8;

use crate::account::AccountId;
use crate::crypto::{PublicKey, Signer};
use crate::encoding::{base64, encode_standard, lemma_base64_injective};

pub use crate::error::{RpcError, RpcResult};
pub use crate::send_tx::{
    send_tx, SendRequest, SendTx, SendTxStep, SignedTransaction, StatusRequest, TxExecutionStatus,
    TxFailure, TxReply,
};

verus! {

/// The gas of a token transfer: six teragas.
pub const GAS_FT_TRANSFER: u64 = 6_000_000_000_000;

/// A question for the access key of an account.
#[derive(Debug, PartialEq, Eq)]
pub struct AccessKeyRequest {
    pub account_id: AccountId,
    pub public_key: PublicKey,
}

/// A call of a view method of a contract.
#[derive(Debug, PartialEq, Eq)]
pub struct ViewRequest {
    pub account_id: AccountId,
    pub method_name: String,
    pub args: Vec<u8>,
}

/// What a node answers to a query.
#[derive(Debug, PartialEq, Eq)]
pub enum QueryResponseKind {
    /// The access key, with the nonce that it was last used with.
    AccessKey { nonce: u64 },
    /// The bytes that a view method returned.
    CallResult { result: Vec<u8> },
    /// Any other kind of answer.
    Other,
}

/// The answer of a node to a query.
#[derive(Debug, PartialEq, Eq)]
pub struct QueryResponse {
    pub kind: QueryResponseKind,
    /// The kind as a developer reads it.
    pub kind_text: String,
    /// The block that the answer was read from.
    pub block_hash: [u8; 32],
}

/// The question for the access key that a signer uses.
pub fn access_key_request(signer: &Signer) -> (request: AccessKeyRequest)
    ensures
        request.account_id == signer.account(),
        request.public_key == signer.key(),
{
    AccessKeyRequest { account_id: signer.account_id().clone(), public_key: signer.public_key() }
}

/// What a query led to: the answer of the node, or the text of a failure of the call.
pub type QueryReply = Result<QueryResponse, String>;

/// Whether an access key, where a reply holds one, has a next nonce.
pub open spec fn has_next_nonce(reply: QueryReply) -> bool {
    reply matches Ok(response) ==> response.kind matches QueryResponseKind::AccessKey { nonce }
        ==> nonce < u64::MAX
}

/// Whether an error is what a reply to the question for an access key amounts to: the failure
/// of the call, or an answer of another kind.
pub open spec fn access_key_error(reply: QueryReply, error: RpcError) -> bool {
    match reply {
        Ok(response) => {
            &&& !(response.kind is AccessKey)
            &&& error matches RpcError::WrongResponseKind(text)
            &&& text@ == "Expected AccessKey got "@ + response.kind_text@
        },
        Err(text) => error == RpcError::AccessKeyDataError(text),
    }
}

/// Reads the reply to the question for an access key: the nonce that the next transaction
/// uses, and the hash of the block that was read.
pub fn get_access_key_data(reply: QueryReply) -> (data: RpcResult<(u64, [u8; 32])>)
    requires
        has_next_nonce(reply),
    ensures
        match data {
            Ok(data) => {
                &&& reply matches Ok(response)
                &&& response.kind matches QueryResponseKind::AccessKey { nonce }
                &&& data.0 == nonce + 1
                &&& data.1 == response.block_hash
            },
            Err(error) => access_key_error(reply, error),
        },
{
    let response = match reply {
        Ok(response) => response,
        Err(text) => return Err(RpcError::AccessKeyDataError(text)),
    };
    match response.kind {
        QueryResponseKind::AccessKey { nonce } => Ok((nonce + 1, response.block_hash)),
        _ => Err(
            RpcError::WrongResponseKind(
                "Expected AccessKey got ".to_owned().concat(response.kind_text.as_str()),
            ),
        ),
    }
}

/// Encodes the JSON text of some data the way that call arguments are encoded: in base64.
pub fn serialize_and_encode(json: &str) -> (encoded: Vec<u8>)
    ensures
        encoded@ == base64(encode_utf8(json@)),
{
    encode_standard(json.as_bytes())
}

/// A call of a view method with arguments in JSON.
pub fn view_request(account_id: AccountId, function_name: &str, args: &str) -> (request: ViewRequest)
    ensures
        request.account_id == account_id,
        request.method_name@ == function_name@,
        request.args@ == base64(encode_utf8(args@)),
{
    ViewRequest {
        account_id,
        method_name: function_name.to_owned(),
        args: serialize_and_encode(args),
    }
}

/// Reads the reply to a call of a view method: the bytes that the method returned.
pub fn view(reply: QueryReply) -> (result: RpcResult<Vec<u8>>)
    ensures
        match reply {
            Ok(response) => match response.kind {
                QueryResponseKind::CallResult { result: bytes } => result == Ok::<_, RpcError>(
                    bytes,
                ),
                _ => result matches Err(RpcError::WrongResponseKind(text)) && text@
                    == "Expected CallResult got "@ + response.kind_text@,
            },
            Err(text) => result == Err::<Vec<u8>, _>(RpcError::ViewMethodError(text)),
        },
{
    let response = match reply {
        Ok(response) => response,
        Err(text) => return Err(RpcError::ViewMethodError(text)),
    };
    match response.kind {
        QueryResponseKind::CallResult { result } => Ok(result),
        _ => Err(
            RpcError::WrongResponseKind(
                "Expected CallResult got ".to_owned().concat(response.kind_text.as_str()),
            ),
        ),
    }
}

/// Takes in what the bytes that a view method returned were read as, or the text of the failure
/// to read them.
pub fn view_value<T>(read: Result<T, String>) -> (value: RpcResult<T>)
    ensures
        value == (match read {
            Ok(value) => Ok(value),
            Err(text) => Err(RpcError::DeserializeError(text)),
        }),
{
    match read {
        Ok(value) => Ok(value),
        Err(text) => Err(RpcError::DeserializeError(text)),
    }
}

/// Different arguments are encoded differently, so a contract can tell them apart.
pub proof fn lemma_encoded_arguments_differ(a: Seq<char>, b: Seq<char>)
    requires
        base64(encode_utf8(a)) == base64(encode_utf8(b)),
    ensures
        a == b,
{
    lemma_base64_injective(encode_utf8(a), encode_utf8(b));
    vstd::utf8::encode_utf8_decode_utf8(a);
    vstd::utf8::encode_utf8_decode_utf8(b);
}

} // verus!
