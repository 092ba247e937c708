//! Laws of queries, of numerals and of error texts.

use std::time::{Duration, SystemTime, SystemTimeError};

use vstd::prelude::*;
use vstd::utf8::encode_utf8;

use crate::account::{valid_account_id, AccountId, InvalidAccountId};
use crate::clock::{is_unix_epoch, unix_millis};
use crate::crypto::Signer;
use crate::encoding::base64;
use crate::error::{RpcError, RpcResult};
use crate::json_read::{lemma_decimal_spells, lemma_signed_decimal_spells, spells, spells_signed};
use crate::near::{
    access_key_request, get_access_key_data, serialize_and_encode, view, view_request, view_value,
    AccessKeyRequest, QueryReply, QueryResponse, QueryResponseKind, ViewRequest,
};
use crate::text::{decimal_text, signed_decimal_text};

verus! {

/// The access key that is asked for is that of the signer's account and public key.
pub proof fn law_access_key_request(signer: Signer, request: AccessKeyRequest)
    requires
        call_ensures(access_key_request, (&signer,), request),
    ensures
        request.account_id == signer.account(),
        request.public_key == signer.key(),
{
}

/// An access key gives the nonce that follows its own, and the block of the answer, whatever
/// else the answer says.
pub proof fn law_access_key_data(
    nonce: u64,
    kind_text: String,
    block_hash: [u8; 32],
    data: RpcResult<(u64, [u8; 32])>,
)
    requires
        call_ensures(
            get_access_key_data,
            (Ok(
                QueryResponse { kind: QueryResponseKind::AccessKey { nonce }, kind_text, block_hash },
            ),),
            data,
        ),
    ensures
        data matches Ok(data) && data.0 == nonce + 1 && data.1 == block_hash,
{
}

/// A reply that holds no access key gives no data: the error carries the kind of the answer, or
/// the text of the failure.
pub proof fn law_no_access_key(reply: QueryReply, data: RpcResult<(u64, [u8; 32])>)
    requires
        call_ensures(get_access_key_data, (reply,), data),
        reply matches Ok(response) ==> !(response.kind is AccessKey),
    ensures
        reply matches Ok(response) ==> data matches Err(RpcError::WrongResponseKind(text)) && text@
            == "Expected AccessKey got "@ + response.kind_text@,
        reply matches Err(failure) ==> data matches Err(RpcError::AccessKeyDataError(text)) && text
            == failure,
{
}

/// Arguments are encoded in base64, byte for byte.
pub proof fn law_encoding(json: &str, encoded: Vec<u8>)
    requires
        call_ensures(serialize_and_encode, (json,), encoded),
    ensures
        encoded@ == base64(encode_utf8(json@)),
{
}

/// A view call names the account and the method that it was made for, and carries its arguments
/// encoded.
pub proof fn law_view_request(account_id: AccountId, name: &str, args: &str, request: ViewRequest)
    requires
        call_ensures(view_request, (account_id, name, args), request),
    ensures
        request.account_id == account_id,
        request.method_name@ == name@,
        request.args@ == base64(encode_utf8(args@)),
{
}

/// What a view call returned is the result, byte for byte; an answer of another kind and a
/// failure of the call are errors with their texts.
pub proof fn law_view(reply: QueryReply, result: RpcResult<Vec<u8>>)
    requires
        call_ensures(view, (reply,), result),
    ensures
        match reply {
            Ok(response) => match response.kind {
                QueryResponseKind::CallResult { result: bytes } => result matches Ok(result)
                    && result@ == bytes@,
                _ => result matches Err(RpcError::WrongResponseKind(text)) && text@
                    == "Expected CallResult got "@ + response.kind_text@,
            },
            Err(failure) => result matches Err(RpcError::ViewMethodError(text)) && text == failure,
        },
{
}

/// A value that was read is the result; a failure to read it is an error with its text.
pub proof fn law_view_value<T>(read: Result<T, String>, value: RpcResult<T>)
    requires
        call_ensures(view_value::<T>, (read,), value),
    ensures
        read matches Ok(expected) ==> value == Ok::<T, RpcError>(expected),
        read matches Err(failure) ==> value matches Err(RpcError::DeserializeError(text)) && text
            == failure,
{
}

/// The clock is read, not made up: the milliseconds are those of the time from the Unix epoch
/// to a reading of the wall clock, and where there are none the reading lies before the epoch.
pub proof fn law_unix_millis(millis: Result<u128, String>)
    requires
        call_ensures(unix_millis, (), millis),
    ensures
        exists|now: SystemTime, epoch: SystemTime, elapsed: Result<Duration, SystemTimeError>|
            {
                &&& call_ensures(SystemTime::now, (), now)
                &&& is_unix_epoch(epoch)
                &&& #[trigger] call_ensures(SystemTime::duration_since, (&now, epoch), elapsed)
                &&& elapsed is Ok <==> millis is Ok
                &&& elapsed matches Ok(elapsed) ==> millis matches Ok(millis) && call_ensures(
                    Duration::as_millis,
                    (&elapsed,),
                    millis,
                )
            },
{
}

/// The text of a number is the numeral that spells it, for every number.
pub proof fn law_decimal_text(n: u128, text: String)
    requires
        call_ensures(decimal_text, (n,), text),
    ensures
        spells(text@, n as nat),
{
    lemma_decimal_spells(n as nat);
}

/// The text of a signed number is the numeral that spells it, for every number.
pub proof fn law_signed_decimal_text(n: i128, text: String)
    requires
        call_ensures(signed_decimal_text, (n,), text),
    ensures
        spells_signed(text@, n as int),
{
    lemma_signed_decimal_spells(n as int);
}

/// An account identifier keeps the text that it was read from, and is read from every text that
/// is one. Two of them are the same account exactly where their texts are.
pub proof fn law_account_id(
    text: &str,
    id: Result<AccountId, InvalidAccountId>,
    other: AccountId,
    same: bool,
)
    requires
        call_ensures(AccountId::parse, (text,), id),
        id matches Ok(id) ==> call_ensures(AccountId::same_as, (&id, &other), same),
    ensures
        id is Ok <==> valid_account_id(text@),
        id matches Ok(id) ==> id@ == text@ && same == (text@ == other@),
{
}

/// An error says what failed, and then the whole text that it carries; a timeout says the
/// seconds that were allowed.
pub proof fn law_error_message(error: RpcError, message: String)
    requires
        call_ensures(RpcError::message, (&error,), message),
    ensures
        match error {
            RpcError::ViewMethodError(text) => message@ == "Failed to query view method: "@ + text@,
            RpcError::AccessKeyDataError(text) => message@ == "Failed to get access key data: "@
                + text@,
            RpcError::WrongResponseKind(text) => message@ == "Got wrong response kind from RPC: "@
                + text@,
            RpcError::SendTransactionError(text) => message@ == "Failed to send transaction: "@
                + text@,
            RpcError::DeserializeError(text) => message@ == "Failed to deserialize response: "@
                + text@,
            RpcError::TimeoutError(timeout, _) => exists|seconds: Seq<char>|
                message@ == #[trigger] ("Timeout exceeded: "@ + seconds) && spells(
                    seconds,
                    timeout as nat,
                ),
            RpcError::NoOutcome(text) => message@ == "No outcome for transaction: "@ + text@,
            RpcError::SolverRequestError(text) => message@
                == "Error sending request to Solver RPC: "@ + text@,
            RpcError::SolverResponseDeserialization(text) => message@
                == "Error deserializing response from Solver RPC: "@ + text@,
            RpcError::NoQuoteHashReceived => message@ == "No quote hash received from Solver RPC"@,
            RpcError::SystemTimeError(text) => message@ == "Error getting system time: "@ + text@,
        },
{
    if let RpcError::TimeoutError(timeout, _) = error {
        lemma_decimal_spells(timeout as nat);
    }
}

} // verus!
