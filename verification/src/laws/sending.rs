//! Laws of sending a transaction.

use vstd::prelude::*;
use vstd::utf8::encode_utf8;

use crate::crypto::{base58, is_ed25519_keypair, public_key_of, signature_of};
use crate::crypto::{PublicKey, Signer, UnreadableKey};
use crate::account::AccountId;
use crate::error::RpcError;
use crate::send_tx::{
    poll_run, send_tx, SendRequest, SendTx, SendTxStep, StatusRequest, TxExecutionStatus, TxFailure,
    TxReply,
};
use crate::transaction::{hash_text, transaction_hash_of, FunctionCallAction, Transaction};

verus! {

/// The answer to the transaction itself settles the matter at once, early or late: an outcome
/// is the result, an answer without one is the error that names the hash, and a failure is the
/// error with its text. Only a timeout leads to a pause.
pub proof fn law_first_answer<O>(state: SendTx, reply: TxReply<O>, now: u128, step: SendTxStep<O>)
    requires
        call_ensures(SendTx::on_reply::<O>, (state, reply, now), step),
        state.poll_interval is None,
    ensures
        reply matches Ok(Some(outcome)) ==> step == SendTxStep::Return(Ok(outcome)),
        reply matches Ok(None) ==> {
            &&& step matches SendTxStep::Return(Err(RpcError::NoOutcome(text)))
            &&& text@ == base58(state.tx_hash@)
        },
        step is PollAfter ==> reply matches Err(TxFailure::Timeout),
        step matches SendTxStep::PollAfter { millis, .. } ==> millis == 500,
{
}

/// A failure other than a timeout is the result, with its text, whenever it comes.
pub proof fn law_failure<O>(
    state: SendTx,
    reply: TxReply<O>,
    text: String,
    now: u128,
    step: SendTxStep<O>,
)
    requires
        call_ensures(SendTx::on_reply::<O>, (state, reply, now), step),
        reply == Err::<Option<O>, _>(TxFailure::Other(text)),
    ensures
        step == SendTxStep::<O>::Return(Err(RpcError::SendTransactionError(text))),
{
}

/// A timeout is waited out until the deadline and not beyond it, and so is a status that comes
/// after one: before the deadline there is a pause, and from the deadline on the error that
/// holds the timeout and the whole seconds since the call.
pub proof fn law_deadline<O>(state: SendTx, reply: TxReply<O>, now: u128, step: SendTxStep<O>)
    requires
        call_ensures(SendTx::on_reply::<O>, (state, reply, now), step),
        reply matches Err(TxFailure::Timeout) || (reply is Ok && state.poll_interval is Some),
    ensures
        now - state.called_at < state.timeout * 1_000_000_000 <==> step is PollAfter,
        now - state.called_at >= state.timeout * 1_000_000_000 ==> {
            &&& step matches SendTxStep::Return(Err(RpcError::TimeoutError(timeout, elapsed)))
            &&& timeout == state.timeout
            &&& elapsed * 1_000_000_000 <= now - state.called_at < (elapsed + 1) * 1_000_000_000
        },
{
}

/// A pause takes as long as the state says after a timeout, and half a second when polling
/// begins and after each status that came. It leaves the transaction, its sender and the
/// deadline as they were, and the pause after it is twice as long, up to five seconds.
pub proof fn law_pause<O>(
    state: SendTx,
    reply: TxReply<O>,
    now: u128,
    millis: u64,
    next: SendTx,
)
    requires
        call_ensures(
            SendTx::on_reply::<O>,
            (state, reply, now),
            SendTxStep::PollAfter { millis, state: next },
        ),
    ensures
        reply is Ok ==> millis == 500,
        state.poll_interval is None ==> millis == 500,
        reply is Err && state.poll_interval is Some ==> Some(millis) == state.poll_interval,
        next.sender_id == state.sender_id,
        next.tx_hash == state.tx_hash,
        next.timeout == state.timeout,
        next.called_at == state.called_at,
        next.poll_interval matches Some(interval) && {
            &&& millis <= 2_500 ==> interval == 2 * millis
            &&& millis >= 2_500 ==> interval == 5_000
        },
{
}

/// In every run with a pause, the answer to the transaction itself was a timeout.
pub proof fn law_first_pause<O>(
    states: Seq<SendTx>,
    replies: Seq<TxReply<O>>,
    times: Seq<u128>,
    pauses: Seq<u64>,
)
    requires
        poll_run(states, replies, times, pauses),
        states[0].poll_interval is None,
        pauses.len() > 0,
    ensures
        replies[0] matches Err(TxFailure::Timeout),
        times[0] < states[0].called_at + states[0].timeout * 1_000_000_000,
        pauses[0] == 500,
{
    let _ = pauses[0];
}

/// What is sent is the transaction that was given, under the signature that the signer's key
/// gives to its hash; what is waited for is that hash, in the name of the signer's account,
/// from the time of the call on, and each side waits for the final status.
pub proof fn law_send(
    signer: Signer,
    timeout: u64,
    tx: Transaction,
    now: u128,
    request: SendRequest,
    state: SendTx,
    hash: [u8; 32],
)
    requires
        call_ensures(send_tx, (&signer, timeout, tx, now), (request, state)),
        call_ensures(Transaction::hash, (&tx,), hash),
    ensures
        request.signed_transaction.transaction == tx,
        request.signed_transaction.signature@ == signature_of(signer.secret(), hash@),
        request.wait_until == TxExecutionStatus::Final,
        state.sender_id == signer.account(),
        state.tx_hash@ == hash@,
        state.timeout == timeout,
        state.called_at == now,
        state.poll_interval is None,
{
}

/// A question for the status names the sender and the hash of the state, and waits for the
/// final status.
pub proof fn law_status_request(state: SendTx, request: StatusRequest)
    requires
        call_ensures(SendTx::status_request, (&state,), request),
    ensures
        request.sender_id == state.sender_id,
        request.tx_hash == state.tx_hash,
        request.wait_until == TxExecutionStatus::Final,
{
}

/// The hash of a transaction is that of its fields, each call of it with its method, arguments,
/// gas and deposit.
pub proof fn law_hash(tx: Transaction, hash: [u8; 32])
    requires
        call_ensures(Transaction::hash, (&tx,), hash),
    ensures
        hash@ == transaction_hash_of(
            tx.signer_id@,
            match tx.public_key {
                PublicKey::Ed25519(key) => key@,
                PublicKey::Secp256k1(key) => key@,
            },
            tx.nonce,
            tx.receiver_id@,
            tx.block_hash@,
            Seq::new(
                tx.actions@.len(),
                |i: int|
                    (
                        tx.actions@[i].method_name@,
                        tx.actions@[i].args@,
                        tx.actions@[i].gas,
                        tx.actions@[i].deposit,
                    ),
            ),
        ),
{
    assert(tx.actions@.map_values(|action: FunctionCallAction| action@) =~= Seq::new(
        tx.actions@.len(),
        |i: int|
            (
                tx.actions@[i].method_name@,
                tx.actions@[i].args@,
                tx.actions@[i].gas,
                tx.actions@[i].deposit,
            ),
    ));
}

/// A transaction can be encoded exactly where the number of its calls, and the bytes of each
/// method name and of all arguments, are counted by thirty-two bits.
pub proof fn law_encodable(tx: Transaction, encodable: bool)
    requires
        call_ensures(Transaction::is_encodable, (&tx,), encodable),
    ensures
        encodable <==> tx.actions@.len() < 0x1_0000_0000 && (forall|i: int|
            #![trigger tx.actions@[i]]
            0 <= i < tx.actions@.len() ==> encode_utf8(tx.actions@[i].method_name@).len()
                < 0x1_0000_0000 && tx.actions@[i].args@.len() < 0x1_0000_0000),
{
    if encodable {
        assert forall|i: int| #![trigger tx.actions@[i]] 0 <= i < tx.actions@.len() implies
            encode_utf8(tx.actions@[i].method_name@).len() < 0x1_0000_0000
            && tx.actions@[i].args@.len() < 0x1_0000_0000 by {
            assert(tx.actions@[i].encodable());
        }
    }
}

/// The text of a hash is its bytes in base58.
pub proof fn law_hash_text(hash: [u8; 32], text: String)
    requires
        call_ensures(hash_text, (&hash,), text),
    ensures
        text@ == base58(hash@),
{
}

/// A signer is made of any account and any text that is a secret key, and holds just these;
/// its public key is the one that belongs to the secret key.
pub proof fn law_signer(
    account_id: AccountId,
    secret_key: String,
    signer: Result<Signer, UnreadableKey>,
)
    requires
        call_ensures(Signer::new, (account_id, secret_key), signer),
    ensures
        signer is Ok <==> public_key_of(secret_key@) is Some,
        signer matches Ok(signer) ==> {
            &&& signer.account() == account_id
            &&& signer.secret() == secret_key@
            &&& public_key_of(secret_key@) == Some(signer.key())
        },
{
}

/// The getters of a signer give its account, its key, and the text of the key: the name of the
/// curve and the bytes in base58.
pub proof fn law_signer_parts(signer: Signer, account_id: &AccountId, key: PublicKey, text: String)
    requires
        call_ensures(Signer::account_id, (&signer,), account_id),
        call_ensures(Signer::public_key, (&signer,), key),
        call_ensures(Signer::public_key_text, (&signer,), text),
    ensures
        *account_id == signer.account(),
        key == signer.key(),
        key matches PublicKey::Ed25519(bytes) ==> text@ == "ed25519:"@ + base58(bytes@),
        key matches PublicKey::Secp256k1(bytes) ==> text@ == "secp256k1:"@ + base58(bytes@),
{
}

/// A key on the ed25519 curve signs everything where its halves fit and nothing where they do
/// not, and a key on the secp256k1 curve signs hashes only. A signature is that of the secret
/// key on just the data.
pub proof fn law_signing(
    signer: Signer,
    hashes: bool,
    messages: bool,
    data: &[u8],
    signature: String,
)
    requires
        call_ensures(Signer::can_sign_hashes, (&signer,), hashes),
        call_ensures(Signer::can_sign_messages, (&signer,), messages),
        call_ensures(Signer::sign, (&signer, data), signature),
    ensures
        signer.key() is Ed25519 ==> hashes == is_ed25519_keypair(signer.secret()) && messages
            == is_ed25519_keypair(signer.secret()),
        signer.key() is Secp256k1 ==> hashes && !messages,
        signature@ == signature_of(signer.secret(), data@),
{
}

} // verus!
