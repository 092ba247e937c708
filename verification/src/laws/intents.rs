//! Laws of swapping through a solver of intents.

use vstd::prelude::*;
use vstd::utf8::encode_utf8;

use crate::account::AccountId;
use crate::clock::unix_millis;
use crate::crypto::{base58, signature_of, PublicKey, Signer};
use crate::error::{RpcError, RpcResult};
use crate::json_read::{
    lemma_decimal_spells, lemma_signed_decimal_spells, spells, spells_signed,
};
use crate::near::{QueryReply, QueryResponseKind};
use crate::network::Network;
use crate::swap::intents::{
    build_intent_message, build_intent_message_at, diff_texts, lemma_intent_message_reads_back,
    lemma_intent_parts_read_back, lemma_intents_reads_back, lemma_swap_message_reads_back,
    lemma_tokens_distinct, make_publish_request, quote_id, read_intent_message, read_intents,
    read_swap_message, token_changes, token_name, written, IntentMessageParts, PendingSwap, SwapMessageParts, TokenDiff,
};
use crate::swap::{
    IntentMessage, Intents, IntentsQuoteParams, IntentsQuoteRequest, IntentsQuoteResponse, IntentsSwap,
    PublishIntentsRequest, QuoteOutput, SolverFailure, SolverReply, SwapMessage,
};
use crate::text::{decimal, signed_decimal};

verus! {

/// What an amount counts for: itself, and nothing where it is too large for a signed number.
pub open spec fn counted(amount: u128) -> int {
    if amount <= 0x7fff_ffff_ffff_ffff_ffff_ffff_ffff_ffff {
        amount as int
    } else {
        0
    }
}

/// Whether changes say that the amount of the token of a contract changes by a number: one of
/// them has the name of the token, and its numeral spells the number.
pub open spec fn says_change(
    diff: Seq<(Seq<char>, Seq<char>)>,
    contract: Seq<char>,
    amount: int,
) -> bool {
    exists|i: int|
        {
            &&& 0 <= i < diff.len()
            &&& (#[trigger] diff[i]).0 == "nep141:"@ + contract
            &&& spells_signed(diff[i].1, amount)
            &&& forall|j: int|
                0 <= j < diff.len() && j != i ==> (#[trigger] diff[j]).0 != "nep141:"@ + contract
        }
}

/// Whether changes are those of a quote: the token given loses just the amount in and the token
/// taken gains just the amount out, nothing else changes, and a token that is swapped for
/// itself changes by the difference.
pub open spec fn says_quote(
    diff: Seq<(Seq<char>, Seq<char>)>,
    given: Seq<char>,
    taken: Seq<char>,
    amount_in: u128,
    amount_out: u128,
) -> bool {
    if given == taken {
        diff.len() == 1 && says_change(diff, given, counted(amount_out) - counted(amount_in))
    } else {
        &&& diff.len() == 2
        &&& says_change(diff, given, -counted(amount_in))
        &&& says_change(diff, taken, counted(amount_out))
    }
}

/// The tokens and amounts of changes, as texts.
pub open spec fn as_texts(diff: Seq<TokenDiff>) -> Seq<(Seq<char>, Seq<char>)> {
    Seq::new(diff.len(), |i: int| (diff[i].token@, diff[i].amount@))
}

/// The text of an optional string.
pub open spec fn text_of(text: Option<String>) -> Option<Seq<char>> {
    match text {
        Some(text) => Some(text@),
        None => None,
    }
}

proof fn lemma_says_quote(quote: IntentsQuoteResponse)
    ensures
        says_quote(
            written(token_changes(quote)),
            quote.defuse_asset_identifier_in@,
            quote.defuse_asset_identifier_out@,
            quote.amount_in,
            quote.amount_out,
        ),
{
    let given = quote.defuse_asset_identifier_in@;
    let taken = quote.defuse_asset_identifier_out@;
    let lost = counted(quote.amount_in);
    let gained = counted(quote.amount_out);
    let diff = written(token_changes(quote));
    lemma_signed_decimal_spells(gained - lost);
    lemma_signed_decimal_spells(-lost);
    lemma_signed_decimal_spells(gained);
    if given == taken {
        assert(diff.len() == 1);
        assert(diff[0] == (token_name(given), signed_decimal(gained - lost)));
    } else {
        lemma_tokens_distinct(quote);
        assert(token_changes(quote)[0].0 != token_changes(quote)[1].0);
        assert(diff.len() == 2);
        assert(diff[0] == (token_name(given), signed_decimal(-lost)));
        assert(diff[1] == (token_name(taken), signed_decimal(gained)));
        assert(says_change(diff, given, -lost));
        assert(says_change(diff, taken, gained));
    }
}

proof fn lemma_as_texts(diff: Seq<TokenDiff>)
    ensures
        as_texts(diff) == diff_texts(diff),
{
    assert(as_texts(diff) =~= diff_texts(diff));
}

/// A request for a quote wraps just the parameters that it was made of.
pub proof fn law_quote_request_new(
    id: String,
    params: IntentsQuoteParams,
    request: IntentsQuoteRequest,
)
    requires
        call_ensures(IntentsQuoteRequest::new, (id, params), request),
    ensures
        request.id == id,
        request.jsonrpc@ == "2.0"@,
        request.method@ == "quote"@,
        request.params@.len() == 1,
        request.params@[0] == params,
{
}

/// Whether a request asks the solver to turn an amount of one token into another: the whole
/// amount goes in, the quote stands for a minute, and solvers have half a second.
pub open spec fn asks_solver(
    request: IntentsQuoteRequest,
    from: AccountId,
    to: AccountId,
    amount: u128,
) -> bool {
    &&& exists|numeral: Seq<char>|
        {
            &&& request.id@ == #[trigger] ("quote-"@ + from@ + "-"@ + to@ + "-U128("@ + numeral
                + ")"@)
            &&& spells(numeral, amount as nat)
        }
    &&& request.jsonrpc@ == "2.0"@
    &&& request.method@ == "quote"@
    &&& request.params@.len() == 1
    &&& request.params@[0].defuse_asset_identifier_in == from
    &&& request.params@[0].defuse_asset_identifier_out == to
    &&& request.params@[0].exact_amount_in == amount
    &&& request.params@[0].min_deadline_ms == 60_000
    &&& request.params@[0].wait_ms == 500
}

proof fn lemma_asks_solver(
    request: IntentsQuoteRequest,
    from: AccountId,
    to: AccountId,
    amount: u128,
)
    requires
        request.asks_for(from, to, amount),
    ensures
        asks_solver(request, from, to, amount),
{
    lemma_decimal_spells(amount as nat);
    let numeral = decimal(amount as nat);
    assert(request.id@ == quote_id(from@, to@, amount));
    assert(request.id@ == "quote-"@ + from@ + "-"@ + to@ + "-U128("@ + numeral + ")"@);
}

/// A quote is asked for with the tokens and the whole amount that were given.
pub proof fn law_quote_request(
    swap: IntentsSwap,
    from: AccountId,
    to: AccountId,
    amount: u128,
    request: IntentsQuoteRequest,
)
    requires
        call_ensures(IntentsSwap::quote_request, (&swap, &from, &to, amount), request),
    ensures
        asks_solver(request, from, to, amount),
{
    lemma_asks_solver(request, from, to, amount);
}

/// A quote that a solver gave is the result, unchanged, exactly where it has a hash, whatever
/// its tokens, its amounts and its expiration are; one without a hash is the error that says
/// so. A failure of the solver is the error of its kind, with its text.
pub proof fn law_quote(
    swap: IntentsSwap,
    reply: SolverReply<IntentsQuoteResponse>,
    quote: RpcResult<IntentsQuoteResponse>,
)
    requires
        call_ensures(IntentsSwap::quote, (&swap, reply), quote),
    ensures
        match reply {
            Ok(response) => {
                &&& response.quote_hash@.len() > 0 <==> quote is Ok
                &&& quote matches Ok(quote) ==> quote == response
                &&& quote matches Err(error) ==> error == RpcError::NoQuoteHashReceived
            },
            Err(SolverFailure::Request(text)) => quote == Err::<IntentsQuoteResponse, _>(
                RpcError::SolverRequestError(text),
            ),
            Err(SolverFailure::Response(text)) => quote == Err::<IntentsQuoteResponse, _>(
                RpcError::SolverResponseDeserialization(text),
            ),
        },
{
}

/// The amount that a quote names is the one that comes out.
pub proof fn law_quoted_amount(quote: IntentsQuoteResponse, amount: u128)
    requires
        call_ensures(IntentsQuoteResponse::to_u128, (&quote,), amount),
    ensures
        amount == quote.amount_out,
{
}

/// The solver of the main network is reached at its address, in the name of the signer.
pub proof fn law_solver(network: Network, signer: Signer, swap: IntentsSwap)
    requires
        call_ensures(IntentsSwap::new, (network, signer), swap),
    ensures
        swap.solver_url@ == "https://solver-relay-v2.chaindefuser.com/rpc"@,
        swap.signer == signer,
{
}

/// With an access key, a swap takes the next nonce and asks for the quote of the tokens and the
/// whole amount that were given; without one it is the error of the reply.
pub proof fn law_swap(
    swap: IntentsSwap,
    from: AccountId,
    to: AccountId,
    amount: u128,
    access_key: QueryReply,
    pending: RpcResult<PendingSwap>,
)
    requires
        call_ensures(IntentsSwap::swap, (&swap, &from, &to, amount, access_key), pending),
    ensures
        match access_key {
            Ok(response) => match response.kind {
                QueryResponseKind::AccessKey { nonce } => pending matches Ok(pending) && {
                    &&& pending.nonce == nonce + 1
                    &&& asks_solver(pending.request, from, to, amount)
                },
                _ => pending matches Err(RpcError::WrongResponseKind(text)) && text@
                    == "Expected AccessKey got "@ + response.kind_text@,
            },
            Err(failure) => pending matches Err(RpcError::AccessKeyDataError(text)) && text
                == failure,
        },
{
    if let Ok(pending) = pending {
        lemma_asks_solver(pending.request, from, to, amount);
    }
}

/// Whether a message accepts a quote at a time: it stands for a minute from then on, in the
/// name of an account, and its changes are those of the quote.
pub open spec fn accepts_at(
    message: IntentMessage,
    quote: IntentsQuoteResponse,
    signer_id: AccountId,
    referral: Option<String>,
    memo: Option<String>,
    now: u128,
) -> bool {
    &&& message.deadline - now == 60_000
    &&& message.signer_id == signer_id
    &&& message.intents.intent@ == "token_diff"@
    &&& message.intents.referral == referral
    &&& message.intents.memo == memo
    &&& says_quote(
        as_texts(message.intents.diff@),
        quote.defuse_asset_identifier_in@,
        quote.defuse_asset_identifier_out@,
        quote.amount_in,
        quote.amount_out,
    )
}

/// The message that accepts a quote makes just the changes of the quote, in whole amounts, and
/// stands for a minute from the time that the clock read. A clock that failed is an error.
pub proof fn law_message_at(
    quote: IntentsQuoteResponse,
    signer_id: AccountId,
    referral: Option<String>,
    memo: Option<String>,
    now: Result<u128, String>,
    message: RpcResult<IntentMessage>,
)
    requires
        call_ensures(
            build_intent_message_at,
            (&quote, signer_id, referral, memo, now),
            message,
        ),
    ensures
        now matches Ok(now) ==> message matches Ok(message) && accepts_at(
            message,
            quote,
            signer_id,
            referral,
            memo,
            now,
        ),
        now matches Err(failure) ==> message matches Err(RpcError::SystemTimeError(text)) && text
            == failure,
{
    lemma_says_quote(quote);
    if let Ok(message) = message {
        lemma_as_texts(message.intents.diff@);
    }
}

/// The message that accepts a quote does so at a reading of the wall clock.
pub proof fn law_message(
    quote: IntentsQuoteResponse,
    signer_id: AccountId,
    referral: Option<String>,
    memo: Option<String>,
    message: RpcResult<IntentMessage>,
)
    requires
        call_ensures(build_intent_message, (&quote, signer_id, referral, memo), message),
    ensures
        exists|now: Result<u128, String>|
            {
                &&& #[trigger] call_ensures(unix_millis, (), now)
                &&& now matches Ok(now) ==> message matches Ok(message) && accepts_at(
                    message,
                    quote,
                    signer_id,
                    referral,
                    memo,
                    now,
                )
                &&& now matches Err(failure) ==> message matches Err(
                    RpcError::SystemTimeError(text),
                ) && text == failure
            },
{
    lemma_says_quote(quote);
    if let Ok(message) = message {
        lemma_as_texts(message.intents.diff@);
    }
}

/// The JSON of an intent message reads back as every part of it, each whole.
pub proof fn law_message_json(message: IntentMessage, json: String)
    requires
        call_ensures(IntentMessage::to_json, (&message,), json),
    ensures
        read_intent_message(json@) == Some(
            IntentMessageParts {
                deadline: message.deadline as nat,
                intent: message.intents.intent@,
                diff: as_texts(message.intents.diff@),
                referral: text_of(message.intents.referral),
                memo: text_of(message.intents.memo),
                signer_id: message.signer_id@,
            },
        ),
{
    lemma_intent_message_reads_back(message);
    lemma_as_texts(message.intents.diff@);
}

/// The JSON of intents reads back as every part of them, each whole.
pub proof fn law_intents_json(intents: Intents, json: String)
    requires
        call_ensures(Intents::to_json, (&intents,), json),
    ensures
        read_intents(json@) == Some(
            (
                intents.intent@,
                as_texts(intents.diff@),
                text_of(intents.referral),
                text_of(intents.memo),
            ),
        ),
{
    lemma_intents_reads_back(
        intents.intent@,
        diff_texts(intents.diff@),
        text_of(intents.referral),
        text_of(intents.memo),
    );
    lemma_as_texts(intents.diff@);
}

/// The JSON of a swap message reads back as every part of it, each whole.
pub proof fn law_swap_message_json(message: SwapMessage, json: String)
    requires
        call_ensures(SwapMessage::to_json, (&message,), json),
    ensures
        read_swap_message(json@) == Some(
            SwapMessageParts {
                message: message.message@,
                nonce: message.nonce as nat,
                recipient: message.recipient@,
            },
        ),
{
    lemma_swap_message_reads_back(message);
}

/// Whether a request publishes one message, to the contract of intents and under a nonce, that
/// a signer signed: the signature is that of a JSON text that reads back as the payload.
pub open spec fn publishes_signed(
    request: PublishIntentsRequest,
    signer: Signer,
    nonce: u64,
) -> bool {
    &&& request.id@ == "dontcare"@
    &&& request.jsonrpc@ == "2.0"@
    &&& request.method@ == "publish_intents"@
    &&& request.params@.len() == 1
    &&& request.params@[0].signed_datas@.len() == 1
    &&& {
        let data = request.params@[0].signed_datas@[0];
        &&& data.standard@ == "nep413"@
        &&& data.payload.nonce == nonce
        &&& data.payload.recipient@ == "intents.near"@
        &&& match signer.key() {
            PublicKey::Ed25519(key) => data.public_key@ == "ed25519:"@ + base58(key@),
            PublicKey::Secp256k1(key) => data.public_key@ == "secp256k1:"@ + base58(key@),
        }
        &&& exists|text: Seq<char>|
            {
                &&& data.signature@ == #[trigger] signature_of(signer.secret(), encode_utf8(text))
                &&& read_swap_message(text) == Some(
                    SwapMessageParts {
                        message: data.payload.message@,
                        nonce: nonce as nat,
                        recipient: "intents.near"@,
                    },
                )
            }
    }
}

proof fn lemma_publishes_signed(
    request: PublishIntentsRequest,
    signer: Signer,
    message: Seq<char>,
    nonce: u64,
    quote_hashes: Seq<String>,
)
    requires
        request.publishes(signer, message, nonce, quote_hashes),
    ensures
        publishes_signed(request, signer, nonce),
{
    let payload = request.params@[0].signed_datas@[0].payload;
    lemma_swap_message_reads_back(payload);
    assert(request.params@[0].signed_datas@[0].signature@ == signature_of(
        signer.secret(),
        encode_utf8(payload.json()),
    ));
}

/// A message is published whole, signed, and for just the quotes that were given: its text
/// reads back as every part of it.
pub proof fn law_publish_request(
    signer: Signer,
    message: IntentMessage,
    nonce: u64,
    quote_hashes: Vec<String>,
    request: RpcResult<PublishIntentsRequest>,
)
    requires
        call_ensures(make_publish_request, (&signer, &message, nonce, quote_hashes), request),
    ensures
        request matches Ok(request) && {
            &&& publishes_signed(request, signer, nonce)
            &&& request.params@[0].quote_hashes@ == quote_hashes@
            &&& read_intent_message(request.params@[0].signed_datas@[0].payload.message@) == Some(
                IntentMessageParts {
                    deadline: message.deadline as nat,
                    intent: message.intents.intent@,
                    diff: as_texts(message.intents.diff@),
                    referral: text_of(message.intents.referral),
                    memo: text_of(message.intents.memo),
                    signer_id: message.signer_id@,
                },
            )
        },
{
    lemma_intent_message_reads_back(message);
    lemma_as_texts(message.intents.diff@);
    if let Ok(request) = request {
        lemma_publishes_signed(request, signer, message.json(), nonce, quote_hashes@);
    }
}

/// Whether a request accepts a quote at a time, in the name of a signer and under a nonce: what
/// it publishes reads back as an intent that makes just the changes of the quote, in whole
/// amounts, for a minute, and it names the quote by its hash.
pub open spec fn accepts_quote_at(
    request: PublishIntentsRequest,
    signer: Signer,
    nonce: u64,
    quote: IntentsQuoteResponse,
    now: u128,
) -> bool {
    &&& publishes_signed(request, signer, nonce)
    &&& request.params@[0].quote_hashes@.len() == 1
    &&& request.params@[0].quote_hashes@[0]@ == quote.quote_hash@
    &&& read_intent_message(request.params@[0].signed_datas@[0].payload.message@) matches Some(
        parts,
    )
    &&& parts.deadline == now + 60_000
    &&& parts.intent == "token_diff"@
    &&& parts.referral is None
    &&& parts.memo is None
    &&& parts.signer_id == signer.account()@
    &&& says_quote(
        parts.diff,
        quote.defuse_asset_identifier_in@,
        quote.defuse_asset_identifier_out@,
        quote.amount_in,
        quote.amount_out,
    )
}

proof fn lemma_accepts_quote_at(
    swap: IntentsSwap,
    request: PublishIntentsRequest,
    nonce: u64,
    quote: IntentsQuoteResponse,
    now: u128,
)
    requires
        swap.accepts_quote(nonce, quote, now as int, request),
    ensures
        accepts_quote_at(request, swap.signer, nonce, quote, now),
{
    let signer = swap.signer.account()@;
    let diff = written(token_changes(quote));
    lemma_says_quote(quote);
    lemma_intent_parts_read_back(
        (now + 60_000) as nat,
        "token_diff"@,
        diff,
        None,
        None,
        signer,
    );
    lemma_publishes_signed(
        request,
        swap.signer,
        request.params@[0].signed_datas@[0].payload.message@,
        nonce,
        seq![quote.quote_hash],
    );
}

/// Whether a result is what a reply to the request for a quote leads to where the clock reads
/// `now`: a failure of the solver, a quote without a hash and a failed clock are errors, in
/// this order, and every other quote is accepted.
pub open spec fn goes_on(
    signer: Signer,
    nonce: u64,
    reply: SolverReply<IntentsQuoteResponse>,
    now: Result<u128, String>,
    request: RpcResult<PublishIntentsRequest>,
) -> bool {
    match reply {
        Err(SolverFailure::Request(text)) => request == Err::<PublishIntentsRequest, _>(
            RpcError::SolverRequestError(text),
        ),
        Err(SolverFailure::Response(text)) => request == Err::<PublishIntentsRequest, _>(
            RpcError::SolverResponseDeserialization(text),
        ),
        Ok(quote) => if quote.quote_hash@.len() == 0 {
            request == Err::<PublishIntentsRequest, _>(RpcError::NoQuoteHashReceived)
        } else {
            match now {
                Ok(now) => request matches Ok(request) && accepts_quote_at(
                    request,
                    signer,
                    nonce,
                    quote,
                    now,
                ),
                Err(failure) => request == Err::<PublishIntentsRequest, _>(
                    RpcError::SystemTimeError(failure),
                ),
            }
        },
    }
}

proof fn lemma_goes_on(
    swap: IntentsSwap,
    nonce: u64,
    quote: IntentsQuoteResponse,
    now: Result<u128, String>,
    request: RpcResult<PublishIntentsRequest>,
)
    requires
        quote.quote_hash@.len() > 0,
        swap.answers_quote(nonce, quote, now, request),
    ensures
        goes_on(swap.signer, nonce, Ok(quote), now, request),
{
    if let Ok(now) = now {
        lemma_accepts_quote_at(swap, request->Ok_0, nonce, quote, now);
    }
}

/// A swap goes on from the reply to the request for its quote as [`goes_on`] says, for every
/// reading of the clock.
pub proof fn law_publish_at(
    swap: IntentsSwap,
    nonce: u64,
    reply: SolverReply<IntentsQuoteResponse>,
    now: Result<u128, String>,
    request: RpcResult<PublishIntentsRequest>,
)
    requires
        call_ensures(IntentsSwap::publish_at, (&swap, nonce, reply, now), request),
    ensures
        goes_on(swap.signer, nonce, reply, now, request),
{
    if reply is Ok && reply->Ok_0.quote_hash@.len() > 0 {
        lemma_goes_on(swap, nonce, reply->Ok_0, now, request);
    }
}

/// A swap goes on at a reading of the wall clock.
pub proof fn law_publish(
    swap: IntentsSwap,
    nonce: u64,
    reply: SolverReply<IntentsQuoteResponse>,
    request: RpcResult<PublishIntentsRequest>,
)
    requires
        call_ensures(IntentsSwap::publish, (&swap, nonce, reply), request),
    ensures
        reply matches Ok(quote) && quote.quote_hash@.len() > 0 ==> exists|now: Result<u128, String>|
            {
                &&& #[trigger] call_ensures(unix_millis, (), now)
                &&& goes_on(swap.signer, nonce, reply, now, request)
            },
        !(reply matches Ok(quote) && quote.quote_hash@.len() > 0) ==> forall|
            now: Result<u128, String>,
        | #[trigger]
            goes_on(swap.signer, nonce, reply, now, request),
{
    if reply is Ok && reply->Ok_0.quote_hash@.len() > 0 {
        let quote = reply->Ok_0;
        let now = choose|now: Result<u128, String>|
            {
                &&& #[trigger] call_ensures(unix_millis, (), now)
                &&& swap.answers_quote(nonce, quote, now, request)
            };
        lemma_goes_on(swap, nonce, quote, now, request);
    }
}

/// A swap goes on wherever the key signs messages or nothing is to be signed.
pub proof fn law_try_publish(
    swap: IntentsSwap,
    nonce: u64,
    reply: SolverReply<IntentsQuoteResponse>,
    request: Option<RpcResult<PublishIntentsRequest>>,
    signs: bool,
)
    requires
        call_ensures(IntentsSwap::try_publish, (&swap, nonce, reply), request),
        call_ensures(Signer::can_sign_messages, (&swap.signer,), signs),
    ensures
        request is None <==> !signs && (reply matches Ok(quote) && quote.quote_hash@.len() > 0),
        request matches Some(request) ==> {
            if reply matches Ok(quote) && quote.quote_hash@.len() > 0 {
                exists|now: Result<u128, String>|
                    {
                        &&& #[trigger] call_ensures(unix_millis, (), now)
                        &&& goes_on(swap.signer, nonce, reply, now, request)
                    }
            } else {
                forall|now: Result<u128, String>| #[trigger]
                    goes_on(swap.signer, nonce, reply, now, request)
            }
        },
{
    if request is Some && reply is Ok && reply->Ok_0.quote_hash@.len() > 0 {
        let quote = reply->Ok_0;
        let now = choose|now: Result<u128, String>|
            {
                &&& #[trigger] call_ensures(unix_millis, (), now)
                &&& swap.answers_quote(nonce, quote, now, request->Some_0)
            };
        lemma_goes_on(swap, nonce, quote, now, request->Some_0);
    }
}

/// What the solver answered to the acceptance is the result; a failure is the error of its
/// kind, with its text.
pub proof fn law_published<T>(swap: IntentsSwap, reply: SolverReply<T>, answer: RpcResult<T>)
    requires
        call_ensures(IntentsSwap::published::<T>, (&swap, reply), answer),
    ensures
        reply matches Ok(value) ==> answer == Ok::<T, RpcError>(value),
        reply matches Err(SolverFailure::Request(text)) ==> answer == Err::<T, _>(
            RpcError::SolverRequestError(text),
        ),
        reply matches Err(SolverFailure::Response(text)) ==> answer == Err::<T, _>(
            RpcError::SolverResponseDeserialization(text),
        ),
{
}

} // verus!
