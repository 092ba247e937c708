//! Laws of swapping on the Rhea exchange.

use vstd::prelude::*;
use vstd::utf8::encode_utf8;

use crate::account::AccountId;
use crate::crypto::{signature_of, Signer};
use crate::encoding::base64;
use crate::error::{RpcError, RpcResult};
use crate::json::string_texts;
use crate::json_read::{
    lemma_decimal_spells, member, read_value, spells, text_values, Json,
};
use crate::near::{QueryReply, QueryResponseKind, ViewRequest};
use crate::network::Network;
use crate::send_tx::{SendRequest, SendTx, TxExecutionStatus};
use crate::swap::rhea::{
    lemma_quote_request_reads_back, lemma_swap_request_reads_back, pool_id, quote_request_json,
    quote_request_members, swap_by_output_json, swap_by_output_members, swap_tag, PendingTransfer,
};
use crate::swap::{FungibleAsset, QuoteOutput, QuoteRequest, QuoteResponse, RheaSwap, SwapRequestMsg};
use crate::text::decimal;
use crate::transaction::{FunctionCallAction, Transaction};

verus! {

/// Whether a text names the pool of two tokens with the lowest fee: the token that goes in, the
/// one that comes out, and the fee, with bars between them.
pub open spec fn names_pool(text: Seq<char>, input: Seq<char>, output: Seq<char>) -> bool {
    text == input + "|"@ + output + "|100"@
}

/// Whether a text marks a swap: the token that goes in, the fee, and the numeral of the amount
/// that is asked for, with bars between them.
pub open spec fn marks_swap(text: Seq<char>, input: Seq<char>, amount: u128) -> bool {
    exists|numeral: Seq<char>|
        text == #[trigger] (input + "|100|"@ + numeral) && spells(numeral, amount as nat)
}

proof fn lemma_marks(input: Seq<char>, amount: u128)
    ensures
        marks_swap(swap_tag(input, amount), input, amount),
{
    lemma_decimal_spells(amount as nat);
    assert(swap_tag(input, amount) == input + "|100|"@ + decimal(amount as nat));
}

/// Whether a JSON value is an array of one text that names the pool of two tokens.
pub open spec fn holds_pool(value: Json, input: Seq<char>, output: Seq<char>) -> bool {
    value matches Json::Array(pools) && pools.len() == 1 && {
        &&& pools[0] matches Json::Text(pool)
        &&& names_pool(pool, input, output)
    }
}

/// Whether a JSON value is the numeral of an amount, as a text.
pub open spec fn holds_amount(value: Json, amount: u128) -> bool {
    value matches Json::Text(numeral) && spells(numeral, amount as nat)
}

/// Whether a JSON value is the mark of a swap, as a text.
pub open spec fn holds_mark(value: Json, input: Seq<char>, amount: u128) -> bool {
    value matches Json::Text(mark) && marks_swap(mark, input, amount)
}

/// Whether a JSON text asks the exchange for an amount of a token: it is an object of one
/// member, named after the kind of swap, whose members are the pool, the token that comes out,
/// the whole amount of it, and the mark.
pub open spec fn asks_for_swap(
    text: Seq<char>,
    input: Seq<char>,
    output: Seq<char>,
    amount: u128,
) -> bool {
    &&& read_value(text) matches Some((Json::Object(outer), rest))
    &&& rest.len() == 0
    &&& outer.len() == 1
    &&& member(outer, "SwapByOutput"@) matches Some(Json::Object(members))
    &&& members.len() == 4
    &&& member(members, "pool_ids"@) matches Some(pools)
    &&& holds_pool(pools, input, output)
    &&& member(members, "output_token"@) == Some(Json::Text(output))
    &&& member(members, "output_amount"@) matches Some(number)
    &&& holds_amount(number, amount)
    &&& member(members, "client_id"@) matches Some(mark)
    &&& holds_mark(mark, input, amount)
}

/// Whether a JSON text asks the exchange what an amount of a token costs: it is an object of
/// the pool, both tokens, the whole amount, and the mark.
pub open spec fn asks_for_quote(
    text: Seq<char>,
    input: Seq<char>,
    output: Seq<char>,
    amount: u128,
) -> bool {
    &&& read_value(text) matches Some((Json::Object(members), rest))
    &&& rest.len() == 0
    &&& members.len() == 5
    &&& member(members, "pool_ids"@) matches Some(pools)
    &&& holds_pool(pools, input, output)
    &&& member(members, "input_token"@) == Some(Json::Text(input))
    &&& member(members, "output_token"@) == Some(Json::Text(output))
    &&& member(members, "output_amount"@) matches Some(number)
    &&& holds_amount(number, amount)
    &&& member(members, "tag"@) matches Some(mark)
    &&& holds_mark(mark, input, amount)
}

proof fn lemma_swap_members(
    pools: Seq<Seq<char>>,
    token: Seq<char>,
    amount: Seq<char>,
    mark: Seq<char>,
)
    ensures
        ({
            let members = swap_by_output_members(pools, token, amount, mark);
            &&& members.len() == 4
            &&& member(members, "pool_ids"@) == Some(Json::Array(text_values(pools)))
            &&& member(members, "output_token"@) == Some(Json::Text(token))
            &&& member(members, "output_amount"@) == Some(Json::Text(amount))
            &&& member(members, "client_id"@) == Some(Json::Text(mark))
        }),
{
    reveal_strlit("pool_ids");
    reveal_strlit("output_token");
    reveal_strlit("output_amount");
    reveal_strlit("client_id");
    reveal_with_fuel(member, 5);
    let members = swap_by_output_members(pools, token, amount, mark);
    assert("pool_ids"@.len() == 8 && "output_token"@.len() == 12);
    assert("output_amount"@.len() == 13 && "client_id"@.len() == 9);
    assert(members.skip(1)[0] == members[1]);
    assert(members.skip(1).skip(1)[0] == members[2]);
    assert(members.skip(1).skip(1).skip(1)[0] == members[3]);
}

proof fn lemma_quote_members(
    pools: Seq<Seq<char>>,
    input: Seq<char>,
    output: Seq<char>,
    amount: Seq<char>,
    mark: Seq<char>,
)
    ensures
        ({
            let members = quote_request_members(pools, input, output, amount, mark);
            &&& members.len() == 5
            &&& member(members, "pool_ids"@) == Some(Json::Array(text_values(pools)))
            &&& member(members, "input_token"@) == Some(Json::Text(input))
            &&& member(members, "output_token"@) == Some(Json::Text(output))
            &&& member(members, "output_amount"@) == Some(Json::Text(amount))
            &&& member(members, "tag"@) == Some(Json::Text(mark))
        }),
{
    reveal_strlit("pool_ids");
    reveal_strlit("input_token");
    reveal_strlit("output_token");
    reveal_strlit("output_amount");
    reveal_strlit("tag");
    reveal_with_fuel(member, 6);
    let members = quote_request_members(pools, input, output, amount, mark);
    assert("pool_ids"@.len() == 8 && "input_token"@.len() == 11 && "output_token"@.len() == 12);
    assert("output_amount"@.len() == 13 && "tag"@.len() == 3);
    assert(members.skip(1)[0] == members[1]);
    assert(members.skip(1).skip(1)[0] == members[2]);
    assert(members.skip(1).skip(1).skip(1)[0] == members[3]);
    assert(members.skip(1).skip(1).skip(1).skip(1)[0] == members[4]);
}

proof fn lemma_asks_for_swap(input: Seq<char>, output: Seq<char>, amount: u128)
    ensures
        asks_for_swap(
            swap_by_output_json(
                seq![pool_id(input, output)],
                output,
                amount as nat,
                swap_tag(input, amount),
            ),
            input,
            output,
            amount,
        ),
{
    let pools = seq![pool_id(input, output)];
    let mark = swap_tag(input, amount);
    let numeral = decimal(amount as nat);
    lemma_swap_request_reads_back(pools, output, amount as nat, mark);
    lemma_swap_members(pools, output, numeral, mark);
    lemma_decimal_spells(amount as nat);
    lemma_marks(input, amount);
    reveal_with_fuel(member, 2);
    assert(text_values(pools)[0] == Json::Text(pools[0]));
}

proof fn lemma_asks_for_quote(input: Seq<char>, output: Seq<char>, amount: u128)
    ensures
        asks_for_quote(
            quote_request_json(
                seq![pool_id(input, output)],
                input,
                output,
                amount as nat,
                swap_tag(input, amount),
            ),
            input,
            output,
            amount,
        ),
{
    let pools = seq![pool_id(input, output)];
    let mark = swap_tag(input, amount);
    lemma_quote_request_reads_back(pools, input, output, amount as nat, mark);
    lemma_quote_members(pools, input, output, decimal(amount as nat), mark);
    lemma_decimal_spells(amount as nat);
    lemma_marks(input, amount);
    assert(text_values(pools)[0] == Json::Text(pools[0]));
}

/// A swap message names the pool of its two tokens, the token that comes out, the whole amount
/// and the mark.
pub proof fn law_swap_message(
    input: AccountId,
    output: AccountId,
    amount: u128,
    message: SwapRequestMsg,
)
    requires
        call_ensures(SwapRequestMsg::new, (&input, output, amount), message),
    ensures
        message matches SwapRequestMsg::SwapByOutput {
            pool_ids,
            output_token,
            output_amount,
            client_id,
        } && {
            &&& pool_ids@.len() == 1
            &&& names_pool(pool_ids@[0]@, input@, output@)
            &&& output_token == output
            &&& output_amount == amount
            &&& marks_swap(client_id@, input@, amount)
        },
{
    lemma_marks(input@, amount);
    let SwapRequestMsg::SwapByOutput { pool_ids, .. } = message;
    assert(string_texts(pool_ids@).len() == 1);
    assert(string_texts(pool_ids@)[0] == pool_ids@[0]@);
}

/// A request for a quote names the pool of its two tokens, both tokens, the whole amount and
/// the mark.
pub proof fn law_quote_request(
    input: AccountId,
    output: AccountId,
    amount: u128,
    request: QuoteRequest,
)
    requires
        call_ensures(QuoteRequest::new, (input, output, amount), request),
    ensures
        request.pool_ids@.len() == 1,
        names_pool(request.pool_ids@[0]@, input@, output@),
        request.input_token == input,
        request.output_token == output,
        request.output_amount == amount,
        marks_swap(request.tag@, input@, amount),
{
    lemma_marks(input@, amount);
    assert(string_texts(request.pool_ids@).len() == 1);
    assert(string_texts(request.pool_ids@)[0] == request.pool_ids@[0]@);
}

/// The texts of strings, as JSON values.
pub open spec fn holds_texts(value: Json, strings: Seq<String>) -> bool {
    value matches Json::Array(values) && values.len() == strings.len() && forall|i: int|
        0 <= i < strings.len() ==> #[trigger] values[i] == Json::Text(strings[i]@)
}

/// The JSON of a swap message reads back as the message: an object of one member, named after
/// the kind of swap, whose members are the parts, each whole.
pub proof fn law_swap_message_json(
    pool_ids: Vec<String>,
    output_token: AccountId,
    output_amount: u128,
    client_id: String,
    json: String,
)
    requires
        call_ensures(
            SwapRequestMsg::to_json,
            (&SwapRequestMsg::SwapByOutput { pool_ids, output_token, output_amount, client_id },),
            json,
        ),
    ensures
        read_value(json@) matches Some((Json::Object(outer), rest)) && {
            &&& rest.len() == 0
            &&& outer.len() == 1
            &&& member(outer, "SwapByOutput"@) matches Some(Json::Object(members))
            &&& members.len() == 4
            &&& member(members, "pool_ids"@) matches Some(pools)
            &&& holds_texts(pools, pool_ids@)
            &&& member(members, "output_token"@) == Some(Json::Text(output_token@))
            &&& member(members, "output_amount"@) matches Some(number)
            &&& holds_amount(number, output_amount)
            &&& member(members, "client_id"@) == Some(Json::Text(client_id@))
        },
{
    let pools = string_texts(pool_ids@);
    lemma_swap_request_reads_back(pools, output_token@, output_amount as nat, client_id@);
    lemma_swap_members(pools, output_token@, decimal(output_amount as nat), client_id@);
    lemma_decimal_spells(output_amount as nat);
    reveal_with_fuel(member, 2);
    assert forall|i: int| 0 <= i < pool_ids@.len() implies #[trigger] text_values(pools)[i]
        == Json::Text(pool_ids@[i]@) by {}
}

/// The JSON of a request for a quote reads back as the request, each part whole.
pub proof fn law_quote_request_json(request: QuoteRequest, json: String)
    requires
        call_ensures(QuoteRequest::to_json, (&request,), json),
    ensures
        read_value(json@) matches Some((Json::Object(members), rest)) && {
            &&& rest.len() == 0
            &&& members.len() == 5
            &&& member(members, "pool_ids"@) matches Some(pools)
            &&& holds_texts(pools, request.pool_ids@)
            &&& member(members, "input_token"@) == Some(Json::Text(request.input_token@))
            &&& member(members, "output_token"@) == Some(Json::Text(request.output_token@))
            &&& member(members, "output_amount"@) matches Some(number)
            &&& holds_amount(number, request.output_amount)
            &&& member(members, "tag"@) == Some(Json::Text(request.tag@))
        },
{
    let pools = string_texts(request.pool_ids@);
    let amount = request.output_amount;
    lemma_quote_request_reads_back(
        pools,
        request.input_token@,
        request.output_token@,
        amount as nat,
        request.tag@,
    );
    lemma_quote_members(
        pools,
        request.input_token@,
        request.output_token@,
        decimal(amount as nat),
        request.tag@,
    );
    lemma_decimal_spells(amount as nat);
    assert forall|i: int| 0 <= i < request.pool_ids@.len() implies #[trigger] text_values(pools)[i]
        == Json::Text(request.pool_ids@[i]@) by {}
}

/// The exchange is reached at its contract on each network, in the name of the signer.
pub proof fn law_contract(network: Network, signer: Signer, swap: RheaSwap)
    requires
        call_ensures(RheaSwap::new, (network, signer), swap),
    ensures
        swap.signer == signer,
        network is Mainnet ==> swap.contract@ == "dclv2.ref-labs.near"@,
        network is Testnet ==> swap.contract@ == "dclv2.ref-dev.testnet"@,
{
}

/// A quote is asked of the exchange, by its method, with a JSON text that reads back as the
/// question for the whole amount of the token that comes out.
pub proof fn law_quote(
    swap: RheaSwap,
    from: AccountId,
    to: AccountId,
    amount: u128,
    request: ViewRequest,
)
    requires
        call_ensures(
            RheaSwap::quote,
            (&swap, FungibleAsset::Nep141(from), FungibleAsset::Nep141(to), amount),
            request,
        ),
    ensures
        request.account_id == swap.contract,
        request.method_name@ == "quote_by_output"@,
        exists|text: Seq<char>|
            {
                &&& request.args@ == #[trigger] base64(encode_utf8(text))
                &&& asks_for_quote(text, from@, to@, amount)
            },
{
    lemma_asks_for_quote(from@, to@, amount);
    let text = quote_request_json(
        seq![pool_id(from@, to@)],
        from@,
        to@,
        amount as nat,
        swap_tag(from@, amount),
    );
    assert(request.args@ == base64(encode_utf8(text)));
}

/// The amount that a quote of the exchange names is the one that it holds.
pub proof fn law_quoted_amount(quote: QuoteResponse, amount: u128)
    requires
        call_ensures(QuoteResponse::to_u128, (&quote,), amount),
    ensures
        amount == quote.amount,
{
}

/// With an access key, a swap sends the token that goes in to the exchange, in the amount that
/// was asked for and under the next nonce, and tells the exchange by a JSON text that reads
/// back as the request for that whole amount of the token that comes out.
pub proof fn law_swap(
    swap: RheaSwap,
    from: AccountId,
    to: AccountId,
    amount: u128,
    access_key: QueryReply,
    pending: RpcResult<PendingTransfer>,
)
    requires
        call_ensures(
            RheaSwap::swap,
            (&swap, FungibleAsset::Nep141(from), FungibleAsset::Nep141(to), amount, access_key),
            pending,
        ),
    ensures
        match access_key {
            Ok(response) => match response.kind {
                QueryResponseKind::AccessKey { nonce } => pending matches Ok(pending) && {
                    &&& pending.token == from
                    &&& pending.receiver_id == swap.contract
                    &&& pending.amount == amount
                    &&& pending.nonce == nonce + 1
                    &&& pending.block_hash == response.block_hash
                    &&& asks_for_swap(pending.msg@, from@, to@, amount)
                },
                _ => pending matches Err(RpcError::WrongResponseKind(text)) && text@
                    == "Expected AccessKey got "@ + response.kind_text@,
            },
            Err(failure) => pending matches Err(RpcError::AccessKeyDataError(text)) && text
                == failure,
        },
{
    lemma_asks_for_swap(from@, to@, amount);
}

/// Swaps of different amounts tell the exchange different things.
pub proof fn law_amounts_differ(
    text: Seq<char>,
    input: Seq<char>,
    output: Seq<char>,
    amount1: u128,
    amount2: u128,
)
    requires
        asks_for_swap(text, input, output, amount1),
        asks_for_swap(text, input, output, amount2),
    ensures
        amount1 == amount2,
{
}

/// A swap is submitted as one transaction of the call that was given: from the signer's account
/// and key to the token, under the nonce and on the block of the swap, signed, and awaited for
/// ten seconds from the time of the call on.
pub proof fn law_submit(
    swap: RheaSwap,
    pending: PendingTransfer,
    call: FunctionCallAction,
    now: u128,
    request: SendRequest,
    state: SendTx,
    hash: [u8; 32],
)
    requires
        call_ensures(RheaSwap::submit, (&swap, pending, call, now), (request, state)),
        call_ensures(Transaction::hash, (&request.signed_transaction.transaction,), hash),
    ensures
        ({
            let tx = request.signed_transaction.transaction;
            &&& tx.signer_id == swap.signer.account()
            &&& tx.public_key == swap.signer.key()
            &&& tx.nonce == pending.nonce
            &&& tx.receiver_id == pending.token
            &&& tx.block_hash == pending.block_hash
            &&& tx.actions@.len() == 1
            &&& tx.actions@[0] == call
        }),
        request.signed_transaction.signature@ == signature_of(swap.signer.secret(), hash@),
        request.wait_until == TxExecutionStatus::Final,
        state.sender_id == swap.signer.account(),
        state.tx_hash@ == hash@,
        state.timeout == 10,
        state.called_at == now,
        state.poll_interval is None,
{
}

/// A swap is submitted wherever the key signs hashes, and then as any other.
pub proof fn law_try_submit(
    swap: RheaSwap,
    pending: PendingTransfer,
    call: FunctionCallAction,
    now: u128,
    sent: Option<(SendRequest, SendTx)>,
    signs: bool,
)
    requires
        call_ensures(RheaSwap::try_submit, (&swap, pending, call, now), sent),
        call_ensures(Signer::can_sign_hashes, (&swap.signer,), signs),
    ensures
        sent is Some <==> signs,
        sent matches Some((request, state)) ==> {
            let tx = request.signed_transaction.transaction;
            &&& tx.signer_id == swap.signer.account()
            &&& tx.public_key == swap.signer.key()
            &&& tx.nonce == pending.nonce
            &&& tx.receiver_id == pending.token
            &&& tx.block_hash == pending.block_hash
            &&& tx.actions@.len() == 1
            &&& tx.actions@[0] == call
            &&& request.signed_transaction.signature@ == signature_of(
                swap.signer.secret(),
                state.tx_hash@,
            )
            &&& request.wait_until == TxExecutionStatus::Final
            &&& state.sender_id == swap.signer.account()
            &&& state.timeout == 10
            &&& state.called_at == now
            &&& state.poll_interval is None
        },
{
}

/// The contract of a token is the one that it was made with; only the token of a contract that
/// manages one token is known by its contract alone.
pub proof fn law_assets(
    asset: FungibleAsset,
    contract_id: AccountId,
    single: Option<AccountId>,
)
    requires
        call_ensures(FungibleAsset::contract_id, (&asset,), contract_id),
        call_ensures(FungibleAsset::into_nep141, (asset,), single),
    ensures
        asset matches FungibleAsset::Nep141(id) ==> contract_id == id && single == Some(id),
        asset matches FungibleAsset::Nep245 { contract_id: id, .. } ==> contract_id == id && single
            is None,
{
}

} // verus!
