//! Swapping on the Rhea exchange.

use vstd::prelude::*;
use vstd::utf8::encode_utf8;

use crate::account::{valid_account_id, AccountId};
use crate::crypto::Signer;
use crate::encoding::base64;
use crate::error::RpcResult;
use crate::json_read::{
    lemma_first_member, lemma_key, lemma_last_member, lemma_object, lemma_one_member,
    lemma_quoted_numeral, lemma_regroup, lemma_regroup_all, lemma_string_reads_back, lemma_strings_read_back, read_value,
    text_values, Json,
};
use crate::json::{json_string, json_strings, push_json_string, push_json_strings, string_texts};
use crate::near::{
    access_key_error, get_access_key_data, has_next_nonce, view_request, QueryReply,
    QueryResponseKind, ViewRequest,
};
use crate::network::Network;
use crate::send_tx::{send_tx, sends, SendRequest, SendTx, CLOCK_MAX};
use crate::swap::{FungibleAsset, QuoteOutput};
use crate::text::{decimal, decimal_text, lemma_decimal_injective};
use crate::transaction::{FunctionCallAction, Transaction};

verus! {

/// The seconds within which a swap is to be done.
pub const SWAP_TIMEOUT: u64 = 10;

/// The pool of two tokens with the lowest fee.
pub open spec fn pool_id(input_token: Seq<char>, output_token: Seq<char>) -> Seq<char> {
    input_token + "|"@ + output_token + "|100"@
}

/// The mark by which the exchange tells swaps apart.
pub open spec fn swap_tag(input_token: Seq<char>, output_amount: u128) -> Seq<char> {
    input_token + "|100|"@ + decimal(output_amount as nat)
}

fn pool_id_text(input_token: &AccountId, output_token: &AccountId) -> (text: String)
    ensures
        text@ == pool_id(input_token@, output_token@),
{
    let mut text = input_token.as_str().to_owned();
    text.append("|");
    text.append(output_token.as_str());
    text.append("|100");
    text
}

fn swap_tag_text(input_token: &AccountId, output_amount: u128) -> (text: String)
    ensures
        text@ == swap_tag(input_token@, output_amount),
{
    let mut text = input_token.as_str().to_owned();
    text.append("|100|");
    text.append(decimal_text(output_amount).as_str());
    text
}

/// A request for a quote.
#[derive(Debug, Clone, PartialEq, Eq, PartialOrd, Ord)]
pub struct QuoteRequest {
    pub pool_ids: Vec<String>,
    pub input_token: AccountId,
    pub output_token: AccountId,
    pub output_amount: u128,
    pub tag: String,
}

/// The JSON of a request for a quote with these parts.
pub open spec fn quote_request_json(
    pool_ids: Seq<Seq<char>>,
    input_token: Seq<char>,
    output_token: Seq<char>,
    output_amount: nat,
    tag: Seq<char>,
) -> Seq<char> {
    "{\"pool_ids\":"@ + json_strings(pool_ids) + ",\"input_token\":"@ + json_string(input_token)
        + ",\"output_token\":"@ + json_string(output_token) + ",\"output_amount\":\""@ + decimal(
        output_amount,
    ) + "\",\"tag\":"@ + json_string(tag) + "}"@
}

impl QuoteRequest {
    /// Whether the request asks what an amount of the output token costs, in the pool of the
    /// two tokens.
    pub open spec fn asks_for(
        self,
        input_token: AccountId,
        output_token: AccountId,
        output_amount: u128,
    ) -> bool {
        &&& string_texts(self.pool_ids@) == seq![pool_id(input_token@, output_token@)]
        &&& self.input_token == input_token
        &&& self.output_token == output_token
        &&& self.output_amount == output_amount
        &&& self.tag@ == swap_tag(input_token@, output_amount)
    }

    /// Asks what an amount of the output token costs.
    pub fn new(input_token: AccountId, output_token: AccountId, output_amount: u128) -> (request:
        Self)
        ensures
            request.asks_for(input_token, output_token, output_amount),
    {
        let mut pool_ids: Vec<String> = Vec::new();
        pool_ids.push(pool_id_text(&input_token, &output_token));
        assert(string_texts(pool_ids@) =~= seq![pool_id(input_token@, output_token@)]);
        let tag = swap_tag_text(&input_token, output_amount);
        QuoteRequest { pool_ids, input_token, output_token, output_amount, tag }
    }

    /// The JSON of the request.
    pub open spec fn json(self) -> Seq<char> {
        quote_request_json(
            string_texts(self.pool_ids@),
            self.input_token@,
            self.output_token@,
            self.output_amount as nat,
            self.tag@,
        )
    }

    /// Writes the request as JSON.
    pub fn to_json(&self) -> (json: String)
        ensures
            json@ == self.json(),
    {
        let mut out = "{\"pool_ids\":".to_owned();
        push_json_strings(&mut out, &self.pool_ids);
        out.append(",\"input_token\":");
        push_json_string(&mut out, self.input_token.as_str());
        out.append(",\"output_token\":");
        push_json_string(&mut out, self.output_token.as_str());
        out.append(",\"output_amount\":\"");
        out.append(decimal_text(self.output_amount).as_str());
        out.append("\",\"tag\":");
        push_json_string(&mut out, self.tag.as_str());
        out.append("}");
        out
    }
}

/// A quote.
#[derive(Debug, Clone, PartialEq, Eq, PartialOrd, Ord)]
pub struct QuoteResponse {
    pub amount: u128,
    pub tag: String,
}

impl QuoteOutput for QuoteResponse {
    open spec fn amount_quoted(&self) -> u128 {
        self.amount
    }

    fn to_u128(&self) -> u128 {
        self.amount
    }
}

/// What the exchange is told with the tokens that it receives.
#[derive(Debug, Clone, PartialEq, Eq, PartialOrd, Ord)]
pub enum SwapRequestMsg {
    SwapByOutput {
        pool_ids: Vec<String>,
        output_token: AccountId,
        output_amount: u128,
        client_id: String,
    },
}

/// The JSON of a swap request with these parts.
pub open spec fn swap_by_output_json(
    pool_ids: Seq<Seq<char>>,
    output_token: Seq<char>,
    output_amount: nat,
    client_id: Seq<char>,
) -> Seq<char> {
    "{\"SwapByOutput\":{\"pool_ids\":"@ + json_strings(pool_ids) + ",\"output_token\":"@
        + json_string(output_token) + ",\"output_amount\":\""@ + decimal(output_amount)
        + "\",\"client_id\":"@ + json_string(client_id) + "}}"@
}

impl SwapRequestMsg {
    /// Whether the message asks for an amount of the output token, from the pool of the two
    /// tokens.
    pub open spec fn asks_for(
        self,
        input_token: Seq<char>,
        token: AccountId,
        amount: u128,
    ) -> bool {
        &&& self matches SwapRequestMsg::SwapByOutput {
            pool_ids,
            output_token,
            output_amount,
            client_id,
        }
        &&& string_texts(pool_ids@) == seq![pool_id(input_token, token@)]
        &&& output_token == token
        &&& output_amount == amount
        &&& client_id@ == swap_tag(input_token, amount)
    }

    /// Asks for an amount of the output token.
    pub fn new(input_token: &AccountId, output_token: AccountId, output_amount: u128) -> (msg: Self)
        ensures
            msg.asks_for(input_token@, output_token, output_amount),
    {
        let mut pool_ids: Vec<String> = Vec::new();
        pool_ids.push(pool_id_text(input_token, &output_token));
        assert(string_texts(pool_ids@) =~= seq![pool_id(input_token@, output_token@)]);
        SwapRequestMsg::SwapByOutput {
            pool_ids,
            output_token,
            output_amount,
            client_id: swap_tag_text(input_token, output_amount),
        }
    }

    /// The JSON of the request.
    pub open spec fn json(self) -> Seq<char> {
        match self {
            SwapRequestMsg::SwapByOutput { pool_ids, output_token, output_amount, client_id } => {
                swap_by_output_json(
                    string_texts(pool_ids@),
                    output_token@,
                    output_amount as nat,
                    client_id@,
                )
            },
        }
    }

    /// Writes the request as JSON.
    pub fn to_json(&self) -> (json: String)
        ensures
            json@ == self.json(),
    {
        match self {
            SwapRequestMsg::SwapByOutput { pool_ids, output_token, output_amount, client_id } => {
                let mut out = "{\"SwapByOutput\":{\"pool_ids\":".to_owned();
                push_json_strings(&mut out, pool_ids);
                out.append(",\"output_token\":");
                push_json_string(&mut out, output_token.as_str());
                out.append(",\"output_amount\":\"");
                out.append(decimal_text(*output_amount).as_str());
                out.append("\",\"client_id\":");
                push_json_string(&mut out, client_id.as_str());
                out.append("}}");
                out
            },
        }
    }
}

/// Swaps on the Rhea exchange.
pub struct RheaSwap {
    pub contract: AccountId,
    pub signer: Signer,
}

proof fn lemma_mainnet_contract_valid()
    ensures
        valid_account_id("dclv2.ref-labs.near"@),
{
    reveal_strlit("dclv2.ref-labs.near");
}

proof fn lemma_testnet_contract_valid()
    ensures
        valid_account_id("dclv2.ref-dev.testnet"@),
{
    reveal_strlit("dclv2.ref-dev.testnet");
}

impl RheaSwap {
    /// Swaps with the contract of the exchange on a network.
    pub fn new(network: Network, signer: Signer) -> (swap: Self)
        ensures
            swap.contract@ == (match network {
                Network::Mainnet => "dclv2.ref-labs.near"@,
                Network::Testnet => "dclv2.ref-dev.testnet"@,
            }),
            swap.signer == signer,
    {
        proof {
            lemma_mainnet_contract_valid();
            lemma_testnet_contract_valid();
        }
        let contract = match network {
            Network::Mainnet => AccountId::parse("dclv2.ref-labs.near").unwrap(),
            Network::Testnet => AccountId::parse("dclv2.ref-dev.testnet").unwrap(),
        };
        RheaSwap { contract, signer }
    }

    /// The view call that asks what an amount of the token `to` costs. Both tokens are tokens
    /// of contracts that manage one token.
    pub fn quote(&self, from: FungibleAsset, to: FungibleAsset, amount: u128) -> (request:
        ViewRequest)
        requires
            from is Nep141,
            to is Nep141,
        ensures
            request.account_id == self.contract,
            request.method_name@ == "quote_by_output"@,
            request.args@ == base64(
                encode_utf8(
                    quote_request_json(
                        seq![pool_id(from.contract()@, to.contract()@)],
                        from.contract()@,
                        to.contract()@,
                        amount as nat,
                        swap_tag(from.contract()@, amount),
                    ),
                ),
            ),
    {
        let request = QuoteRequest::new(
            from.into_nep141().unwrap(),
            to.into_nep141().unwrap(),
            amount,
        );
        view_request(self.contract.clone(), "quote_by_output", request.to_json().as_str())
    }

    /// Starts a swap with the reply to the question for the signer's access key: the tokens
    /// to give are to be sent to the exchange, and the swap goes on with
    /// [`submit`](Self::submit). Both tokens are tokens of contracts that manage one token.
    pub fn swap(
        &self,
        from: FungibleAsset,
        to: FungibleAsset,
        amount: u128,
        access_key: QueryReply,
    ) -> (pending: RpcResult<PendingTransfer>)
        requires
            from is Nep141,
            to is Nep141,
            has_next_nonce(access_key),
        ensures
            match pending {
                Ok(pending) => {
                    &&& access_key matches Ok(response)
                    &&& response.kind matches QueryResponseKind::AccessKey { nonce }
                    &&& pending.token == from.contract()
                    &&& pending.receiver_id == self.contract
                    &&& pending.amount == amount
                    &&& pending.msg@ == swap_by_output_json(
                        seq![pool_id(from.contract()@, to.contract()@)],
                        to.contract()@,
                        amount as nat,
                        swap_tag(from.contract()@, amount),
                    )
                    &&& pending.nonce == nonce + 1
                    &&& pending.block_hash == response.block_hash
                },
                Err(error) => access_key_error(access_key, error),
            },
    {
        let token = from.contract_id();
        let msg = SwapRequestMsg::new(
            &from.into_nep141().unwrap(),
            to.into_nep141().unwrap(),
            amount,
        );
        let (nonce, block_hash) = match get_access_key_data(access_key) {
            Ok(data) => data,
            Err(error) => return Err(error),
        };
        Ok(
            PendingTransfer {
                token,
                receiver_id: self.contract.clone(),
                amount,
                msg: msg.to_json(),
                nonce,
                block_hash,
            },
        )
    }

    /// Whether a request sends the signed transaction that makes a call for a swap, and a state
    /// awaits the answer to it from the time `now` on.
    pub open spec fn submits(
        self,
        pending: PendingTransfer,
        call: FunctionCallAction,
        now: u128,
        request: SendRequest,
        state: SendTx,
    ) -> bool {
        let tx = request.signed_transaction.transaction;
        &&& tx.signer_id == self.signer.account()
        &&& tx.public_key == self.signer.key()
        &&& tx.nonce == pending.nonce
        &&& tx.receiver_id == pending.token
        &&& tx.block_hash == pending.block_hash
        &&& tx.actions@ == seq![call]
        &&& sends(self.signer, SWAP_TIMEOUT, tx, now, request, state)
        &&& state.well_formed()
    }

    /// Goes on with a swap as [`submit`](Self::submit) does, where the key can sign.
    pub fn try_submit(&self, pending: PendingTransfer, call: FunctionCallAction, now: u128) -> (sent:
        Option<(SendRequest, SendTx)>)
        requires
            call.encodable(),
            now <= CLOCK_MAX,
        ensures
            match sent {
                Some(sent) => {
                    &&& self.signer.signs_hashes()
                    &&& self.submits(pending, call, now, sent.0, sent.1)
                },
                None => !self.signer.signs_hashes(),
            },
    {
        if self.signer.can_sign_hashes() {
            Some(self.submit(pending, call, now))
        } else {
            None
        }
    }

    /// Goes on with a swap at the time `now`, once the call that makes the transfer is known:
    /// the transaction is to be sent.
    pub fn submit(&self, pending: PendingTransfer, call: FunctionCallAction, now: u128) -> (sent: (
        SendRequest,
        SendTx,
    ))
        requires
            self.signer.signs_hashes(),
            call.encodable(),
            now <= CLOCK_MAX,
        ensures
            self.submits(pending, call, now, sent.0, sent.1),
    {
        let mut actions: Vec<FunctionCallAction> = Vec::new();
        actions.push(call);
        let tx = Transaction {
            signer_id: self.signer.account_id().clone(),
            public_key: self.signer.public_key(),
            nonce: pending.nonce,
            receiver_id: pending.token,
            block_hash: pending.block_hash,
            actions,
        };
        send_tx(&self.signer, SWAP_TIMEOUT, tx, now)
    }
}

/// A swap whose tokens are about to be sent to the exchange.
#[derive(Debug, PartialEq, Eq)]
pub struct PendingTransfer {
    /// The contract of the token to send.
    pub token: AccountId,
    /// The contract of the exchange.
    pub receiver_id: AccountId,
    pub amount: u128,
    /// What the exchange is told, in JSON.
    pub msg: String,
    /// The nonce of the transaction.
    pub nonce: u64,
    /// The block on top of which the transaction is valid.
    pub block_hash: [u8; 32],
}

proof fn lemma_quoted_between(
    before: Seq<char>,
    number: nat,
    after: Seq<char>,
    rest: Seq<char>,
)
    ensures
        (before + seq!['"']) + (decimal(number) + ((seq!['"'] + after) + rest)) == before + (
        json_string(decimal(number)) + (after + rest)),
{
    lemma_quoted_numeral(number);
    assert((before + seq!['"']) + (decimal(number) + ((seq!['"'] + after) + rest)) =~= before + (
    json_string(decimal(number)) + (after + rest)));
}

/// The members of the object that a swap request with these parts is written as.
pub open spec fn swap_by_output_members(
    pool_ids: Seq<Seq<char>>,
    output_token: Seq<char>,
    output_amount: Seq<char>,
    client_id: Seq<char>,
) -> Seq<(Seq<char>, Json)> {
    seq![
        ("pool_ids"@, Json::Array(text_values(pool_ids))),
        ("output_token"@, Json::Text(output_token)),
        ("output_amount"@, Json::Text(output_amount)),
        ("client_id"@, Json::Text(client_id)),
    ]
}

proof fn lemma_swap_keys(a: Seq<char>, b: Seq<char>, c: Seq<char>, d: Seq<char>)
    ensures
        "{\"SwapByOutput\":{\"pool_ids\":"@ + a == seq!['{'] + (json_string("SwapByOutput"@) + (
        seq![':'] + (seq!['{'] + (json_string("pool_ids"@) + (seq![':'] + a))))),
        ",\"output_token\":"@ + b == seq![','] + (json_string("output_token"@) + (seq![':'] + b)),
        ",\"output_amount\":"@ + c == seq![','] + (json_string("output_amount"@) + (seq![':'] + c)),
        ",\"client_id\":"@ + d == seq![','] + (json_string("client_id"@) + (seq![':'] + d)),
        ",\"output_amount\":\""@ == ",\"output_amount\":"@ + seq!['"'],
        "\",\"client_id\":"@ == seq!['"'] + ",\"client_id\":"@,
        "}}"@ == seq!['}'] + (seq!['}'] + Seq::<char>::empty()),
        json_string("SwapByOutput"@)[0] == '"',
        json_string("pool_ids"@)[0] == '"',
{
    reveal_strlit("{\"SwapByOutput\":{\"pool_ids\":");
    reveal_strlit("{\"SwapByOutput\":");
    reveal_strlit("{\"pool_ids\":");
    reveal_strlit("SwapByOutput");
    reveal_strlit("pool_ids");
    assert("{\"SwapByOutput\":"@ =~= seq!['{', '"'] + "SwapByOutput"@ + seq!['"', ':']);
    assert("{\"pool_ids\":"@ =~= seq!['{', '"'] + "pool_ids"@ + seq!['"', ':']);
    assert("{\"SwapByOutput\":{\"pool_ids\":"@ =~= "{\"SwapByOutput\":"@ + "{\"pool_ids\":"@);
    lemma_regroup("{\"SwapByOutput\":"@, "{\"pool_ids\":"@, a);
    lemma_key("{\"pool_ids\":"@, '{', "pool_ids"@, a);
    lemma_key("{\"SwapByOutput\":"@, '{', "SwapByOutput"@, "{\"pool_ids\":"@ + a);
    reveal_strlit(",\"output_token\":");
    reveal_strlit("output_token");
    assert(",\"output_token\":"@ =~= seq![',', '"'] + "output_token"@ + seq!['"', ':']);
    lemma_key(",\"output_token\":"@, ',', "output_token"@, b);
    reveal_strlit(",\"output_amount\":");
    reveal_strlit("output_amount");
    assert(",\"output_amount\":"@ =~= seq![',', '"'] + "output_amount"@ + seq!['"', ':']);
    lemma_key(",\"output_amount\":"@, ',', "output_amount"@, c);
    reveal_strlit(",\"client_id\":");
    reveal_strlit("client_id");
    assert(",\"client_id\":"@ =~= seq![',', '"'] + "client_id"@ + seq!['"', ':']);
    lemma_key(",\"client_id\":"@, ',', "client_id"@, d);
    reveal_strlit(",\"output_amount\":\"");
    reveal_strlit("\",\"client_id\":");
    reveal_strlit("}}");
    assert(",\"output_amount\":\""@ =~= ",\"output_amount\":"@ + seq!['"']);
    assert("\",\"client_id\":"@ =~= seq!['"'] + ",\"client_id\":"@);
    assert("}}"@ =~= seq!['}'] + (seq!['}'] + Seq::<char>::empty()));
}

/// An object of an array of texts and three texts, under any names, reads back.
proof fn lemma_swap_members(
    names: (Seq<char>, Seq<char>, Seq<char>, Seq<char>),
    pool_ids: Seq<Seq<char>>,
    b: Seq<char>,
    c: Seq<char>,
    d: Seq<char>,
    x: Seq<char>,
)
    ensures
        ({
            let d_member = json_string(names.3) + (seq![':'] + (json_string(d) + (seq!['}'] + x)));
            let c_member = json_string(names.2) + (seq![':'] + (json_string(c) + (seq![',']
                + d_member)));
            let b_member = json_string(names.1) + (seq![':'] + (json_string(b) + (seq![',']
                + c_member)));
            let a_member = json_string(names.0) + (seq![':'] + (json_strings(pool_ids) + (seq![',']
                + b_member)));
            read_value(seq!['{'] + a_member) == Some(
                (
                    Json::Object(
                        seq![
                            (names.0, Json::Array(text_values(pool_ids))),
                            (names.1, Json::Text(b)),
                            (names.2, Json::Text(c)),
                            (names.3, Json::Text(d)),
                        ],
                    ),
                    x,
                ),
            )
        }),
{
    let d_member = json_string(names.3) + (seq![':'] + (json_string(d) + (seq!['}'] + x)));
    let c_member = json_string(names.2) + (seq![':'] + (json_string(c) + (seq![','] + d_member)));
    let b_member = json_string(names.1) + (seq![':'] + (json_string(b) + (seq![','] + c_member)));
    let a_member = json_string(names.0) + (seq![':'] + (json_strings(pool_ids) + (seq![',']
        + b_member)));
    let m4 = seq![(names.3, Json::Text(d))];
    let m3 = seq![(names.2, Json::Text(c))] + m4;
    let m2 = seq![(names.1, Json::Text(b))] + m3;
    let m1 = seq![(names.0, Json::Array(text_values(pool_ids)))] + m2;
    lemma_string_reads_back(d, seq!['}'] + x);
    lemma_last_member(names.3, Json::Text(d), json_string(d), x);
    lemma_string_reads_back(c, seq![','] + d_member);
    lemma_first_member(names.2, Json::Text(c), json_string(c), d_member, m4, x);
    lemma_string_reads_back(b, seq![','] + c_member);
    lemma_first_member(names.1, Json::Text(b), json_string(b), c_member, m3, x);
    lemma_strings_read_back(pool_ids, seq![','] + b_member);
    lemma_first_member(
        names.0,
        Json::Array(text_values(pool_ids)),
        json_strings(pool_ids),
        b_member,
        m2,
        x,
    );
    assert(a_member[0] == '"');
    lemma_object(a_member, m1, x);
    assert(m1 =~= seq![
        (names.0, Json::Array(text_values(pool_ids))),
        (names.1, Json::Text(b)),
        (names.2, Json::Text(c)),
        (names.3, Json::Text(d)),
    ]);
}

/// The JSON of a swap request reads back as an object named after the kind of swap, with the
/// pools, the token, the numeral of the whole amount, and the mark.
pub proof fn lemma_swap_request_reads_back(
    pool_ids: Seq<Seq<char>>,
    output_token: Seq<char>,
    output_amount: nat,
    client_id: Seq<char>,
)
    ensures
        read_value(swap_by_output_json(pool_ids, output_token, output_amount, client_id)) == Some(
            (
                Json::Object(
                    seq![
                        (
                            "SwapByOutput"@,
                            Json::Object(
                                swap_by_output_members(
                                    pool_ids,
                                    output_token,
                                    decimal(output_amount),
                                    client_id,
                                ),
                            ),
                        ),
                    ],
                ),
                Seq::<char>::empty(),
            ),
        ),
{
    let none = Seq::<char>::empty();
    let x = seq!['}'] + none;
    let amount = decimal(output_amount);
    let d = json_string(client_id) + (seq!['}'] + x);
    let d_member = json_string("client_id"@) + (seq![':'] + d);
    let c = json_string(amount) + (seq![','] + d_member);
    let c_member = json_string("output_amount"@) + (seq![':'] + c);
    let b = json_string(output_token) + (seq![','] + c_member);
    let b_member = json_string("output_token"@) + (seq![':'] + b);
    let a = json_strings(pool_ids) + (seq![','] + b_member);
    let inner = seq!['{'] + (json_string("pool_ids"@) + (seq![':'] + a));
    lemma_swap_keys(a, b, c, d);
    let head = "{\"SwapByOutput\":{\"pool_ids\":"@ + json_strings(pool_ids) + ",\"output_token\":"@
        + json_string(output_token);
    let open = ",\"output_amount\":\""@;
    let close = "\",\"client_id\":"@;
    // The text, joined from its end.
    lemma_regroup_all(head + open, amount, close, json_string(client_id), "}}"@);
    lemma_regroup(head, open, amount + (close + d));
    lemma_quoted_between(
        ",\"output_amount\":"@,
        output_amount,
        ",\"client_id\":"@,
        d,
    );
    lemma_regroup_all(
        "{\"SwapByOutput\":{\"pool_ids\":"@,
        json_strings(pool_ids),
        ",\"output_token\":"@,
        json_string(output_token),
        seq![','] + c_member,
    );
    let outer = json_string("SwapByOutput"@) + (seq![':'] + inner);
    assert(swap_by_output_json(pool_ids, output_token, output_amount, client_id) == seq!['{']
        + outer);
    lemma_swap_members(
        ("pool_ids"@, "output_token"@, "output_amount"@, "client_id"@),
        pool_ids,
        output_token,
        amount,
        client_id,
        x,
    );
    let members = swap_by_output_members(pool_ids, output_token, amount, client_id);
    lemma_one_member("SwapByOutput"@, Json::Object(members), inner, none);
}

/// The members of the object that a request for a quote with these parts is written as.
pub open spec fn quote_request_members(
    pool_ids: Seq<Seq<char>>,
    input_token: Seq<char>,
    output_token: Seq<char>,
    output_amount: Seq<char>,
    tag: Seq<char>,
) -> Seq<(Seq<char>, Json)> {
    seq![
        ("pool_ids"@, Json::Array(text_values(pool_ids))),
        ("input_token"@, Json::Text(input_token)),
        ("output_token"@, Json::Text(output_token)),
        ("output_amount"@, Json::Text(output_amount)),
        ("tag"@, Json::Text(tag)),
    ]
}

proof fn lemma_quote_keys(a: Seq<char>, b: Seq<char>, c: Seq<char>, d: Seq<char>, e: Seq<char>)
    ensures
        "{\"pool_ids\":"@ + a == seq!['{'] + (json_string("pool_ids"@) + (seq![':'] + a)),
        ",\"input_token\":"@ + b == seq![','] + (json_string("input_token"@) + (seq![':'] + b)),
        ",\"output_token\":"@ + c == seq![','] + (json_string("output_token"@) + (seq![':'] + c)),
        ",\"output_amount\":"@ + d == seq![','] + (json_string("output_amount"@) + (seq![':'] + d)),
        ",\"tag\":"@ + e == seq![','] + (json_string("tag"@) + (seq![':'] + e)),
        ",\"output_amount\":\""@ == ",\"output_amount\":"@ + seq!['"'],
        "\",\"tag\":"@ == seq!['"'] + ",\"tag\":"@,
        "}"@ == seq!['}'] + Seq::<char>::empty(),
{
    reveal_strlit("{\"pool_ids\":");
    reveal_strlit("pool_ids");
    assert("{\"pool_ids\":"@ =~= seq!['{', '"'] + "pool_ids"@ + seq!['"', ':']);
    lemma_key("{\"pool_ids\":"@, '{', "pool_ids"@, a);
    reveal_strlit(",\"input_token\":");
    reveal_strlit("input_token");
    assert(",\"input_token\":"@ =~= seq![',', '"'] + "input_token"@ + seq!['"', ':']);
    lemma_key(",\"input_token\":"@, ',', "input_token"@, b);
    reveal_strlit(",\"output_token\":");
    reveal_strlit("output_token");
    assert(",\"output_token\":"@ =~= seq![',', '"'] + "output_token"@ + seq!['"', ':']);
    lemma_key(",\"output_token\":"@, ',', "output_token"@, c);
    reveal_strlit(",\"output_amount\":");
    reveal_strlit("output_amount");
    assert(",\"output_amount\":"@ =~= seq![',', '"'] + "output_amount"@ + seq!['"', ':']);
    lemma_key(",\"output_amount\":"@, ',', "output_amount"@, d);
    reveal_strlit(",\"tag\":");
    reveal_strlit("tag");
    assert(",\"tag\":"@ =~= seq![',', '"'] + "tag"@ + seq!['"', ':']);
    lemma_key(",\"tag\":"@, ',', "tag"@, e);
    reveal_strlit(",\"output_amount\":\"");
    reveal_strlit("\",\"tag\":");
    reveal_strlit("}");
    assert(",\"output_amount\":\""@ =~= ",\"output_amount\":"@ + seq!['"']);
    assert("\",\"tag\":"@ =~= seq!['"'] + ",\"tag\":"@);
    assert("}"@ =~= seq!['}'] + Seq::<char>::empty());
}

/// An object of an array of texts and four texts, under any names, reads back.
proof fn lemma_quote_members(
    names: (Seq<char>, Seq<char>, Seq<char>, Seq<char>, Seq<char>),
    pool_ids: Seq<Seq<char>>,
    b: Seq<char>,
    c: Seq<char>,
    d: Seq<char>,
    e: Seq<char>,
    x: Seq<char>,
)
    ensures
        ({
            let e_member = json_string(names.4) + (seq![':'] + (json_string(e) + (seq!['}'] + x)));
            let d_member = json_string(names.3) + (seq![':'] + (json_string(d) + (seq![',']
                + e_member)));
            let c_member = json_string(names.2) + (seq![':'] + (json_string(c) + (seq![',']
                + d_member)));
            let b_member = json_string(names.1) + (seq![':'] + (json_string(b) + (seq![',']
                + c_member)));
            let a_member = json_string(names.0) + (seq![':'] + (json_strings(pool_ids) + (seq![',']
                + b_member)));
            read_value(seq!['{'] + a_member) == Some(
                (
                    Json::Object(
                        seq![
                            (names.0, Json::Array(text_values(pool_ids))),
                            (names.1, Json::Text(b)),
                            (names.2, Json::Text(c)),
                            (names.3, Json::Text(d)),
                            (names.4, Json::Text(e)),
                        ],
                    ),
                    x,
                ),
            )
        }),
{
    let e_member = json_string(names.4) + (seq![':'] + (json_string(e) + (seq!['}'] + x)));
    let d_member = json_string(names.3) + (seq![':'] + (json_string(d) + (seq![','] + e_member)));
    let c_member = json_string(names.2) + (seq![':'] + (json_string(c) + (seq![','] + d_member)));
    let b_member = json_string(names.1) + (seq![':'] + (json_string(b) + (seq![','] + c_member)));
    let a_member = json_string(names.0) + (seq![':'] + (json_strings(pool_ids) + (seq![',']
        + b_member)));
    let m5 = seq![(names.4, Json::Text(e))];
    let m4 = seq![(names.3, Json::Text(d))] + m5;
    let m3 = seq![(names.2, Json::Text(c))] + m4;
    let m2 = seq![(names.1, Json::Text(b))] + m3;
    let m1 = seq![(names.0, Json::Array(text_values(pool_ids)))] + m2;
    lemma_string_reads_back(e, seq!['}'] + x);
    lemma_last_member(names.4, Json::Text(e), json_string(e), x);
    lemma_string_reads_back(d, seq![','] + e_member);
    lemma_first_member(names.3, Json::Text(d), json_string(d), e_member, m5, x);
    lemma_string_reads_back(c, seq![','] + d_member);
    lemma_first_member(names.2, Json::Text(c), json_string(c), d_member, m4, x);
    lemma_string_reads_back(b, seq![','] + c_member);
    lemma_first_member(names.1, Json::Text(b), json_string(b), c_member, m3, x);
    lemma_strings_read_back(pool_ids, seq![','] + b_member);
    lemma_first_member(
        names.0,
        Json::Array(text_values(pool_ids)),
        json_strings(pool_ids),
        b_member,
        m2,
        x,
    );
    assert(a_member[0] == '"');
    lemma_object(a_member, m1, x);
    assert(m1 =~= seq![
        (names.0, Json::Array(text_values(pool_ids))),
        (names.1, Json::Text(b)),
        (names.2, Json::Text(c)),
        (names.3, Json::Text(d)),
        (names.4, Json::Text(e)),
    ]);
}

/// The JSON of a request for a quote reads back as an object of the pools, the tokens, the
/// numeral of the whole amount, and the mark.
pub proof fn lemma_quote_request_reads_back(
    pool_ids: Seq<Seq<char>>,
    input_token: Seq<char>,
    output_token: Seq<char>,
    output_amount: nat,
    tag: Seq<char>,
)
    ensures
        read_value(
            quote_request_json(pool_ids, input_token, output_token, output_amount, tag),
        ) == Some(
            (
                Json::Object(
                    quote_request_members(
                        pool_ids,
                        input_token,
                        output_token,
                        decimal(output_amount),
                        tag,
                    ),
                ),
                Seq::<char>::empty(),
            ),
        ),
{
    let none = Seq::<char>::empty();
    let amount = decimal(output_amount);
    let e = json_string(tag) + (seq!['}'] + none);
    let e_member = json_string("tag"@) + (seq![':'] + e);
    let d = json_string(amount) + (seq![','] + e_member);
    let d_member = json_string("output_amount"@) + (seq![':'] + d);
    let c = json_string(output_token) + (seq![','] + d_member);
    let c_member = json_string("output_token"@) + (seq![':'] + c);
    let b = json_string(input_token) + (seq![','] + c_member);
    let b_member = json_string("input_token"@) + (seq![':'] + b);
    let a = json_strings(pool_ids) + (seq![','] + b_member);
    lemma_quote_keys(a, b, c, d, e);
    let front = "{\"pool_ids\":"@ + json_strings(pool_ids) + ",\"input_token\":"@ + json_string(
        input_token,
    );
    let open = ",\"output_amount\":\""@;
    let close = "\",\"tag\":"@;
    let head = front + ",\"output_token\":"@ + json_string(output_token);
    // The text, joined from its end.
    lemma_regroup_all(head + open, amount, close, json_string(tag), "}"@);
    lemma_regroup(head, open, amount + (close + e));
    lemma_quoted_between(",\"output_amount\":"@, output_amount, ",\"tag\":"@, e);
    lemma_regroup(front + ",\"output_token\":"@, json_string(output_token), seq![','] + d_member);
    lemma_regroup(front, ",\"output_token\":"@, c);
    lemma_regroup_all(
        "{\"pool_ids\":"@,
        json_strings(pool_ids),
        ",\"input_token\":"@,
        json_string(input_token),
        seq![','] + c_member,
    );
    lemma_quote_members(
        ("pool_ids"@, "input_token"@, "output_token"@, "output_amount"@, "tag"@),
        pool_ids,
        input_token,
        output_token,
        amount,
        tag,
        none,
    );
}

/// A quote and a swap of the same tokens and amount speak of the same pool, and carry the
/// same mark.
pub proof fn lemma_quote_and_swap_agree(
    input_token: AccountId,
    output_token: AccountId,
    output_amount: u128,
    quote: QuoteRequest,
    swap: SwapRequestMsg,
)
    requires
        quote.asks_for(input_token, output_token, output_amount),
        swap.asks_for(input_token@, output_token, output_amount),
    ensures
        swap matches SwapRequestMsg::SwapByOutput {
            pool_ids,
            output_token: token,
            output_amount: amount,
            client_id,
        } && {
            &&& string_texts(pool_ids@) == string_texts(quote.pool_ids@)
            &&& token == quote.output_token
            &&& amount == quote.output_amount
            &&& client_id@ == quote.tag@
        },
{
}

/// The name of a pool tells its tokens, and which of them goes in.
pub proof fn lemma_pool_id_injective(
    input1: Seq<char>,
    output1: Seq<char>,
    input2: Seq<char>,
    output2: Seq<char>,
)
    requires
        valid_account_id(input1),
        valid_account_id(output1),
        valid_account_id(input2),
        valid_account_id(output2),
        pool_id(input1, output1) == pool_id(input2, output2),
    ensures
        input1 == input2,
        output1 == output2,
{
    reveal_strlit("|");
    reveal_strlit("|100");
    let s = pool_id(input1, output1);
    let t = pool_id(input2, output2);
    assert(s =~= input1 + "|"@ + (output1 + "|100"@));
    assert(t =~= input2 + "|"@ + (output2 + "|100"@));
    lemma_first_bar(input1, output1 + "|100"@, input2, output2 + "|100"@);
    assert(output1 =~= s.subrange(input1.len() as int + 1, s.len() - 4));
    assert(output2 =~= t.subrange(input2.len() as int + 1, t.len() - 4));
}

/// The mark of a swap tells the token that goes in and the amount that is asked for.
pub proof fn lemma_swap_tag_injective(
    input1: Seq<char>,
    amount1: u128,
    input2: Seq<char>,
    amount2: u128,
)
    requires
        valid_account_id(input1),
        valid_account_id(input2),
        swap_tag(input1, amount1) == swap_tag(input2, amount2),
    ensures
        input1 == input2,
        amount1 == amount2,
{
    reveal_strlit("|");
    reveal_strlit("|100|");
    reveal_strlit("100|");
    let s = swap_tag(input1, amount1);
    let t = swap_tag(input2, amount2);
    assert("|100|"@ =~= "|"@ + "100|"@);
    assert(s =~= input1 + "|"@ + ("100|"@ + decimal(amount1 as nat)));
    assert(t =~= input2 + "|"@ + ("100|"@ + decimal(amount2 as nat)));
    lemma_first_bar(
        input1,
        "100|"@ + decimal(amount1 as nat),
        input2,
        "100|"@ + decimal(amount2 as nat),
    );
    assert(decimal(amount1 as nat) =~= s.skip(input1.len() as int + 5));
    assert(decimal(amount2 as nat) =~= t.skip(input2.len() as int + 5));
    lemma_decimal_injective(amount1 as nat, amount2 as nat);
}

proof fn lemma_first_bar(a: Seq<char>, x: Seq<char>, b: Seq<char>, y: Seq<char>)
    requires
        valid_account_id(a),
        valid_account_id(b),
        a + "|"@ + x == b + "|"@ + y,
    ensures
        a == b,
{
    reveal_strlit("|");
    let s = a + "|"@ + x;
    let t = b + "|"@ + y;
    if a.len() < b.len() {
        assert(s[a.len() as int] == '|');
        assert(t[a.len() as int] == b[a.len() as int]);
    } else if b.len() < a.len() {
        assert(t[b.len() as int] == '|');
        assert(s[b.len() as int] == a[b.len() as int]);
    }
    assert(a =~= s.take(a.len() as int));
    assert(b =~= t.take(b.len() as int));
}

} // verus!
