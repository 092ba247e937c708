//! Swapping through a solver of intents.

use vstd::prelude::*;
use vstd::utf8::{encode_utf8, encode_utf8_decode_utf8};

use crate::account::AccountId;
use crate::clock::{unix_millis, DURATION_MAX_MILLIS};
use crate::crypto::Signer;
use crate::error::{RpcError, RpcResult};
use crate::json::{
    json_optional_string, json_string, push_json_optional_string, push_json_string,
};
use crate::json_read::{
    lemma_first_member, lemma_key, lemma_last_member, lemma_number_reads_back, lemma_object,
    lemma_optional_reads_back, lemma_regroup, lemma_regroup_all, lemma_string_reads_back, member,
    optional, read_members, read_value, Json,
};
use crate::near::{
    access_key_error, get_access_key_data, has_next_nonce, QueryReply, QueryResponseKind,
};
use crate::network::Network;
use crate::swap::QuoteOutput;
use crate::text::{
    decimal, decimal_text, lemma_signed_decimal_injective, signed_decimal, signed_decimal_text,
};

verus! {

/// A request for a quote.
#[derive(Debug, Clone, PartialEq, Eq, PartialOrd, Ord)]
pub struct IntentsQuoteRequest {
    pub id: String,
    pub jsonrpc: String,
    pub method: String,
    pub params: Vec<IntentsQuoteParams>,
}

impl IntentsQuoteRequest {
    /// Wraps the parameters of a quote.
    pub fn new(id: String, params: IntentsQuoteParams) -> (request: Self)
        ensures
            request.id == id,
            request.jsonrpc@ == "2.0"@,
            request.method@ == "quote"@,
            request.params@ == seq![params],
    {
        IntentsQuoteRequest {
            id,
            jsonrpc: "2.0".to_owned(),
            method: "quote".to_owned(),
            params: vec![params],
        }
    }
}

/// What a quote is wanted for.
#[derive(Debug, Clone, PartialEq, Eq, PartialOrd, Ord)]
pub struct IntentsQuoteParams {
    pub defuse_asset_identifier_in: AccountId,
    pub defuse_asset_identifier_out: AccountId,
    pub exact_amount_in: u128,
    pub min_deadline_ms: u64,
    pub wait_ms: u64,
}

/// A quote.
#[derive(Debug, Clone, PartialEq, Eq, PartialOrd, Ord)]
pub struct IntentsQuoteResponse {
    pub defuse_asset_identifier_in: AccountId,
    pub defuse_asset_identifier_out: AccountId,
    pub amount_in: u128,
    pub amount_out: u128,
    pub expiration_date: u64,
    pub quote_hash: String,
}

impl QuoteOutput for IntentsQuoteResponse {
    open spec fn amount_quoted(&self) -> u128 {
        self.amount_out
    }

    fn to_u128(&self) -> u128 {
        self.amount_out
    }
}

/// A request to publish signed intents.
#[derive(Debug, Clone, PartialEq, Eq, PartialOrd, Ord)]
pub struct PublishIntentsRequest {
    pub id: String,
    pub jsonrpc: String,
    pub method: String,
    pub params: Vec<PublishIntentsParams>,
}

/// Signed intents, with the quotes that they accept.
#[derive(Debug, Clone, PartialEq, Eq, PartialOrd, Ord)]
pub struct PublishIntentsParams {
    pub signed_datas: Vec<SignedData>,
    pub quote_hashes: Vec<String>,
}

/// A signed message.
#[derive(Debug, Clone, PartialEq, Eq, PartialOrd, Ord)]
pub struct SignedData {
    pub standard: String,
    pub payload: SwapMessage,
    pub public_key: String,
    pub signature: String,
}

/// A message to a contract.
#[derive(Debug, Clone, PartialEq, Eq, PartialOrd, Ord)]
pub struct SwapMessage {
    pub message: String,
    pub nonce: u64,
    pub recipient: String,
}

/// The intents of an account.
#[derive(Debug, Clone, PartialEq, Eq)]
pub struct IntentMessage {
    /// Until when the intents stand, in milliseconds since the Unix epoch.
    pub deadline: u128,
    pub intents: Intents,
    pub signer_id: AccountId,
}

/// What an account wants to happen to its tokens.
#[derive(Debug, Clone, PartialEq, Eq)]
pub struct Intents {
    pub intent: String,
    /// The changes, one for each token.
    pub diff: Vec<TokenDiff>,
    pub referral: Option<String>,
    pub memo: Option<String>,
}

/// The change of the amount of a token, as a numeral with a sign.
#[derive(Debug, Clone, PartialEq, Eq)]
pub struct TokenDiff {
    pub token: String,
    pub amount: String,
}

impl View for TokenDiff {
    type V = (Seq<char>, Seq<char>);

    open spec fn view(&self) -> (Seq<char>, Seq<char>) {
        (self.token@, self.amount@)
    }
}

/// The text of an optional string.
pub open spec fn optional_text(text: Option<String>) -> Option<Seq<char>> {
    match text {
        Some(text) => Some(text@),
        None => None,
    }
}

/// How the solver names the token of a contract.
pub open spec fn token_name(contract: Seq<char>) -> Seq<char> {
    "nep141:"@ + contract
}

/// An amount as a signed number. An amount that does not fit counts as nothing.
pub open spec fn signed_amount(amount: u128) -> int {
    if amount <= i128::MAX {
        amount as int
    } else {
        0
    }
}

/// The changes that a quote stands for: the token given loses the amount in, the token taken
/// gains the amount out, and where they are the same token both changes are one.
pub open spec fn token_changes(quote: IntentsQuoteResponse) -> Seq<(Seq<char>, int)> {
    let given = quote.defuse_asset_identifier_in@;
    let taken = quote.defuse_asset_identifier_out@;
    let lost = signed_amount(quote.amount_in);
    let gained = signed_amount(quote.amount_out);
    if given == taken {
        seq![(token_name(given), gained - lost)]
    } else {
        seq![(token_name(given), -lost), (token_name(taken), gained)]
    }
}

/// Changes with their amounts written out.
pub open spec fn written(changes: Seq<(Seq<char>, int)>) -> Seq<(Seq<char>, Seq<char>)> {
    changes.map_values(|change: (Seq<char>, int)| (change.0, signed_decimal(change.1)))
}

/// The texts of some changes.
pub open spec fn diff_texts(diff: Seq<TokenDiff>) -> Seq<(Seq<char>, Seq<char>)> {
    diff.map_values(|change: TokenDiff| change@)
}

fn as_signed(amount: u128) -> (signed: i128)
    ensures
        signed == signed_amount(amount),
        signed >= 0,
{
    if amount <= i128::MAX as u128 {
        amount as i128
    } else {
        0
    }
}

fn change(contract: &AccountId, amount: i128) -> (change: TokenDiff)
    ensures
        change@ == (token_name(contract@), signed_decimal(amount as int)),
{
    TokenDiff {
        token: "nep141:".to_owned().concat(contract.as_str()),
        amount: signed_decimal_text(amount),
    }
}

fn token_diff(quote: &IntentsQuoteResponse) -> (diff: Vec<TokenDiff>)
    ensures
        diff_texts(diff@) == written(token_changes(*quote)),
{
    let lost: i128 = as_signed(quote.amount_in);
    let gained: i128 = as_signed(quote.amount_out);
    let given = &quote.defuse_asset_identifier_in;
    let taken = &quote.defuse_asset_identifier_out;
    let mut diff: Vec<TokenDiff> = Vec::new();
    if given.same_as(taken) {
        diff.push(change(given, gained - lost));
    } else {
        diff.push(change(given, -lost));
        diff.push(change(taken, gained));
    }
    assert(diff_texts(diff@) =~= written(token_changes(*quote)));
    diff
}

impl IntentMessage {
    /// Whether the message is the one that accepts a quote at the time `now`, in milliseconds
    /// since the Unix epoch: it stands for a minute.
    pub open spec fn accepts(
        self,
        quote: IntentsQuoteResponse,
        signer_id: AccountId,
        referral: Option<String>,
        memo: Option<String>,
        now: int,
    ) -> bool {
        &&& self.deadline == now + 60_000
        &&& self.intents.intent@ == "token_diff"@
        &&& diff_texts(self.intents.diff@) == written(token_changes(quote))
        &&& self.intents.referral == referral
        &&& self.intents.memo == memo
        &&& self.signer_id == signer_id
    }
}

/// The message that accepts a quote at the time that the clock said.
pub fn build_intent_message_at(
    quote: &IntentsQuoteResponse,
    signer_id: AccountId,
    referral: Option<String>,
    memo: Option<String>,
    now: Result<u128, String>,
) -> (message: RpcResult<IntentMessage>)
    requires
        now matches Ok(now) ==> now <= DURATION_MAX_MILLIS,
    ensures
        match now {
            Ok(now) => message matches Ok(message) && message.accepts(
                *quote,
                signer_id,
                referral,
                memo,
                now as int,
            ) && message.intents.well_formed(),
            Err(text) => message == Err::<IntentMessage, _>(RpcError::SystemTimeError(text)),
        },
{
    let diff = token_diff(quote);
    proof {
        lemma_tokens_distinct(*quote);
        assert(written(token_changes(*quote)).len() == token_changes(*quote).len());
        assert(diff_texts(diff@).len() == diff@.len());
        assert forall|i: int| 0 <= i < diff@.len() implies (#[trigger] diff@[i]).token@
            == token_changes(*quote)[i].0 by {
            assert(diff_texts(diff@)[i] == diff@[i]@);
            assert(written(token_changes(*quote))[i].0 == token_changes(*quote)[i].0);
        }
    }
    let now: u128 = match now {
        Ok(now) => now,
        Err(text) => return Err(RpcError::SystemTimeError(text)),
    };
    Ok(
        IntentMessage {
            deadline: now + 60_000,
            intents: Intents { intent: "token_diff".to_owned(), diff, referral, memo },
            signer_id,
        },
    )
}

/// The message that accepts a quote at the time that the wall clock says.
pub fn build_intent_message(
    quote: &IntentsQuoteResponse,
    signer_id: AccountId,
    referral: Option<String>,
    memo: Option<String>,
) -> (message: RpcResult<IntentMessage>)
    ensures
        exists|now: Result<u128, String>|
            {
                &&& #[trigger] call_ensures(unix_millis, (), now)
                &&& match now {
                    Ok(now) => message matches Ok(message) && message.accepts(
                        *quote,
                        signer_id,
                        referral,
                        memo,
                        now as int,
                    ) && message.intents.well_formed(),
                    Err(text) => message == Err::<IntentMessage, _>(
                        RpcError::SystemTimeError(text),
                    ),
                }
            },
{
    build_intent_message_at(quote, signer_id, referral, memo, unix_millis())
}

/// The JSON of a change: the token and its amount, as a member of an object.
pub open spec fn change_json(change: (Seq<char>, Seq<char>)) -> Seq<char> {
    json_string(change.0) + ":"@ + json_string(change.1)
}

/// The JSON of changes that stand behind another one.
pub open spec fn more_changes_json(changes: Seq<(Seq<char>, Seq<char>)>) -> Seq<char>
    decreases changes.len(),
{
    if changes.len() == 0 {
        Seq::empty()
    } else {
        ","@ + change_json(changes[0]) + more_changes_json(changes.skip(1))
    }
}

/// The JSON of changes: an object with one member for each token.
pub open spec fn changes_json(changes: Seq<(Seq<char>, Seq<char>)>) -> Seq<char> {
    if changes.len() == 0 {
        "{}"@
    } else {
        "{"@ + change_json(changes[0]) + more_changes_json(changes.skip(1)) + "}"@
    }
}

/// The JSON of intents with these parts.
pub open spec fn intents_json(
    intent: Seq<char>,
    diff: Seq<(Seq<char>, Seq<char>)>,
    referral: Option<Seq<char>>,
    memo: Option<Seq<char>>,
) -> Seq<char> {
    "{\"intent\":"@ + json_string(intent) + ",\"diff\":"@ + changes_json(diff)
        + ",\"referral\":"@ + json_optional_string(referral) + ",\"memo\":"@
        + json_optional_string(memo) + "}"@
}

/// The JSON of an intent message around the JSON of its intents.
pub open spec fn intent_message_json(deadline: nat, intents: Seq<char>, signer_id: Seq<char>) -> Seq<
    char,
> {
    "{\"deadline\":"@ + decimal(deadline) + ",\"intents\":"@ + intents + ",\"signer_id\":"@
        + json_string(signer_id) + "}"@
}

/// The JSON of a swap message with these parts.
pub open spec fn swap_message_json(message: Seq<char>, nonce: nat, recipient: Seq<char>) -> Seq<
    char,
> {
    "{\"message\":"@ + json_string(message) + ",\"nonce\":"@ + decimal(nonce)
        + ",\"recipient\":"@ + json_string(recipient) + "}"@
}

fn push_change(out: &mut String, change: &TokenDiff)
    ensures
        final(out)@ == old(out)@ + change_json(change@),
{
    push_json_string(out, change.token.as_str());
    out.append(":");
    push_json_string(out, change.amount.as_str());
    assert(out@ =~= old(out)@ + change_json(change@));
}

fn push_changes(out: &mut String, diff: &Vec<TokenDiff>)
    ensures
        final(out)@ == old(out)@ + changes_json(diff_texts(diff@)),
{
    let ghost texts = diff_texts(diff@);
    if diff.len() == 0 {
        out.append("{}");
        return ;
    }
    out.append("{");
    push_change(out, &diff[0]);
    let ghost whole = old(out)@ + "{"@ + change_json(texts[0]) + more_changes_json(texts.skip(1));
    assert(out@ + more_changes_json(texts.skip(1)) == whole);
    let mut i: usize = 1;
    while i < diff.len()
        invariant
            1 <= i <= diff@.len(),
            texts == diff_texts(diff@),
            out@ + more_changes_json(texts.skip(i as int)) == whole,
        decreases diff@.len() - i,
    {
        let ghost rest = texts.skip(i as int);
        let ghost before = out@;
        out.append(",");
        push_change(out, &diff[i]);
        assert(rest[0] == diff@[i as int]@);
        assert(rest.skip(1) =~= texts.skip(i + 1));
        assert(out@ + more_changes_json(rest.skip(1)) =~= before + more_changes_json(rest));
        i += 1;
    }
    assert(out@ + more_changes_json(texts.skip(i as int)) =~= out@);
    out.append("}");
    assert(out@ =~= old(out)@ + changes_json(texts));
}

impl Intents {
    /// No token occurs twice.
    pub open spec fn well_formed(self) -> bool {
        forall|i: int, j: int|
            #![trigger self.diff@[i], self.diff@[j]]
            0 <= i < j < self.diff@.len() ==> self.diff@[i].token@ != self.diff@[j].token@
    }

    /// The JSON of the intents.
    pub open spec fn json(self) -> Seq<char> {
        intents_json(
            self.intent@,
            diff_texts(self.diff@),
            optional_text(self.referral),
            optional_text(self.memo),
        )
    }

    /// Writes the intents as JSON.
    pub fn to_json(&self) -> (json: String)
        ensures
            json@ == self.json(),
    {
        let mut out = "{\"intent\":".to_owned();
        push_json_string(&mut out, self.intent.as_str());
        out.append(",\"diff\":");
        push_changes(&mut out, &self.diff);
        out.append(",\"referral\":");
        push_json_optional_string(&mut out, &self.referral);
        out.append(",\"memo\":");
        push_json_optional_string(&mut out, &self.memo);
        out.append("}");
        out
    }
}

impl IntentMessage {
    /// The JSON of the message.
    pub open spec fn json(self) -> Seq<char> {
        intent_message_json(self.deadline as nat, self.intents.json(), self.signer_id@)
    }

    /// Writes the message as JSON.
    pub fn to_json(&self) -> (json: String)
        ensures
            json@ == self.json(),
    {
        let mut out = "{\"deadline\":".to_owned();
        out.append(decimal_text(self.deadline).as_str());
        out.append(",\"intents\":");
        out.append(self.intents.to_json().as_str());
        out.append(",\"signer_id\":");
        push_json_string(&mut out, self.signer_id.as_str());
        out.append("}");
        out
    }
}

impl SwapMessage {
    /// The JSON of the message.
    pub open spec fn json(self) -> Seq<char> {
        swap_message_json(self.message@, self.nonce as nat, self.recipient@)
    }

    /// Writes the message as JSON.
    pub fn to_json(&self) -> (json: String)
        ensures
            json@ == self.json(),
    {
        let mut out = "{\"message\":".to_owned();
        push_json_string(&mut out, self.message.as_str());
        out.append(",\"nonce\":");
        out.append(decimal_text(self.nonce as u128).as_str());
        out.append(",\"recipient\":");
        push_json_string(&mut out, self.recipient.as_str());
        out.append("}");
        out
    }
}

impl PublishIntentsRequest {
    /// Whether the request publishes the text of a message, signed by a signer under a nonce,
    /// as the acceptance of some quotes. The signature is that of the JSON of the payload that
    /// the request carries.
    pub open spec fn publishes(
        self,
        signer: Signer,
        message: Seq<char>,
        nonce: u64,
        quote_hashes: Seq<String>,
    ) -> bool {
        &&& self.id@ == "dontcare"@
        &&& self.jsonrpc@ == "2.0"@
        &&& self.method@ == "publish_intents"@
        &&& self.params@.len() == 1
        &&& self.params@[0].quote_hashes@ == quote_hashes
        &&& self.params@[0].signed_datas@.len() == 1
        &&& {
            let data = self.params@[0].signed_datas@[0];
            &&& data.standard@ == "nep413"@
            &&& data.payload.message@ == message
            &&& data.payload.nonce == nonce
            &&& data.payload.recipient@ == "intents.near"@
            &&& data.public_key@ == signer.key().text()
            &&& data.signature@ == signer.signature(encode_utf8(data.payload.json()))
        }
    }
}

/// Signs a message and makes the request that publishes it.
pub fn make_publish_request(
    signer: &Signer,
    intent_message: &IntentMessage,
    nonce: u64,
    quote_hashes: Vec<String>,
) -> (request: RpcResult<PublishIntentsRequest>)
    requires
        signer.signs_messages(),
    ensures
        request matches Ok(request) && {
            &&& request.publishes(*signer, intent_message.json(), nonce, quote_hashes@)
            &&& read_intent_message(request.params@[0].signed_datas@[0].payload.message@) == Some(
                intent_message@,
            )
        },
{
    proof {
        lemma_intent_message_reads_back(*intent_message);
    }
    let payload = SwapMessage {
        message: intent_message.to_json(),
        nonce,
        recipient: "intents.near".to_owned(),
    };
    let payload_json = payload.to_json();
    let signature = signer.sign(payload_json.as_str().as_bytes());
    let signed_data = SignedData {
        standard: "nep413".to_owned(),
        payload,
        public_key: signer.public_key_text(),
        signature,
    };
    Ok(
        PublishIntentsRequest {
            id: "dontcare".to_owned(),
            jsonrpc: "2.0".to_owned(),
            method: "publish_intents".to_owned(),
            params: vec![PublishIntentsParams { signed_datas: vec![signed_data], quote_hashes }],
        },
    )
}

/// The name that a request for a quote goes by.
pub open spec fn quote_id(from: Seq<char>, to: Seq<char>, amount: u128) -> Seq<char> {
    "quote-"@ + from + "-"@ + to + "-U128("@ + decimal(amount as nat) + ")"@
}

impl IntentsQuoteRequest {
    /// Whether the request asks for a quote that turns an amount of one token into another:
    /// one that stands for a minute, with half a second for solvers to answer.
    pub open spec fn asks_for(self, from: AccountId, to: AccountId, amount: u128) -> bool {
        &&& self.id@ == quote_id(from@, to@, amount)
        &&& self.jsonrpc@ == "2.0"@
        &&& self.method@ == "quote"@
        &&& self.params@ == seq![
            IntentsQuoteParams {
                defuse_asset_identifier_in: from,
                defuse_asset_identifier_out: to,
                exact_amount_in: amount,
                min_deadline_ms: 60_000,
                wait_ms: 500,
            },
        ]
    }
}

/// Why no answer of a solver came.
#[derive(Debug, Clone, PartialEq, Eq)]
pub enum SolverFailure {
    /// The request failed, with the text of the failure.
    Request(String),
    /// The response could not be read, with the text of the failure.
    Response(String),
}

/// What a request to a solver led to.
pub type SolverReply<T> = Result<T, SolverFailure>;

/// The error that the failure of a solver amounts to.
pub open spec fn solver_error(failure: SolverFailure) -> RpcError {
    match failure {
        SolverFailure::Request(text) => RpcError::SolverRequestError(text),
        SolverFailure::Response(text) => RpcError::SolverResponseDeserialization(text),
    }
}

/// The quote in the reply of a solver. One without a hash is none.
pub open spec fn quoted(reply: SolverReply<IntentsQuoteResponse>) -> RpcResult<
    IntentsQuoteResponse,
> {
    match reply {
        Ok(response) => if response.quote_hash@.len() == 0 {
            Err(RpcError::NoQuoteHashReceived)
        } else {
            Ok(response)
        },
        Err(failure) => Err(solver_error(failure)),
    }
}

fn error_of(failure: SolverFailure) -> (error: RpcError)
    ensures
        error == solver_error(failure),
{
    match failure {
        SolverFailure::Request(text) => RpcError::SolverRequestError(text),
        SolverFailure::Response(text) => RpcError::SolverResponseDeserialization(text),
    }
}

/// A swap whose quote is awaited.
#[derive(Debug, PartialEq, Eq)]
pub struct PendingSwap {
    /// The nonce that the acceptance is signed under.
    pub nonce: u64,
    /// The request for the quote.
    pub request: IntentsQuoteRequest,
}

/// Swaps through a solver of intents.
pub struct IntentsSwap {
    pub solver_url: String,
    pub signer: Signer,
}

impl IntentsSwap {
    /// Swaps on a network. There is a solver on the main network only.
    pub fn new(network: Network, signer: Signer) -> (swap: Self)
        requires
            network is Mainnet,
        ensures
            swap.solver_url@ == "https://solver-relay-v2.chaindefuser.com/rpc"@,
            swap.signer == signer,
    {
        IntentsSwap {
            solver_url: "https://solver-relay-v2.chaindefuser.com/rpc".to_owned(),
            signer,
        }
    }

    /// The request that a quote is asked for with.
    pub fn quote_request(&self, from: &AccountId, to: &AccountId, amount: u128) -> (request:
        IntentsQuoteRequest)
        ensures
            request.asks_for(*from, *to, amount),
    {
        let mut id = "quote-".to_owned();
        id.append(from.as_str());
        id.append("-");
        id.append(to.as_str());
        id.append("-U128(");
        id.append(decimal_text(amount).as_str());
        id.append(")");
        IntentsQuoteRequest::new(
            id,
            IntentsQuoteParams {
                defuse_asset_identifier_in: from.clone(),
                defuse_asset_identifier_out: to.clone(),
                exact_amount_in: amount,
                min_deadline_ms: 60_000,
                wait_ms: 500,
            },
        )
    }

    /// Reads the reply to the request for a quote. A quote without a hash is none.
    pub fn quote(&self, reply: SolverReply<IntentsQuoteResponse>) -> (quote: RpcResult<
        IntentsQuoteResponse,
    >)
        ensures
            quote == quoted(reply),
            reply matches Ok(response) ==> quote == (if response.quote_hash@.len() > 0 {
                Ok(response)
            } else {
                Err(RpcError::NoQuoteHashReceived)
            }),
    {
        let response = match reply {
            Ok(response) => response,
            Err(failure) => return Err(error_of(failure)),
        };
        if response.quote_hash.as_str().is_empty() {
            Err(RpcError::NoQuoteHashReceived)
        } else {
            Ok(response)
        }
    }

    /// Starts a swap with the reply to the question for the signer's access key: the quote is
    /// to be asked for, and the swap goes on with [`publish`](Self::publish).
    pub fn swap(&self, from: &AccountId, to: &AccountId, amount: u128, access_key: QueryReply)
        -> (pending: RpcResult<PendingSwap>)
        requires
            has_next_nonce(access_key),
        ensures
            match pending {
                Ok(pending) => {
                    &&& access_key matches Ok(response)
                    &&& response.kind matches QueryResponseKind::AccessKey { nonce }
                    &&& pending.nonce == nonce + 1
                    &&& pending.request.asks_for(*from, *to, amount)
                },
                Err(error) => access_key_error(access_key, error),
            },
    {
        match get_access_key_data(access_key) {
            Ok(data) => Ok(
                PendingSwap { nonce: data.0, request: self.quote_request(from, to, amount) },
            ),
            Err(error) => Err(error),
        }
    }

    /// Whether a request accepts a quote at the time `now`: it publishes, under a nonce, the
    /// message that makes the changes of the quote, without referral or memo, and names the
    /// quote by its hash.
    pub open spec fn accepts_quote(
        self,
        nonce: u64,
        quote: IntentsQuoteResponse,
        now: int,
        request: PublishIntentsRequest,
    ) -> bool {
        request.publishes(
            self.signer,
            intent_message_json(
                (now + 60_000) as nat,
                intents_json("token_diff"@, written(token_changes(quote)), None, None),
                self.signer.account()@,
            ),
            nonce,
            seq![quote.quote_hash],
        )
    }

    /// Whether a result is what a quote leads to where the clock reads `now`: the request that
    /// accepts it, or the failure of the clock.
    pub open spec fn answers_quote(
        self,
        nonce: u64,
        quote: IntentsQuoteResponse,
        now: Result<u128, String>,
        request: RpcResult<PublishIntentsRequest>,
    ) -> bool {
        match now {
            Ok(now) => request matches Ok(request) && self.accepts_quote(
                nonce,
                quote,
                now as int,
                request,
            ),
            Err(text) => request == Err::<PublishIntentsRequest, _>(
                RpcError::SystemTimeError(text),
            ),
        }
    }

    /// Whether a result is what the reply to the request for a quote leads to, at the time that
    /// the wall clock says.
    pub open spec fn answers_now(
        self,
        nonce: u64,
        reply: SolverReply<IntentsQuoteResponse>,
        request: RpcResult<PublishIntentsRequest>,
    ) -> bool {
        match quoted(reply) {
            Ok(quote) => exists|now: Result<u128, String>|
                {
                    &&& #[trigger] call_ensures(unix_millis, (), now)
                    &&& self.answers_quote(nonce, quote, now, request)
                },
            Err(error) => request == Err::<PublishIntentsRequest, _>(error),
        }
    }

    /// Goes on with a swap once the reply to the request for a quote has come and the clock has
    /// been read: the request that accepts the quote is to be sent to the solver.
    pub fn publish_at(
        &self,
        nonce: u64,
        reply: SolverReply<IntentsQuoteResponse>,
        now: Result<u128, String>,
    ) -> (request: RpcResult<PublishIntentsRequest>)
        requires
            quoted(reply) is Ok && now is Ok ==> self.signer.signs_messages(),
            now matches Ok(now) ==> now <= DURATION_MAX_MILLIS,
        ensures
            match quoted(reply) {
                Ok(quote) => self.answers_quote(nonce, quote, now, request),
                Err(error) => request == Err::<PublishIntentsRequest, _>(error),
            },
    {
        let quote = match self.quote(reply) {
            Ok(quote) => quote,
            Err(error) => return Err(error),
        };
        let message = match build_intent_message_at(
            &quote,
            self.signer.account_id().clone(),
            None,
            None,
            now,
        ) {
            Ok(message) => message,
            Err(error) => return Err(error),
        };
        let mut quote_hashes: Vec<String> = Vec::new();
        quote_hashes.push(quote.quote_hash);
        make_publish_request(&self.signer, &message, nonce, quote_hashes)
    }

    /// Goes on with a swap once the reply to the request for a quote has come, at the time that
    /// the wall clock says.
    pub fn publish(&self, nonce: u64, reply: SolverReply<IntentsQuoteResponse>) -> (request:
        RpcResult<PublishIntentsRequest>)
        requires
            quoted(reply) is Ok ==> self.signer.signs_messages(),
        ensures
            self.answers_now(nonce, reply, request),
    {
        self.publish_at(nonce, reply, unix_millis())
    }

    /// Goes on with a swap as [`publish`](Self::publish) does. There is no result where a quote
    /// has come that the key cannot sign an acceptance of.
    pub fn try_publish(&self, nonce: u64, reply: SolverReply<IntentsQuoteResponse>) -> (request:
        Option<RpcResult<PublishIntentsRequest>>)
        ensures
            match request {
                Some(request) => {
                    &&& quoted(reply) is Ok ==> self.signer.signs_messages()
                    &&& self.answers_now(nonce, reply, request)
                },
                None => quoted(reply) is Ok && !self.signer.signs_messages(),
            },
    {
        match self.quote(reply) {
            Ok(quote) => if self.signer.can_sign_messages() {
                Some(self.publish(nonce, Ok(quote)))
            } else {
                None
            },
            Err(error) => Some(Err(error)),
        }
    }

    /// Reads the reply to the request that accepts a quote.
    pub fn published<T>(&self, reply: SolverReply<T>) -> (answer: RpcResult<T>)
        ensures
            answer == (match reply {
                Ok(answer) => Ok(answer),
                Err(failure) => Err(solver_error(failure)),
            }),
    {
        match reply {
            Ok(answer) => Ok(answer),
            Err(failure) => Err(error_of(failure)),
        }
    }
}

proof fn lemma_strip(prefix: Seq<char>, x: Seq<char>, y: Seq<char>)
    requires
        prefix + x == prefix + y,
    ensures
        x == y,
{
    assert(x =~= (prefix + x).skip(prefix.len() as int));
    assert(y =~= (prefix + y).skip(prefix.len() as int));
}


/// What an intent message says.
#[verifier::ext_equal]
pub struct IntentMessageParts {
    pub deadline: nat,
    pub intent: Seq<char>,
    /// The changes, each a token and an amount.
    pub diff: Seq<(Seq<char>, Seq<char>)>,
    pub referral: Option<Seq<char>>,
    pub memo: Option<Seq<char>>,
    pub signer_id: Seq<char>,
}

impl View for IntentMessage {
    type V = IntentMessageParts;

    open spec fn view(&self) -> IntentMessageParts {
        IntentMessageParts {
            deadline: self.deadline as nat,
            intent: self.intents.intent@,
            diff: diff_texts(self.intents.diff@),
            referral: optional_text(self.intents.referral),
            memo: optional_text(self.intents.memo),
            signer_id: self.signer_id@,
        }
    }
}

/// What a swap message says.
#[verifier::ext_equal]
pub struct SwapMessageParts {
    pub message: Seq<char>,
    pub nonce: nat,
    pub recipient: Seq<char>,
}

impl View for SwapMessage {
    type V = SwapMessageParts;

    open spec fn view(&self) -> SwapMessageParts {
        SwapMessageParts {
            message: self.message@,
            nonce: self.nonce as nat,
            recipient: self.recipient@,
        }
    }
}

/// The text of the member of a name.
pub open spec fn text_member(members: Seq<(Seq<char>, Json)>, name: Seq<char>) -> Option<Seq<char>> {
    match member(members, name) {
        Some(Json::Text(text)) => Some(text),
        _ => None,
    }
}

/// The number of the member of a name.
pub open spec fn number_member(members: Seq<(Seq<char>, Json)>, name: Seq<char>) -> Option<nat> {
    match member(members, name) {
        Some(Json::Number(n)) => Some(n),
        _ => None,
    }
}

/// The members of the object that is the member of a name.
pub open spec fn object_member(members: Seq<(Seq<char>, Json)>, name: Seq<char>) -> Option<
    Seq<(Seq<char>, Json)>,
> {
    match member(members, name) {
        Some(Json::Object(inner)) => Some(inner),
        _ => None,
    }
}

/// The optional text of the member of a name: nothing where it is `null` or missing.
pub open spec fn optional_member(members: Seq<(Seq<char>, Json)>, name: Seq<char>) -> Option<
    Option<Seq<char>>,
> {
    match member(members, name) {
        Some(Json::Text(text)) => Some(Some(text)),
        Some(Json::Null) => Some(None),
        None => Some(None),
        _ => None,
    }
}

/// The changes that the members of an object are, each of them a text.
pub open spec fn changes_of(members: Seq<(Seq<char>, Json)>) -> Option<
    Seq<(Seq<char>, Seq<char>)>,
> {
    if forall|i: int| 0 <= i < members.len() ==> (#[trigger] members[i]).1 is Text {
        Some(members.map_values(|change: (Seq<char>, Json)| (change.0, change.1->Text_0)))
    } else {
        None
    }
}

/// The intent message that the members of an object are: each part is found by its name.
pub open spec fn intent_message_of(members: Seq<(Seq<char>, Json)>) -> Option<IntentMessageParts> {
    match (
        number_member(members, "deadline"@),
        object_member(members, "intents"@),
        text_member(members, "signer_id"@),
    ) {
        (Some(deadline), Some(intents), Some(signer_id)) => match (
            text_member(intents, "intent"@),
            object_member(intents, "diff"@),
            optional_member(intents, "referral"@),
            optional_member(intents, "memo"@),
        ) {
            (Some(intent), Some(diff), Some(referral), Some(memo)) => match changes_of(diff) {
                Some(diff) => Some(
                    IntentMessageParts { deadline, intent, diff, referral, memo, signer_id },
                ),
                None => None,
            },
            _ => None,
        },
        _ => None,
    }
}

/// The swap message that the members of an object are: each part is found by its name.
pub open spec fn swap_message_of(members: Seq<(Seq<char>, Json)>) -> Option<SwapMessageParts> {
    match (
        text_member(members, "message"@),
        number_member(members, "nonce"@),
        text_member(members, "recipient"@),
    ) {
        (Some(message), Some(nonce), Some(recipient)) => Some(
            SwapMessageParts { message, nonce, recipient },
        ),
        _ => None,
    }
}

/// Reads a JSON text as an intent message.
pub open spec fn read_intent_message(s: Seq<char>) -> Option<IntentMessageParts> {
    match read_value(s) {
        Some((Json::Object(members), rest)) if rest.len() == 0 => intent_message_of(members),
        _ => None,
    }
}

/// Reads a JSON text as a swap message.
pub open spec fn read_swap_message(s: Seq<char>) -> Option<SwapMessageParts> {
    match read_value(s) {
        Some((Json::Object(members), rest)) if rest.len() == 0 => swap_message_of(members),
        _ => None,
    }
}

/// The members of the object that changes are written as.
spec fn change_members(changes: Seq<(Seq<char>, Seq<char>)>) -> Seq<(Seq<char>, Json)> {
    changes.map_values(|change: (Seq<char>, Seq<char>)| (change.0, Json::Text(change.1)))
}

/// The members of the object that intents are written as.
spec fn intents_members(
    intent: Seq<char>,
    diff: Seq<(Seq<char>, Seq<char>)>,
    referral: Option<Seq<char>>,
    memo: Option<Seq<char>>,
) -> Seq<(Seq<char>, Json)> {
    seq![
        ("intent"@, Json::Text(intent)),
        ("diff"@, Json::Object(change_members(diff))),
        ("referral"@, optional(referral)),
        ("memo"@, optional(memo)),
    ]
}

proof fn lemma_changes_inside(changes: Seq<(Seq<char>, Seq<char>)>, x: Seq<char>)
    requires
        changes.len() > 0,
    ensures
        read_members(
            change_json(changes[0]) + (more_changes_json(changes.skip(1)) + (seq!['}'] + x)),
        ) == Some((change_members(changes), x)),
    decreases changes.len(),
{
    reveal_strlit(":");
    reveal_strlit(",");
    let name = changes[0].0;
    let amount = changes[0].1;
    let rest = changes.skip(1);
    let text = json_string(amount);
    let tail = more_changes_json(rest) + (seq!['}'] + x);
    assert(":"@ =~= seq![':']);
    assert(","@ =~= seq![',']);
    assert(change_json(changes[0]) + tail =~= json_string(name) + (seq![':'] + (text + tail)));
    lemma_string_reads_back(amount, tail);
    if rest.len() == 0 {
        assert(tail =~= seq!['}'] + x);
        lemma_last_member(name, Json::Text(amount), text, x);
        assert(seq![(name, Json::Text(amount))] =~= change_members(changes));
    } else {
        let others = change_json(rest[0]) + (more_changes_json(rest.skip(1)) + (seq!['}'] + x));
        assert(tail =~= seq![','] + others);
        lemma_changes_inside(rest, x);
        lemma_first_member(name, Json::Text(amount), text, others, change_members(rest), x);
        assert(seq![(name, Json::Text(amount))] + change_members(rest) =~= change_members(changes));
    }
}

proof fn lemma_changes_read_back(changes: Seq<(Seq<char>, Seq<char>)>, x: Seq<char>)
    ensures
        read_value(changes_json(changes) + x) == Some((Json::Object(change_members(changes)), x)),
{
    let s = changes_json(changes) + x;
    if changes.len() == 0 {
        reveal_with_fuel(read_value, 1);
        reveal_strlit("{}");
        assert(s[0] == '{');
        assert(s[1] == '}');
        assert(s.skip(2) =~= x);
        assert(change_members(changes) =~= Seq::empty());
    } else {
        reveal_strlit("{");
        reveal_strlit("}");
        let first = change_json(changes[0]);
        let inside = first + (more_changes_json(changes.skip(1)) + (seq!['}'] + x));
        assert("}"@ =~= seq!['}']);
        assert(s =~= seq!['{'] + inside);
        lemma_changes_inside(changes, x);
        assert(inside[0] == '"');
        lemma_object(inside, change_members(changes), x);
    }
}

proof fn lemma_intents_keys(a: Seq<char>, b: Seq<char>, c: Seq<char>, d: Seq<char>)
    ensures
        "{\"intent\":"@ + a == seq!['{'] + (json_string("intent"@) + (seq![':'] + a)),
        ",\"diff\":"@ + b == seq![','] + (json_string("diff"@) + (seq![':'] + b)),
        ",\"referral\":"@ + c == seq![','] + (json_string("referral"@) + (seq![':'] + c)),
        ",\"memo\":"@ + d == seq![','] + (json_string("memo"@) + (seq![':'] + d)),
        json_string("intent"@)[0] == '"',
{
    reveal_strlit("{\"intent\":");
    reveal_strlit("intent");
    reveal_strlit(",\"diff\":");
    reveal_strlit("diff");
    reveal_strlit(",\"referral\":");
    reveal_strlit("referral");
    reveal_strlit(",\"memo\":");
    reveal_strlit("memo");
    assert("{\"intent\":"@ =~= seq!['{', '"'] + "intent"@ + seq!['"', ':']);
    lemma_key("{\"intent\":"@, '{', "intent"@, a);
    assert(",\"diff\":"@ =~= seq![',', '"'] + "diff"@ + seq!['"', ':']);
    lemma_key(",\"diff\":"@, ',', "diff"@, b);
    assert(",\"referral\":"@ =~= seq![',', '"'] + "referral"@ + seq!['"', ':']);
    lemma_key(",\"referral\":"@, ',', "referral"@, c);
    assert(",\"memo\":"@ =~= seq![',', '"'] + "memo"@ + seq!['"', ':']);
    lemma_key(",\"memo\":"@, ',', "memo"@, d);
}

/// An object of a text, changes and two optional texts, under any names, reads back.
proof fn lemma_four_members(
    names: (Seq<char>, Seq<char>, Seq<char>, Seq<char>),
    intent: Seq<char>,
    diff: Seq<(Seq<char>, Seq<char>)>,
    referral: Option<Seq<char>>,
    memo: Option<Seq<char>>,
    x: Seq<char>,
)
    ensures
        ({
            let d = json_optional_string(memo) + (seq!['}'] + x);
            let d_member = json_string(names.3) + (seq![':'] + d);
            let c = json_optional_string(referral) + (seq![','] + d_member);
            let c_member = json_string(names.2) + (seq![':'] + c);
            let b = changes_json(diff) + (seq![','] + c_member);
            let b_member = json_string(names.1) + (seq![':'] + b);
            let a = json_string(intent) + (seq![','] + b_member);
            let a_member = json_string(names.0) + (seq![':'] + a);
            read_value(seq!['{'] + a_member) == Some(
                (
                    Json::Object(
                        seq![
                            (names.0, Json::Text(intent)),
                            (names.1, Json::Object(change_members(diff))),
                            (names.2, optional(referral)),
                            (names.3, optional(memo)),
                        ],
                    ),
                    x,
                ),
            )
        }),
{
    let d_text = json_optional_string(memo);
    let d_member = json_string(names.3) + (seq![':'] + (d_text + (seq!['}'] + x)));
    let c_text = json_optional_string(referral);
    let c_member = json_string(names.2) + (seq![':'] + (c_text + (seq![','] + d_member)));
    let b_text = changes_json(diff);
    let b_member = json_string(names.1) + (seq![':'] + (b_text + (seq![','] + c_member)));
    let a_text = json_string(intent);
    let a_member = json_string(names.0) + (seq![':'] + (a_text + (seq![','] + b_member)));
    let m4 = seq![(names.3, optional(memo))];
    let m3 = seq![(names.2, optional(referral))] + m4;
    let m2 = seq![(names.1, Json::Object(change_members(diff)))] + m3;
    let m1 = seq![(names.0, Json::Text(intent))] + m2;
    lemma_optional_reads_back(memo, seq!['}'] + x);
    lemma_last_member(names.3, optional(memo), d_text, x);
    lemma_optional_reads_back(referral, seq![','] + d_member);
    lemma_first_member(names.2, optional(referral), c_text, d_member, m4, x);
    lemma_changes_read_back(diff, seq![','] + c_member);
    lemma_first_member(names.1, Json::Object(change_members(diff)), b_text, c_member, m3, x);
    lemma_string_reads_back(intent, seq![','] + b_member);
    lemma_first_member(names.0, Json::Text(intent), a_text, b_member, m2, x);
    assert(a_member[0] == '"');
    lemma_object(a_member, m1, x);
    assert(m1 =~= seq![
        (names.0, Json::Text(intent)),
        (names.1, Json::Object(change_members(diff))),
        (names.2, optional(referral)),
        (names.3, optional(memo)),
    ]);
}

proof fn lemma_intents_read_back(
    intent: Seq<char>,
    diff: Seq<(Seq<char>, Seq<char>)>,
    referral: Option<Seq<char>>,
    memo: Option<Seq<char>>,
    x: Seq<char>,
)
    ensures
        read_value(intents_json(intent, diff, referral, memo) + x) == Some(
            (Json::Object(intents_members(intent, diff, referral, memo)), x),
        ),
{
    assert("}"@ == seq!['}']) by {
        reveal_strlit("}");
        assert("}"@ =~= seq!['}']);
    }
    let d = json_optional_string(memo) + (seq!['}'] + x);
    let c = json_optional_string(referral) + (seq![','] + (json_string("memo"@) + (seq![':'] + d)));
    let b = changes_json(diff) + (seq![','] + (json_string("referral"@) + (seq![':'] + c)));
    let a = json_string(intent) + (seq![','] + (json_string("diff"@) + (seq![':'] + b)));
    lemma_intents_regroup(intent, diff, referral, memo, x);
    lemma_intents_keys(a, b, c, d);
    lemma_four_members(
        ("intent"@, "diff"@, "referral"@, "memo"@),
        intent,
        diff,
        referral,
        memo,
        x,
    );
}

proof fn lemma_intents_parts(
    intent: Seq<char>,
    diff: Seq<(Seq<char>, Seq<char>)>,
    referral: Option<Seq<char>>,
    memo: Option<Seq<char>>,
)
    ensures
        ({
            let members = intents_members(intent, diff, referral, memo);
            &&& text_member(members, "intent"@) == Some(intent)
            &&& object_member(members, "diff"@) == Some(change_members(diff))
            &&& optional_member(members, "referral"@) == Some(referral)
            &&& optional_member(members, "memo"@) == Some(memo)
        }),
        changes_of(change_members(diff)) == Some(diff),
{
    reveal_strlit("intent");
    reveal_strlit("diff");
    reveal_strlit("referral");
    reveal_strlit("memo");
    reveal_with_fuel(member, 5);
    let members = intents_members(intent, diff, referral, memo);
    assert("intent"@.len() == 6 && "diff"@.len() == 4 && "referral"@.len() == 8);
    assert("memo"@.len() == 4 && "memo"@[0] == 'm' && "diff"@[0] == 'd');
    assert(members.skip(1)[0] == members[1]);
    assert(members.skip(1).skip(1)[0] == members[2]);
    assert(members.skip(1).skip(1).skip(1)[0] == members[3]);
    assert(change_members(diff).map_values(
        |change: (Seq<char>, Json)| (change.0, change.1->Text_0),
    ) =~= diff);
}

/// The JSON of an intent message reads back as what the message says.
pub proof fn lemma_intent_message_reads_back(message: IntentMessage)
    ensures
        read_intent_message(message.json()) == Some(message@),
{
    lemma_intent_parts_read_back(
        message.deadline as nat,
        message.intents.intent@,
        diff_texts(message.intents.diff@),
        optional_text(message.intents.referral),
        optional_text(message.intents.memo),
        message.signer_id@,
    );
}

/// What the intents in a JSON text say: the intent, the changes, the referral and the memo, each
/// found by its name.
pub open spec fn read_intents(s: Seq<char>) -> Option<
    (Seq<char>, Seq<(Seq<char>, Seq<char>)>, Option<Seq<char>>, Option<Seq<char>>),
> {
    match read_value(s) {
        Some((Json::Object(members), rest)) if rest.len() == 0 => match (
            text_member(members, "intent"@),
            object_member(members, "diff"@),
            optional_member(members, "referral"@),
            optional_member(members, "memo"@),
        ) {
            (Some(intent), Some(diff), Some(referral), Some(memo)) => match changes_of(diff) {
                Some(diff) => Some((intent, diff, referral, memo)),
                None => None,
            },
            _ => None,
        },
        _ => None,
    }
}

/// The JSON of intents with some parts reads back as these parts.
pub proof fn lemma_intents_reads_back(
    intent: Seq<char>,
    diff: Seq<(Seq<char>, Seq<char>)>,
    referral: Option<Seq<char>>,
    memo: Option<Seq<char>>,
)
    ensures
        read_intents(intents_json(intent, diff, referral, memo)) == Some(
            (intent, diff, referral, memo),
        ),
{
    let json = intents_json(intent, diff, referral, memo);
    lemma_intents_read_back(intent, diff, referral, memo, Seq::empty());
    lemma_intents_parts(intent, diff, referral, memo);
    assert(json + Seq::<char>::empty() =~= json);
}

/// The JSON of an intent message with some parts reads back as these parts.
pub proof fn lemma_intent_parts_read_back(
    deadline: nat,
    intent: Seq<char>,
    diff: Seq<(Seq<char>, Seq<char>)>,
    referral: Option<Seq<char>>,
    memo: Option<Seq<char>>,
    signer: Seq<char>,
)
    ensures
        read_intent_message(
            intent_message_json(deadline, intents_json(intent, diff, referral, memo), signer),
        ) == Some(
            IntentMessageParts { deadline, intent, diff, referral, memo, signer_id: signer },
        ),
{
    let intents = intents_json(intent, diff, referral, memo);
    let json = intent_message_json(deadline, intents, signer);
    let intents_value = Json::Object(intents_members(intent, diff, referral, memo));
    reveal_strlit("}");
    assert("}"@ =~= seq!['}'] + Seq::<char>::empty());
    let none = Seq::<char>::empty();
    let c = json_string(signer) + (seq!['}'] + none);
    let c_member = json_string("signer_id"@) + (seq![':'] + c);
    let b = intents + (seq![','] + c_member);
    let b_member = json_string("intents"@) + (seq![':'] + b);
    let a = decimal(deadline) + (seq![','] + b_member);
    let a_member = json_string("deadline"@) + (seq![':'] + a);
    lemma_intent_message_regroup(deadline, intents, signer);
    lemma_message_keys(a, b, c);
    assert(json == seq!['{'] + a_member);
    let m3 = seq![("signer_id"@, Json::Text(signer))];
    let m2 = seq![("intents"@, intents_value)] + m3;
    let m1 = seq![("deadline"@, Json::Number(deadline))] + m2;
    lemma_string_reads_back(signer, seq!['}'] + none);
    lemma_last_member("signer_id"@, Json::Text(signer), json_string(signer), none);
    lemma_intents_read_back(intent, diff, referral, memo, seq![','] + c_member);
    lemma_first_member("intents"@, intents_value, intents, c_member, m3, none);
    assert((seq![','] + b_member)[0] == ',');
    lemma_number_reads_back(deadline, seq![','] + b_member);
    lemma_first_member("deadline"@, Json::Number(deadline), decimal(deadline), b_member, m2, none);
    assert(a_member[0] == '"');
    lemma_object(a_member, m1, none);
    assert(read_value(json) == Some((Json::Object(m1), none)));
    reveal_strlit("deadline");
    reveal_strlit("intents");
    reveal_strlit("signer_id");
    assert("deadline"@.len() == 8 && "intents"@.len() == 7 && "signer_id"@.len() == 9);
    reveal_with_fuel(member, 4);
    assert(m1[0] == ("deadline"@, Json::Number(deadline)));
    assert(m1.skip(1) =~= m2);
    assert(m2.skip(1) =~= m3);
    lemma_intents_parts(intent, diff, referral, memo);
}

proof fn lemma_message_keys(a: Seq<char>, b: Seq<char>, c: Seq<char>)
    ensures
        "{\"deadline\":"@ + a == seq!['{'] + (json_string("deadline"@) + (seq![':'] + a)),
        ",\"intents\":"@ + b == seq![','] + (json_string("intents"@) + (seq![':'] + b)),
        ",\"signer_id\":"@ + c == seq![','] + (json_string("signer_id"@) + (seq![':'] + c)),
        json_string("deadline"@)[0] == '"',
{
    reveal_strlit("{\"deadline\":");
    reveal_strlit("deadline");
    reveal_strlit(",\"intents\":");
    reveal_strlit("intents");
    reveal_strlit(",\"signer_id\":");
    reveal_strlit("signer_id");
    assert("{\"deadline\":"@ =~= seq!['{', '"'] + "deadline"@ + seq!['"', ':']);
    lemma_key("{\"deadline\":"@, '{', "deadline"@, a);
    assert(",\"intents\":"@ =~= seq![',', '"'] + "intents"@ + seq!['"', ':']);
    lemma_key(",\"intents\":"@, ',', "intents"@, b);
    assert(",\"signer_id\":"@ =~= seq![',', '"'] + "signer_id"@ + seq!['"', ':']);
    lemma_key(",\"signer_id\":"@, ',', "signer_id"@, c);
}

proof fn lemma_swap_message_keys(a: Seq<char>, b: Seq<char>, c: Seq<char>)
    ensures
        "{\"message\":"@ + a == seq!['{'] + (json_string("message"@) + (seq![':'] + a)),
        ",\"nonce\":"@ + b == seq![','] + (json_string("nonce"@) + (seq![':'] + b)),
        ",\"recipient\":"@ + c == seq![','] + (json_string("recipient"@) + (seq![':'] + c)),
        json_string("message"@)[0] == '"',
{
    reveal_strlit("{\"message\":");
    reveal_strlit("message");
    reveal_strlit(",\"nonce\":");
    reveal_strlit("nonce");
    reveal_strlit(",\"recipient\":");
    reveal_strlit("recipient");
    assert("{\"message\":"@ =~= seq!['{', '"'] + "message"@ + seq!['"', ':']);
    lemma_key("{\"message\":"@, '{', "message"@, a);
    assert(",\"nonce\":"@ =~= seq![',', '"'] + "nonce"@ + seq!['"', ':']);
    lemma_key(",\"nonce\":"@, ',', "nonce"@, b);
    assert(",\"recipient\":"@ =~= seq![',', '"'] + "recipient"@ + seq!['"', ':']);
    lemma_key(",\"recipient\":"@, ',', "recipient"@, c);
}

/// The JSON of a swap message reads back as what the message says.
pub proof fn lemma_swap_message_reads_back(message: SwapMessage)
    ensures
        read_swap_message(message.json()) == Some(message@),
{
    reveal_strlit("}");
    assert("}"@ =~= seq!['}'] + Seq::<char>::empty());
    let none = Seq::<char>::empty();
    let nonce = message.nonce as nat;
    let recipient = message.recipient@;
    let c = json_string(recipient) + (seq!['}'] + none);
    let c_member = json_string("recipient"@) + (seq![':'] + c);
    let b = decimal(nonce) + (seq![','] + c_member);
    let b_member = json_string("nonce"@) + (seq![':'] + b);
    let a = json_string(message.message@) + (seq![','] + b_member);
    let a_member = json_string("message"@) + (seq![':'] + a);
    let head = "{\"message\":"@ + json_string(message.message@) + ",\"nonce\":"@ + decimal(nonce);
    lemma_regroup(head + ",\"recipient\":"@, json_string(recipient), "}"@);
    lemma_regroup(head, ",\"recipient\":"@, c);
    lemma_regroup_all(
        "{\"message\":"@,
        json_string(message.message@),
        ",\"nonce\":"@,
        decimal(nonce),
        ",\"recipient\":"@ + c,
    );
    lemma_swap_message_keys(a, b, c);
    assert(message.json() == seq!['{'] + a_member);
    let m3 = seq![("recipient"@, Json::Text(recipient))];
    let m2 = seq![("nonce"@, Json::Number(nonce))] + m3;
    let m1 = seq![("message"@, Json::Text(message.message@))] + m2;
    lemma_string_reads_back(recipient, seq!['}'] + none);
    lemma_last_member("recipient"@, Json::Text(recipient), json_string(recipient), none);
    assert((seq![','] + c_member)[0] == ',');
    lemma_number_reads_back(nonce, seq![','] + c_member);
    lemma_first_member("nonce"@, Json::Number(nonce), decimal(nonce), c_member, m3, none);
    lemma_string_reads_back(message.message@, seq![','] + b_member);
    lemma_first_member(
        "message"@,
        Json::Text(message.message@),
        json_string(message.message@),
        b_member,
        m2,
        none,
    );
    assert(a_member[0] == '"');
    lemma_object(a_member, m1, none);
    reveal_strlit("message");
    reveal_strlit("nonce");
    reveal_strlit("recipient");
    assert("message"@.len() == 7 && "nonce"@.len() == 5 && "recipient"@.len() == 9);
    reveal_with_fuel(member, 4);
    assert(m1[0] == ("message"@, Json::Text(message.message@)));
    assert(m1.skip(1) =~= m2);
    assert(m2.skip(1) =~= m3);
}

/// What is published reads back: the payload that a request was signed for is read from the
/// signed JSON, and the intent message, whole, from the message field of the payload.
pub proof fn lemma_published_message_reads_back(
    request: PublishIntentsRequest,
    signer: Signer,
    message: IntentMessage,
    nonce: u64,
    quote_hashes: Seq<String>,
)
    requires
        request.publishes(signer, message.json(), nonce, quote_hashes),
    ensures
        ({
            let payload = request.params@[0].signed_datas@[0].payload;
            &&& read_intent_message(payload.message@) == Some(message@)
            &&& read_swap_message(payload.json()) == Some(payload@)
        }),
{
    lemma_intent_message_reads_back(message);
    lemma_swap_message_reads_back(request.params@[0].signed_datas@[0].payload);
}

/// The JSON of an intent message tells what the message says: two messages with the same
/// JSON agree in every part.
pub proof fn lemma_intent_message_json_injective(m1: IntentMessage, m2: IntentMessage)
    requires
        m1.json() == m2.json(),
    ensures
        m1.deadline == m2.deadline,
        m1.intents.intent@ == m2.intents.intent@,
        diff_texts(m1.intents.diff@) == diff_texts(m2.intents.diff@),
        optional_text(m1.intents.referral) == optional_text(m2.intents.referral),
        optional_text(m1.intents.memo) == optional_text(m2.intents.memo),
        m1.signer_id@ == m2.signer_id@,
{
    lemma_intent_message_reads_back(m1);
    lemma_intent_message_reads_back(m2);
}

proof fn lemma_intents_regroup(
    intent: Seq<char>,
    diff: Seq<(Seq<char>, Seq<char>)>,
    referral: Option<Seq<char>>,
    memo: Option<Seq<char>>,
    x: Seq<char>,
)
    ensures
        intents_json(intent, diff, referral, memo) + x == "{\"intent\":"@ + (json_string(intent) + (
        ",\"diff\":"@ + (changes_json(diff) + (",\"referral\":"@ + (json_optional_string(referral) + (
        ",\"memo\":"@ + (json_optional_string(memo) + ("}"@ + x)))))))),
{
    let a = json_string(intent);
    let b = changes_json(diff);
    let c = json_optional_string(referral);
    let d = json_optional_string(memo);
    let head = "{\"intent\":"@ + a + ",\"diff\":"@ + b;
    let tail = c + (",\"memo\":"@ + (d + ("}"@ + x)));
    lemma_regroup_all(head + ",\"referral\":"@ + c, ",\"memo\":"@, d, "}"@, x);
    lemma_regroup(head + ",\"referral\":"@, c, ",\"memo\":"@ + (d + ("}"@ + x)));
    lemma_regroup(head, ",\"referral\":"@, tail);
    lemma_regroup_all("{\"intent\":"@, a, ",\"diff\":"@, b, ",\"referral\":"@ + tail);
}

proof fn lemma_intent_message_regroup(deadline: nat, intents: Seq<char>, signer_id: Seq<char>)
    ensures
        intent_message_json(deadline, intents, signer_id) == "{\"deadline\":"@ + (decimal(deadline) + (
        ",\"intents\":"@ + (intents + (",\"signer_id\":"@ + (json_string(signer_id) + "}"@))))),
{
    let head = "{\"deadline\":"@ + decimal(deadline) + ",\"intents\":"@ + intents;
    let tail = json_string(signer_id) + "}"@;
    lemma_regroup(head + ",\"signer_id\":"@, json_string(signer_id), "}"@);
    lemma_regroup(head, ",\"signer_id\":"@, tail);
    lemma_regroup_all(
        "{\"deadline\":"@,
        decimal(deadline),
        ",\"intents\":"@,
        intents,
        ",\"signer_id\":"@ + tail,
    );
}

/// What is signed fixes what is published: two messages whose JSON has the same bytes say
/// the same, under the same nonce, to the same recipient.
pub proof fn lemma_signed_bytes_fix_message(m1: SwapMessage, m2: SwapMessage)
    requires
        encode_utf8(m1.json()) == encode_utf8(m2.json()),
    ensures
        m1.message@ == m2.message@,
        m1.nonce == m2.nonce,
        m1.recipient@ == m2.recipient@,
{
    encode_utf8_decode_utf8(m1.json());
    encode_utf8_decode_utf8(m2.json());
    lemma_swap_message_reads_back(m1);
    lemma_swap_message_reads_back(m2);
}

/// An intent names each token once, also where a token is swapped for itself.
pub proof fn lemma_tokens_distinct(quote: IntentsQuoteResponse)
    ensures
        forall|i: int, j: int|
            #![trigger token_changes(quote)[i], token_changes(quote)[j]]
            0 <= i < j < token_changes(quote).len() ==> token_changes(quote)[i].0
                != token_changes(quote)[j].0,
{
    let given = quote.defuse_asset_identifier_in@;
    let taken = quote.defuse_asset_identifier_out@;
    if token_name(given) == token_name(taken) {
        lemma_strip("nep141:"@, given, taken);
    }
}

/// The numerals of an intent fix the changes that it makes.
pub proof fn lemma_written_injective(c1: Seq<(Seq<char>, int)>, c2: Seq<(Seq<char>, int)>)
    requires
        written(c1) == written(c2),
    ensures
        c1 == c2,
{
    assert(c1.len() == written(c1).len());
    assert(c2.len() == written(c2).len());
    assert forall|i: int| 0 <= i < c1.len() implies c1[i] == c2[i] by {
        assert(written(c1)[i] == (c1[i].0, signed_decimal(c1[i].1)));
        assert(written(c2)[i] == (c2[i].0, signed_decimal(c2[i].1)));
        lemma_signed_decimal_injective(c1[i].1, c2[i].1);
    }
    assert(c1 =~= c2);
}

/// A message accepts one set of changes, by one account, until one moment: where the texts of
/// two acceptances are the same, so are these.
pub proof fn lemma_acceptance_fixes_changes(
    m1: IntentMessage,
    quote1: IntentsQuoteResponse,
    signer1: AccountId,
    now1: int,
    m2: IntentMessage,
    quote2: IntentsQuoteResponse,
    signer2: AccountId,
    now2: int,
)
    requires
        m1.accepts(quote1, signer1, None, None, now1),
        m2.accepts(quote2, signer2, None, None, now2),
        m1.json() == m2.json(),
    ensures
        token_changes(quote1) == token_changes(quote2),
        signer1@ == signer2@,
        now1 == now2,
{
    lemma_intent_message_json_injective(m1, m2);
    lemma_written_injective(token_changes(quote1), token_changes(quote2));
}

} // verus!
