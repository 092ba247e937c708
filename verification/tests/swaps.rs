use near_crypto::{KeyType, SecretKey, Signature};
use near_sdk::serde_json;
use templar_bots::account::AccountId;
use templar_bots::crypto::Signer;
use templar_bots::near::{
    serialize_and_encode, QueryReply, QueryResponse, QueryResponseKind, RpcError,
};
use templar_bots::network::Network;
use templar_bots::swap::intents::{
    build_intent_message, build_intent_message_at, make_publish_request, TokenDiff,
};
use templar_bots::swap::{
    FungibleAsset, IntentMessage, Intents, IntentsQuoteParams, IntentsQuoteRequest,
    IntentsQuoteResponse, IntentsSwap, PublishIntentsRequest, QuoteOutput, QuoteRequest,
    QuoteResponse, RheaSwap, SolverFailure, SwapMessage, SwapRequestMsg, SwapType,
};
use templar_bots::transaction::FunctionCallAction;

fn account(text: &str) -> AccountId {
    AccountId::parse(text).unwrap()
}

fn secret_key() -> SecretKey {
    SecretKey::from_seed(KeyType::ED25519, "swapper")
}

fn signer() -> Signer {
    Signer::new(account("bot.near"), secret_key().to_string()).unwrap()
}

fn intents_swap() -> IntentsSwap {
    IntentsSwap::new(Network::Mainnet, signer())
}

fn quote(from: &str, to: &str, amount_in: u128, amount_out: u128) -> IntentsQuoteResponse {
    IntentsQuoteResponse {
        defuse_asset_identifier_in: account(from),
        defuse_asset_identifier_out: account(to),
        amount_in,
        amount_out,
        expiration_date: 99,
        quote_hash: "hash".to_string(),
    }
}

fn diff_of(quote: &IntentsQuoteResponse) -> Vec<(String, String)> {
    build_intent_message_at(quote, account("bot.near"), None, None, Ok(0))
        .unwrap()
        .intents
        .diff
        .into_iter()
        .map(|change| (change.token, change.amount))
        .collect()
}

fn pair(token: &str, amount: &str) -> (String, String) {
    (token.to_string(), amount.to_string())
}

fn access_key(nonce: u64) -> QueryReply {
    Ok(QueryResponse {
        kind: QueryResponseKind::AccessKey { nonce },
        kind_text: String::new(),
        block_hash: [8; 32],
    })
}

fn wrong_kind() -> QueryReply {
    Ok(QueryResponse {
        kind: QueryResponseKind::Other,
        kind_text: "ViewState(..)".to_string(),
        block_hash: [8; 32],
    })
}

/// A signer whose ed25519 key has halves that do not fit.
fn mixed_signer() -> Signer {
    let other = SecretKey::from_seed(KeyType::ED25519, "other");
    let (SecretKey::ED25519(key), SecretKey::ED25519(other)) = (secret_key(), other) else {
        panic!("ed25519 keys");
    };
    let mut mixed = key;
    mixed.0[32..].copy_from_slice(&other.0[32..]);
    Signer::new(account("bot.near"), SecretKey::ED25519(mixed).to_string()).unwrap()
}

fn token(text: &str) -> FungibleAsset {
    FungibleAsset::Nep141(account(text))
}

fn check_published(request: &PublishIntentsRequest, message: &str, nonce: u64) {
    assert_eq!(request.id, "dontcare");
    assert_eq!(request.jsonrpc, "2.0");
    assert_eq!(request.method, "publish_intents");
    assert_eq!(request.params.len(), 1);
    assert_eq!(request.params[0].quote_hashes, vec!["hash".to_string()]);
    assert_eq!(request.params[0].signed_datas.len(), 1);
    let data = &request.params[0].signed_datas[0];
    assert_eq!(data.standard, "nep413");
    assert_eq!(data.payload.message, message);
    assert_eq!(data.payload.nonce, nonce);
    assert_eq!(data.payload.recipient, "intents.near");
    assert_eq!(data.public_key, secret_key().public_key().to_string());
    let signature: Signature = data.signature.parse().unwrap();
    let signed = data.payload.to_json();
    assert!(signature.verify(signed.as_bytes(), &secret_key().public_key()));
}

#[test]
fn quote_requests_are_wrapped() {
    let params = IntentsQuoteParams {
        defuse_asset_identifier_in: account("a.near"),
        defuse_asset_identifier_out: account("b.near"),
        exact_amount_in: 1,
        min_deadline_ms: 2,
        wait_ms: 3,
    };
    let request = IntentsQuoteRequest::new("id".to_string(), params.clone());
    assert_eq!(request.id, "id");
    assert_eq!(request.jsonrpc, "2.0");
    assert_eq!(request.method, "quote");
    assert_eq!(request.params, vec![params]);
}

#[test]
fn the_solver_is_on_the_main_network() {
    assert_eq!(intents_swap().solver_url, "https://solver-relay-v2.chaindefuser.com/rpc");
}

#[test]
fn quotes_are_asked_for() {
    let request = intents_swap().quote_request(&account("usdt.near"), &account("wrap.near"), 250);
    assert_eq!(request.id, "quote-usdt.near-wrap.near-U128(250)");
    assert_eq!(
        request.params,
        vec![IntentsQuoteParams {
            defuse_asset_identifier_in: account("usdt.near"),
            defuse_asset_identifier_out: account("wrap.near"),
            exact_amount_in: 250,
            min_deadline_ms: 60_000,
            wait_ms: 500,
        }]
    );
}

#[test]
fn a_quote_without_hash_is_none() {
    let good = quote("a.near", "b.near", 1, 2);
    assert_eq!(intents_swap().quote(Ok(good.clone())), Ok(good.clone()));
    let bad = IntentsQuoteResponse { quote_hash: String::new(), ..good };
    assert_eq!(intents_swap().quote(Ok(bad)), Err(RpcError::NoQuoteHashReceived));
}

#[test]
fn failures_of_the_solver_are_errors() {
    let swap = intents_swap();
    let text = || "why".to_string();
    for (failure, wrap) in [
        (
            SolverFailure::Request(text()),
            RpcError::SolverRequestError as fn(String) -> RpcError,
        ),
        (SolverFailure::Response(text()), RpcError::SolverResponseDeserialization),
    ] {
        let error = || wrap(text());
        assert_eq!(swap.quote(Err(failure.clone())), Err(error()));
        assert_eq!(swap.publish_at(1, Err(failure.clone()), Ok(0)), Err(error()));
        assert_eq!(swap.publish(1, Err(failure.clone())), Err(error()));
        assert_eq!(swap.try_publish(1, Err(failure.clone())), Some(Err(error())));
        assert_eq!(swap.published::<u8>(Err(failure)), Err(error()));
    }
    assert_eq!(swap.published(Ok(3)), Ok(3));
}

#[test]
fn keys_that_cannot_sign_are_noticed() {
    let quoted = || quote("a.near", "b.near", 5, 6);
    let unnamed = IntentsQuoteResponse { quote_hash: String::new(), ..quoted() };
    let swap = IntentsSwap::new(Network::Mainnet, mixed_signer());
    assert_eq!(swap.try_publish(1, Ok(quoted())), None);
    assert_eq!(swap.try_publish(1, Ok(unnamed)), Some(Err(RpcError::NoQuoteHashReceived)));
    let request = intents_swap().try_publish(1, Ok(quoted())).unwrap().unwrap();
    check_published(&request, &request.params[0].signed_datas[0].payload.message, 1);

    let call = || FunctionCallAction {
        method_name: "ft_transfer_call".to_string(),
        args: vec![],
        gas: 1,
        deposit: 1,
    };
    let rhea = RheaSwap::new(Network::Mainnet, mixed_signer());
    let pending = rhea.swap(token("a.near"), token("b.near"), 5, access_key(1)).unwrap();
    assert_eq!(rhea.try_submit(pending, call(), 0), None);
    let rhea = RheaSwap::new(Network::Mainnet, signer());
    let pending = || rhea.swap(token("a.near"), token("b.near"), 5, access_key(1)).unwrap();
    assert_eq!(
        rhea.try_submit(pending(), call(), 9),
        Some(rhea.submit(pending(), call(), 9))
    );
}

#[test]
fn quotes_name_their_amount() {
    assert_eq!(quote("a.near", "b.near", 1, 2).to_u128(), 2);
    assert_eq!(QuoteResponse { amount: 5, tag: String::new() }.to_u128(), 5);
}

#[test]
fn the_given_token_is_lost_and_the_taken_one_gained() {
    assert_eq!(
        diff_of(&quote("usdt.near", "wrap.near", 100, 33)),
        vec![pair("nep141:usdt.near", "-100"), pair("nep141:wrap.near", "33")]
    );
    assert_eq!(
        diff_of(&quote("a.near", "b.near", 0, 0)),
        vec![pair("nep141:a.near", "0"), pair("nep141:b.near", "0")]
    );
}

#[test]
fn a_token_for_itself_is_one_change() {
    assert_eq!(diff_of(&quote("a.near", "a.near", 100, 33)), vec![pair("nep141:a.near", "-67")]);
    assert_eq!(diff_of(&quote("a.near", "a.near", 1, 3)), vec![pair("nep141:a.near", "2")]);
}

#[test]
fn amounts_that_do_not_fit_count_as_nothing() {
    let largest = i128::MAX as u128;
    assert_eq!(
        diff_of(&quote("a.near", "b.near", largest, largest + 1)),
        vec![
            pair("nep141:a.near", "-170141183460469231731687303715884105727"),
            pair("nep141:b.near", "0"),
        ]
    );
    assert_eq!(
        diff_of(&quote("a.near", "b.near", u128::MAX, 7)),
        vec![pair("nep141:a.near", "0"), pair("nep141:b.near", "7")]
    );
}

#[test]
fn an_intent_stands_for_a_minute() {
    let message = build_intent_message_at(
        &quote("a.near", "b.near", 1, 2),
        account("bot.near"),
        Some("ref".to_string()),
        Some("memo".to_string()),
        Ok(1_700_000_000_000),
    )
    .unwrap();
    assert_eq!(
        message,
        IntentMessage {
            deadline: 1_700_000_060_000,
            intents: Intents {
                intent: "token_diff".to_string(),
                diff: vec![
                    TokenDiff { token: "nep141:a.near".to_string(), amount: "-1".to_string() },
                    TokenDiff { token: "nep141:b.near".to_string(), amount: "2".to_string() },
                ],
                referral: Some("ref".to_string()),
                memo: Some("memo".to_string()),
            },
            signer_id: account("bot.near"),
        }
    );
}

#[test]
fn a_clock_before_the_epoch_is_an_error() {
    let error = || RpcError::SystemTimeError("too early".to_string());
    let now = || Err("too early".to_string());
    let quoted = quote("a.near", "b.near", 1, 2);
    assert_eq!(
        build_intent_message_at(&quoted, account("bot.near"), None, None, now()),
        Err(error())
    );
    assert_eq!(intents_swap().publish_at(1, Ok(quoted), now()), Err(error()));
}

#[test]
fn the_wall_clock_is_read_in_milliseconds() {
    let before = templar_bots::clock::unix_millis().unwrap();
    let message =
        build_intent_message(&quote("a.near", "b.near", 1, 2), account("bot.near"), None, None)
            .unwrap();
    let after = templar_bots::clock::unix_millis().unwrap();
    assert!(before > 1_600_000_000_000 && before < 100_000_000_000_000);
    assert!(before + 60_000 <= message.deadline && message.deadline <= after + 60_000);
}

#[test]
fn intent_messages_are_written_as_json() {
    let message = build_intent_message_at(
        &quote("a.near", "b.near", 1, 2),
        account("bot.near"),
        None,
        Some("say \"hi\"".to_string()),
        Ok(40_000),
    )
    .unwrap();
    let json = message.to_json();
    assert_eq!(
        json,
        "{\"deadline\":100000,\"intents\":{\"intent\":\"token_diff\",\"diff\":\
         {\"nep141:a.near\":\"-1\",\"nep141:b.near\":\"2\"},\"referral\":null,\
         \"memo\":\"say \\\"hi\\\"\"},\"signer_id\":\"bot.near\"}"
    );
    let value: serde_json::Value = serde_json::from_str(&json).unwrap();
    assert_eq!(value["deadline"], 100_000);
    assert_eq!(value["intents"]["diff"]["nep141:a.near"], "-1");
    assert_eq!(value["intents"]["memo"], "say \"hi\"");
    assert!(value["intents"]["referral"].is_null());
}

#[test]
fn intents_without_changes_are_written_as_json() {
    let intents = Intents {
        intent: "token_diff".to_string(),
        diff: vec![],
        referral: Some("r".to_string()),
        memo: None,
    };
    assert_eq!(
        intents.to_json(),
        "{\"intent\":\"token_diff\",\"diff\":{},\"referral\":\"r\",\"memo\":null}"
    );
}

#[test]
fn swap_messages_are_written_as_json() {
    let message = SwapMessage {
        message: "{\"a\":1}".to_string(),
        nonce: u64::MAX,
        recipient: "intents.near".to_string(),
    };
    let json = message.to_json();
    assert_eq!(
        json,
        "{\"message\":\"{\\\"a\\\":1}\",\"nonce\":18446744073709551615,\
         \"recipient\":\"intents.near\"}"
    );
    let value: serde_json::Value = serde_json::from_str(&json).unwrap();
    assert_eq!(value["message"], "{\"a\":1}");
    assert_eq!(value["nonce"], u64::MAX);
}

#[test]
fn different_messages_are_signed_differently() {
    let message = |text: &str, nonce: u64| SwapMessage {
        message: text.to_string(),
        nonce,
        recipient: "intents.near".to_string(),
    };
    let json = message("a", 1).to_json();
    assert_ne!(json, message("a", 11).to_json());
    assert_ne!(json, message("a\",\"nonce\":1", 1).to_json());
    assert_ne!(
        signer().sign(json.as_bytes()),
        signer().sign(message("a", 2).to_json().as_bytes())
    );
}

#[test]
fn published_messages_are_signed() {
    let message = build_intent_message_at(
        &quote("a.near", "b.near", 1, 2),
        account("bot.near"),
        None,
        None,
        Ok(0),
    )
    .unwrap();
    let request = make_publish_request(&signer(), &message, 9, vec!["hash".to_string()]).unwrap();
    check_published(&request, &message.to_json(), 9);
}

#[test]
fn a_swap_goes_from_access_key_to_publication() {
    let swap = intents_swap();
    let pending = swap.swap(&account("a.near"), &account("b.near"), 5, access_key(20)).unwrap();
    assert_eq!(pending.nonce, 21);
    assert_eq!(pending.request.id, "quote-a.near-b.near-U128(5)");
    let request = swap
        .publish_at(pending.nonce, Ok(quote("a.near", "b.near", 5, 6)), Ok(1_000))
        .unwrap();
    check_published(
        &request,
        "{\"deadline\":61000,\"intents\":{\"intent\":\"token_diff\",\"diff\":\
         {\"nep141:a.near\":\"-5\",\"nep141:b.near\":\"6\"},\"referral\":null,\"memo\":null},\
         \"signer_id\":\"bot.near\"}",
        21,
    );
    let request = swap.publish(21, Ok(quote("a.near", "b.near", 5, 6))).unwrap();
    check_published(&request, &request.params[0].signed_datas[0].payload.message, 21);
}

#[test]
fn a_swap_needs_an_access_key_and_a_quote() {
    let swap = intents_swap();
    let error =
        || RpcError::WrongResponseKind("Expected AccessKey got ViewState(..)".to_string());
    assert_eq!(
        swap.swap(&account("a.near"), &account("b.near"), 5, wrong_kind()),
        Err(error())
    );
    let bad =
        IntentsQuoteResponse { quote_hash: String::new(), ..quote("a.near", "b.near", 5, 6) };
    assert_eq!(swap.publish_at(1, Ok(bad.clone()), Ok(0)), Err(RpcError::NoQuoteHashReceived));
    assert_eq!(swap.publish(1, Ok(bad.clone())), Err(RpcError::NoQuoteHashReceived));
    let key = SecretKey::from_seed(KeyType::SECP256K1, "swapper");
    let other = Signer::new(account("bot.near"), key.to_string()).unwrap();
    let swap = IntentsSwap::new(Network::Mainnet, other);
    assert_eq!(swap.publish(1, Ok(bad)), Err(RpcError::NoQuoteHashReceived));
    let rhea = RheaSwap::new(Network::Testnet, signer());
    assert_eq!(rhea.swap(token("a.near"), token("b.near"), 5, wrong_kind()), Err(error()));
    let failed = || Err("down".to_string());
    let error = || RpcError::AccessKeyDataError("down".to_string());
    assert_eq!(
        swap.swap(&account("a.near"), &account("b.near"), 5, failed()),
        Err(error())
    );
    assert_eq!(rhea.swap(token("a.near"), token("b.near"), 5, failed()), Err(error()));
}

#[test]
fn the_exchange_has_a_contract_on_each_network() {
    let contract = |network| RheaSwap::new(network, signer()).contract;
    assert_eq!(contract(Network::Mainnet).as_str(), "dclv2.ref-labs.near");
    assert_eq!(contract(Network::Testnet).as_str(), "dclv2.ref-dev.testnet");
}

#[test]
fn exchange_quotes_are_asked_for() {
    let request = QuoteRequest::new(account("usdt.near"), account("wrap.near"), 40);
    assert_eq!(request.pool_ids, vec!["usdt.near|wrap.near|100".to_string()]);
    assert_eq!(request.tag, "usdt.near|100|40");
    let json = request.to_json();
    assert_eq!(
        json,
        "{\"pool_ids\":[\"usdt.near|wrap.near|100\"],\"input_token\":\"usdt.near\",\
         \"output_token\":\"wrap.near\",\"output_amount\":\"40\",\"tag\":\"usdt.near|100|40\"}"
    );
    let value: serde_json::Value = serde_json::from_str(&json).unwrap();
    assert_eq!(value["output_amount"], "40");

    let rhea = RheaSwap::new(Network::Mainnet, signer());
    let view = rhea.quote(token("usdt.near"), token("wrap.near"), 40);
    assert_eq!(view.account_id.as_str(), "dclv2.ref-labs.near");
    assert_eq!(view.method_name, "quote_by_output");
    assert_eq!(view.args, serialize_and_encode(&json));
}

#[test]
fn exchange_swaps_are_described() {
    let msg = SwapRequestMsg::new(&account("usdt.near"), account("wrap.near"), 40);
    assert_eq!(
        msg,
        SwapRequestMsg::SwapByOutput {
            pool_ids: vec!["usdt.near|wrap.near|100".to_string()],
            output_token: account("wrap.near"),
            output_amount: 40,
            client_id: "usdt.near|100|40".to_string(),
        }
    );
    let json = msg.to_json();
    assert_eq!(
        json,
        "{\"SwapByOutput\":{\"pool_ids\":[\"usdt.near|wrap.near|100\"],\
         \"output_token\":\"wrap.near\",\"output_amount\":\"40\",\
         \"client_id\":\"usdt.near|100|40\"}}"
    );
    let value: serde_json::Value = serde_json::from_str(&json).unwrap();
    assert_eq!(value["SwapByOutput"]["output_amount"], "40");
}

#[test]
fn quote_and_swap_speak_of_the_same_pool() {
    let quote = QuoteRequest::new(account("a.near"), account("b.near"), 3);
    let SwapRequestMsg::SwapByOutput { pool_ids, client_id, .. } =
        SwapRequestMsg::new(&account("a.near"), account("b.near"), 3);
    assert_eq!(quote.pool_ids, pool_ids);
    assert_eq!(quote.tag, client_id);
    let other = QuoteRequest::new(account("b.near"), account("a.near"), 3);
    assert_ne!(other.pool_ids, pool_ids);
    assert_ne!(other.tag, client_id);
}

#[test]
fn an_exchange_swap_becomes_a_transaction() {
    let rhea = RheaSwap::new(Network::Mainnet, signer());
    let pending = rhea.swap(token("usdt.near"), token("wrap.near"), 40, access_key(6)).unwrap();
    assert_eq!(pending.token.as_str(), "usdt.near");
    assert_eq!(pending.receiver_id.as_str(), "dclv2.ref-labs.near");
    assert_eq!(pending.amount, 40);
    assert_eq!(
        pending.msg,
        SwapRequestMsg::new(&account("usdt.near"), account("wrap.near"), 40).to_json()
    );
    assert_eq!((pending.nonce, pending.block_hash), (7, [8; 32]));

    let call = || FunctionCallAction {
        method_name: "ft_transfer_call".to_string(),
        args: vec![1],
        gas: 2,
        deposit: 1,
    };
    let (request, state) = rhea.submit(pending, call(), 123);
    let signed = request.signed_transaction;
    assert_eq!(signed.transaction.signer_id.as_str(), "bot.near");
    assert_eq!(signed.transaction.public_key, signer().public_key());
    assert_eq!(signed.transaction.nonce, 7);
    assert_eq!(signed.transaction.receiver_id.as_str(), "usdt.near");
    assert_eq!(signed.transaction.block_hash, [8; 32]);
    assert_eq!(signed.transaction.actions, vec![call()]);
    let signature: Signature = signed.signature.parse().unwrap();
    assert!(signature.verify(&state.tx_hash, &secret_key().public_key()));
    assert_eq!(state.tx_hash, signed.transaction.hash());
    assert_eq!(state.status_request().sender_id.as_str(), "bot.near");
    assert_eq!((state.timeout, state.called_at, state.poll_interval), (10, 123, None));
}

#[test]
fn assets_know_their_contract() {
    assert_eq!(token("a.near").contract_id(), account("a.near"));
    assert_eq!(token("a.near").into_nep141(), Some(account("a.near")));
    let multi = || FungibleAsset::Nep245 {
        contract_id: account("mt.near"),
        token_id: "t".to_string(),
    };
    assert_eq!(multi().contract_id(), account("mt.near"));
    assert_eq!(multi().into_nep141(), None);
    assert_ne!(SwapType::RheaSwap, SwapType::NearIntents);
}
