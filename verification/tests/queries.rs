use near_crypto::{KeyType, SecretKey};
use templar_bots::account::AccountId;
use templar_bots::crypto::Signer;
use templar_bots::near::{
    access_key_request, get_access_key_data, view, view_request, view_value, QueryReply, QueryResponse,
    QueryResponseKind, RpcError, GAS_FT_TRANSFER,
};

fn response(kind: QueryResponseKind, kind_text: &str) -> QueryReply {
    Ok(QueryResponse {
        kind,
        kind_text: kind_text.to_string(),
        block_hash: [5; 32],
    })
}

#[test]
fn access_key_is_asked_for_the_signer() {
    let key = SecretKey::from_seed(KeyType::ED25519, "seed").to_string();
    let signer = Signer::new(AccountId::parse("bot.near").unwrap(), key).unwrap();
    let request = access_key_request(&signer);
    assert_eq!(request.account_id.as_str(), "bot.near");
    assert_eq!(request.public_key, signer.public_key());
}

#[test]
fn access_key_data_has_the_next_nonce() {
    let data = get_access_key_data(response(QueryResponseKind::AccessKey { nonce: 41 }, ""));
    assert_eq!(data, Ok((42, [5; 32])));
    let data = get_access_key_data(response(
        QueryResponseKind::AccessKey { nonce: u64::MAX - 1 },
        "",
    ));
    assert_eq!(data, Ok((u64::MAX, [5; 32])));
}

#[test]
fn access_key_data_of_another_kind_is_an_error() {
    for kind in [
        QueryResponseKind::Other,
        QueryResponseKind::CallResult { result: vec![1] },
    ] {
        assert_eq!(
            get_access_key_data(response(kind, "ViewCode(..)")),
            Err(RpcError::WrongResponseKind(
                "Expected AccessKey got ViewCode(..)".to_string()
            ))
        );
    }
}

#[test]
fn view_calls_carry_encoded_arguments() {
    let request = view_request(
        AccountId::parse("registry.near").unwrap(),
        "list",
        "{\"a\":1}",
    );
    assert_eq!(request.account_id.as_str(), "registry.near");
    assert_eq!(request.method_name, "list");
    assert_eq!(request.args, b"eyJhIjoxfQ==");
}

#[test]
fn view_results_are_the_returned_bytes() {
    let kind = QueryResponseKind::CallResult { result: b"[]".to_vec() };
    assert_eq!(view(response(kind, "")), Ok(b"[]".to_vec()));
}

#[test]
fn view_results_of_another_kind_are_errors() {
    for kind in [QueryResponseKind::Other, QueryResponseKind::AccessKey { nonce: 1 }] {
        assert_eq!(
            view(response(kind, "AccessKey(..)")),
            Err(RpcError::WrongResponseKind(
                "Expected CallResult got AccessKey(..)".to_string()
            ))
        );
    }
}

#[test]
fn failed_queries_are_errors() {
    let text = || "unreachable".to_string();
    assert_eq!(get_access_key_data(Err(text())), Err(RpcError::AccessKeyDataError(text())));
    assert_eq!(view(Err(text())), Err(RpcError::ViewMethodError(text())));
    assert_eq!(view_value::<u8>(Err(text())), Err(RpcError::DeserializeError(text())));
    assert_eq!(view_value(Ok(7)), Ok(7));
}

#[test]
fn errors_say_what_happened() {
    let text = || "why".to_string();
    let cases = [
        (RpcError::ViewMethodError(text()), "Failed to query view method: why"),
        (RpcError::AccessKeyDataError(text()), "Failed to get access key data: why"),
        (RpcError::WrongResponseKind(text()), "Got wrong response kind from RPC: why"),
        (RpcError::SendTransactionError(text()), "Failed to send transaction: why"),
        (RpcError::DeserializeError(text()), "Failed to deserialize response: why"),
        (RpcError::TimeoutError(10, 12), "Timeout exceeded: 10"),
        (RpcError::NoOutcome(text()), "No outcome for transaction: why"),
        (RpcError::SolverRequestError(text()), "Error sending request to Solver RPC: why"),
        (
            RpcError::SolverResponseDeserialization(text()),
            "Error deserializing response from Solver RPC: why",
        ),
        (RpcError::NoQuoteHashReceived, "No quote hash received from Solver RPC"),
        (RpcError::SystemTimeError(text()), "Error getting system time: why"),
    ];
    for (error, message) in cases {
        assert_eq!(error.message(), message);
    }
}

#[test]
fn gas_of_a_transfer() {
    assert_eq!(GAS_FT_TRANSFER, near_sdk::Gas::from_tgas(6).as_gas());
}
