use near_crypto::{KeyType, SecretKey, Signature};
use templar_bots::account::AccountId;
use templar_bots::crypto::Signer;
use templar_bots::near::{
    send_tx, RpcError, SendTx, SendTxStep, StatusRequest, TxExecutionStatus, TxFailure, TxReply,
};
use templar_bots::transaction::{hash_text, FunctionCallAction, Transaction};

const SECOND: u128 = 1_000_000_000;
const MILLI: u128 = 1_000_000;

fn start(timeout: u64, now: u128) -> SendTx {
    SendTx {
        sender_id: AccountId::parse("bot.near").unwrap(),
        tx_hash: [7; 32],
        timeout,
        called_at: now,
        poll_interval: None,
    }
}

fn timed_out() -> TxReply<&'static str> {
    Err(TxFailure::Timeout)
}

#[test]
fn sending_signs_the_hash() {
    let key = SecretKey::from_seed(KeyType::ED25519, "seed");
    let account = AccountId::parse("bot.near").unwrap();
    let signer = Signer::new(account.clone(), key.to_string()).unwrap();
    let tx = Transaction {
        signer_id: AccountId::parse("other.near").unwrap(),
        public_key: signer.public_key(),
        nonce: 1,
        receiver_id: account.clone(),
        block_hash: [0; 32],
        actions: vec![FunctionCallAction {
            method_name: "f".to_string(),
            args: vec![],
            gas: 1,
            deposit: 0,
        }],
    };
    let hash = tx.hash();
    let (request, state) = send_tx(&signer, 10, tx, 77);
    assert_eq!(request.wait_until, TxExecutionStatus::Final);
    let signed = request.signed_transaction;
    let signature: Signature = signed.signature.parse().unwrap();
    assert!(signature.verify(&hash, &key.public_key()));
    assert_eq!(signed.transaction.hash(), hash);
    assert_eq!(
        state,
        SendTx {
            sender_id: account,
            tx_hash: hash,
            timeout: 10,
            called_at: 77,
            poll_interval: None,
        }
    );
}

#[test]
fn status_questions_name_the_signer_and_the_hash() {
    let mut state = start(1_000, 0);
    for reply in [timed_out(), timed_out(), Ok(Some("done")), Ok(None), timed_out()] {
        let SendTxStep::PollAfter { state: next, .. } = state.on_reply(reply, 0) else {
            panic!("a pause");
        };
        assert_eq!(
            next.status_request(),
            StatusRequest {
                sender_id: AccountId::parse("bot.near").unwrap(),
                tx_hash: [7; 32],
                wait_until: TxExecutionStatus::Final,
            }
        );
        state = next;
    }
}

#[test]
fn an_outcome_is_returned() {
    let step = start(10, 0).on_reply(Ok(Some("done")), 100 * SECOND);
    assert_eq!(step, SendTxStep::Return(Ok("done")));
}

#[test]
fn an_answer_without_outcome_is_an_error() {
    let step = start(10, 0).on_reply(Ok(None::<&str>), 0);
    assert_eq!(step, SendTxStep::Return(Err(RpcError::NoOutcome(hash_text(&[7; 32])))));
}

#[test]
fn another_failure_is_returned_at_once() {
    let failure = || Err::<Option<&str>, _>(TxFailure::Other("bad nonce".to_string()));
    let error = || SendTxStep::Return(Err(RpcError::SendTransactionError("bad nonce".to_string())));
    assert_eq!(start(10, 0).on_reply(failure(), 0), error());
    let SendTxStep::PollAfter { state, .. } = start(10, 0).on_reply(timed_out(), 0) else {
        panic!("a pause");
    };
    assert_eq!(state.on_reply(failure(), 0), error());
}

#[test]
fn pauses_double_up_to_five_seconds() {
    let mut state = start(1_000, 0);
    let mut pauses = vec![];
    for _ in 0..7 {
        let SendTxStep::PollAfter { millis, state: next } = state.on_reply(timed_out(), 0) else {
            panic!("a pause");
        };
        pauses.push(millis);
        state = next;
    }
    assert_eq!(pauses, vec![500, 1_000, 2_000, 4_000, 5_000, 5_000, 5_000]);
}

#[test]
fn a_status_starts_the_pauses_anew() {
    let mut state = start(1_000, 0);
    for _ in 0..4 {
        let SendTxStep::PollAfter { state: next, .. } = state.on_reply(timed_out(), 0) else {
            panic!("a pause");
        };
        state = next;
    }
    let SendTxStep::PollAfter { millis, state } = state.on_reply(Ok(Some("done")), 0) else {
        panic!("a pause");
    };
    assert_eq!(millis, 500);
    assert_eq!(state.poll_interval, Some(1_000));
}

#[test]
fn a_late_status_is_not_an_outcome() {
    let SendTxStep::PollAfter { state, .. } = start(10, 0).on_reply(timed_out(), SECOND) else {
        panic!("a pause");
    };
    let SendTxStep::PollAfter { state, .. } = state.on_reply(Ok(Some("done")), 2 * SECOND) else {
        panic!("a pause");
    };
    assert_eq!(
        state.on_reply(Ok(Some("done")), 10 * SECOND),
        SendTxStep::Return(Err(RpcError::TimeoutError(10, 10)))
    );
}

#[test]
fn the_deadline_is_the_timeout_after_the_call() {
    let at = |now: u128| start(10, 5 * SECOND).on_reply(timed_out(), now);
    assert!(matches!(at(15 * SECOND - 1), SendTxStep::PollAfter { millis: 500, .. }));
    assert_eq!(at(15 * SECOND), SendTxStep::Return(Err(RpcError::TimeoutError(10, 10))));
    assert_eq!(
        at(17 * SECOND + 999 * MILLI),
        SendTxStep::Return(Err(RpcError::TimeoutError(10, 12)))
    );
    assert_eq!(
        start(0, 0).on_reply(timed_out(), 0),
        SendTxStep::Return(Err(RpcError::TimeoutError(0, 0)))
    );
}

#[test]
fn the_status_is_asked_for_at_most_twice_a_second() {
    let mut state = start(3, 0);
    let mut now = 0;
    let mut polls = 0;
    // Every answer is a status, so every pause is the shortest one.
    let mut step = state.on_reply(timed_out(), now);
    while let SendTxStep::PollAfter { millis, state: next } = step {
        polls += 1;
        now += u128::from(millis) * MILLI;
        state = next;
        step = state.on_reply(Ok(Some("done")), now);
    }
    assert_eq!(polls, 6);
    assert_eq!(step, SendTxStep::Return(Err(RpcError::TimeoutError(3, 3))));
}
