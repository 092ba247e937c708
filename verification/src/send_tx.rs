//! Sending a transaction, and waiting for it with growing pauses.
//!
//! The caller sends what [`send_tx`] returns and hands each answer, with the time at which it
//! came, to [`SendTx::on_reply`], which says what to do next. Whenever that is to ask for the
//! status, [`SendTx::status_request`] is the question. Times are readings of one
//! monotonic clock, in nanoseconds since a moment that the caller chose.

use vstd::prelude::*;

use crate::account::AccountId;
use crate::crypto::{base58, Signer};
use crate::error::{RpcError, RpcResult};
use crate::transaction::{hash_text, Transaction};

verus! {

/// The largest reading of the clock: the nanoseconds of the longest `Duration`.
pub const CLOCK_MAX: u128 = 18_446_744_073_709_551_615_999_999_999;

/// The first pause before the status of a transaction is asked for, in milliseconds.
pub const MIN_POLL_INTERVAL: u64 = 500;

/// The longest pause before the status of a transaction is asked for, in milliseconds.
pub const MAX_POLL_INTERVAL: u64 = 5_000;

/// A transaction with the signature of its hash.
#[derive(Debug, PartialEq, Eq)]
pub struct SignedTransaction {
    pub transaction: Transaction,
    pub signature: String,
}

/// How far a transaction is to have come before a node answers.
#[derive(Clone, Copy, Debug, PartialEq, Eq, Structural)]
pub enum TxExecutionStatus {
    /// It waits for its inclusion in a block.
    Waiting,
    /// It is in a block.
    Included,
    /// It is in a block, and its receipts but for refunds have been executed.
    ExecutedOptimistic,
    /// It is in a final block.
    IncludedFinal,
    /// It is in a final block, and its receipts but for refunds have been executed.
    Executed,
    /// It is in a final block, and the execution of all its receipts is final.
    Final,
}

/// A request to take in a transaction.
#[derive(Debug, PartialEq, Eq)]
pub struct SendRequest {
    pub signed_transaction: SignedTransaction,
    pub wait_until: TxExecutionStatus,
}

/// A question for the status of a transaction.
#[derive(Debug, PartialEq, Eq)]
pub struct StatusRequest {
    /// The account that sent the transaction.
    pub sender_id: AccountId,
    pub tx_hash: [u8; 32],
    pub wait_until: TxExecutionStatus,
}

/// Why a node did not answer with the state of a transaction.
#[derive(Debug, PartialEq, Eq)]
pub enum TxFailure {
    /// The node gave up waiting for the transaction.
    Timeout,
    /// Anything else, with its text.
    Other(String),
}

/// What a node answers to a transaction, and to a question for its status: the final outcome
/// where there is one, or a failure.
pub type TxReply<O> = Result<Option<O>, TxFailure>;

/// A transaction on its way.
#[derive(Debug, PartialEq, Eq)]
pub struct SendTx {
    /// The account that sent the transaction.
    pub sender_id: AccountId,
    /// The hash of the transaction.
    pub tx_hash: [u8; 32],
    /// The seconds within which the outcome is wanted.
    pub timeout: u64,
    /// When the transaction was sent.
    pub called_at: u128,
    /// The pause after the next timeout in milliseconds, `None` while the answer to the
    /// transaction itself is awaited.
    pub poll_interval: Option<u64>,
}

/// What to do after an answer.
#[derive(Debug, PartialEq, Eq)]
pub enum SendTxStep<O> {
    /// Nothing is left to do: this is the result.
    Return(RpcResult<O>),
    /// Pause for some milliseconds, then ask for the status of the transaction.
    PollAfter { millis: u64, state: SendTx },
}

impl SendTx {
    /// The clock readings make sense.
    pub open spec fn well_formed(self) -> bool {
        self.called_at <= CLOCK_MAX
    }

    /// The clock reading from which on no further status is asked for.
    pub open spec fn deadline(self) -> int {
        self.called_at + self.timeout * 1_000_000_000
    }

    /// Whether the answer to the transaction itself has come.
    pub open spec fn polling(self) -> bool {
        self.poll_interval is Some
    }

    /// The pause that follows an answer: it starts at the shortest when polling starts and
    /// after each status that came, and is what the state holds after a timeout.
    pub open spec fn pause<O>(self, reply: TxReply<O>) -> int {
        match (self.poll_interval, reply) {
            (Some(interval), Err(_)) => interval as int,
            _ => MIN_POLL_INTERVAL as int,
        }
    }

    /// Whether a step is the one to take after an answer.
    ///
    /// The outcome counts in the answer to the transaction itself only: once that answer was
    /// a timeout, a status that comes leads to another question, up to the deadline.
    pub open spec fn follows<O>(self, reply: TxReply<O>, now: u128, step: SendTxStep<O>) -> bool {
        match reply {
            Err(TxFailure::Other(text)) => step == SendTxStep::<O>::Return(
                Err(RpcError::SendTransactionError(text)),
            ),
            Ok(Some(outcome)) if !self.polling() => step == SendTxStep::Return(Ok(outcome)),
            Ok(None) if !self.polling() => {
                &&& step matches SendTxStep::Return(Err(RpcError::NoOutcome(text)))
                &&& text@ == base58(self.tx_hash@)
            },
            _ => if now >= self.deadline() {
                &&& step matches SendTxStep::Return(Err(RpcError::TimeoutError(timeout, elapsed)))
                &&& timeout == self.timeout
                &&& elapsed == (now - self.called_at) / 1_000_000_000
            } else {
                &&& step matches SendTxStep::PollAfter { millis, state }
                &&& millis == self.pause(reply)
                &&& state.sender_id == self.sender_id
                &&& state.tx_hash == self.tx_hash
                &&& state.timeout == self.timeout
                &&& state.called_at == self.called_at
                &&& state.poll_interval matches Some(interval)
                &&& interval == if 2 * millis <= MAX_POLL_INTERVAL {
                    2 * millis
                } else {
                    MAX_POLL_INTERVAL as int
                }
            },
        }
    }

    /// Whether a request asks for the status of the transaction, once it is final.
    pub open spec fn asks(self, request: StatusRequest) -> bool {
        &&& request.sender_id == self.sender_id
        &&& request.tx_hash == self.tx_hash
        &&& request.wait_until == TxExecutionStatus::Final
    }

    /// The question for the status of the transaction.
    pub fn status_request(&self) -> (request: StatusRequest)
        ensures
            self.asks(request),
    {
        StatusRequest {
            sender_id: self.sender_id.clone(),
            tx_hash: self.tx_hash,
            wait_until: TxExecutionStatus::Final,
        }
    }

    /// Decides what to do after an answer that came at the time `now`.
    pub fn on_reply<O>(self, reply: TxReply<O>, now: u128) -> (step: SendTxStep<O>)
        requires
            self.well_formed(),
            now <= CLOCK_MAX,
        ensures
            self.follows(reply, now, step),
            self.poll_interval is None ==> {
                &&& reply matches Ok(Some(outcome)) ==> step == SendTxStep::Return(Ok(outcome))
                &&& step is PollAfter ==> reply matches Err(TxFailure::Timeout)
            },
            step matches SendTxStep::PollAfter { state, .. } ==> state.well_formed(),
    {
        let millis: u64 = match (reply, self.poll_interval) {
            (Err(TxFailure::Other(text)), _) => {
                return SendTxStep::Return(Err(RpcError::SendTransactionError(text)));
            },
            (Ok(Some(outcome)), None) => {
                return SendTxStep::Return(Ok(outcome));
            },
            (Ok(None), None) => {
                return SendTxStep::Return(Err(RpcError::NoOutcome(hash_text(&self.tx_hash))));
            },
            (Err(TxFailure::Timeout), Some(interval)) => interval,
            _ => MIN_POLL_INTERVAL,
        };
        let deadline: u128 = self.called_at + self.timeout as u128 * 1_000_000_000;
        if now >= deadline {
            let elapsed: u128 = (now - self.called_at) / 1_000_000_000;
            return SendTxStep::Return(Err(RpcError::TimeoutError(self.timeout, elapsed as u64)));
        }
        let doubled: u64 = if millis <= MAX_POLL_INTERVAL / 2 {
            2 * millis
        } else {
            MAX_POLL_INTERVAL
        };
        SendTxStep::PollAfter {
            millis,
            state: SendTx { poll_interval: Some(doubled), ..self },
        }
    }
}

/// Whether a request sends a transaction that a signer signed, and a state awaits the answer
/// to it from the time `now` on.
pub open spec fn sends(
    signer: Signer,
    timeout: u64,
    tx: Transaction,
    now: u128,
    request: SendRequest,
    state: SendTx,
) -> bool {
    &&& request.signed_transaction.transaction == tx
    &&& request.signed_transaction.signature@ == signer.signature(tx.hash_bytes())
    &&& request.wait_until == TxExecutionStatus::Final
    &&& state.sender_id == signer.account()
    &&& state.tx_hash@ == tx.hash_bytes()
    &&& state.timeout == timeout
    &&& state.called_at == now
    &&& state.poll_interval is None
}

/// Signs a transaction and starts to send it at the time `now`: the request is to be sent,
/// once, and the state takes the answer.
pub fn send_tx(signer: &Signer, timeout: u64, tx: Transaction, now: u128) -> (sent: (
    SendRequest,
    SendTx,
))
    requires
        signer.signs_hashes(),
        tx.encodable(),
        now <= CLOCK_MAX,
    ensures
        sends(*signer, timeout, tx, now, sent.0, sent.1),
        sent.1.well_formed(),
{
    let tx_hash = tx.hash();
    let signature = signer.sign(tx_hash.as_slice());
    (
        SendRequest {
            signed_transaction: SignedTransaction { transaction: tx, signature },
            wait_until: TxExecutionStatus::Final,
        },
        SendTx {
            sender_id: signer.account_id().clone(),
            tx_hash,
            timeout,
            called_at: now,
            poll_interval: None,
        },
    )
}

/// A run of questions for the status: `replies[i]` came at `times[i]` in the state
/// `states[i]`, and led to a pause of `pauses[i]` milliseconds and the state `states[i + 1]`.
pub open spec fn poll_run<O>(
    states: Seq<SendTx>,
    replies: Seq<TxReply<O>>,
    times: Seq<u128>,
    pauses: Seq<u64>,
) -> bool {
    &&& states.len() == pauses.len() + 1
    &&& replies.len() == pauses.len()
    &&& times.len() == pauses.len()
    &&& forall|i: int|
        #![trigger pauses[i]]
        0 <= i < pauses.len() ==> states[i].follows(
            replies[i],
            times[i],
            SendTxStep::PollAfter { millis: pauses[i], state: states[i + 1] },
        )
}

/// What a run leaves unchanged, and what every pause of it keeps to.
pub proof fn lemma_poll_run<O>(
    states: Seq<SendTx>,
    replies: Seq<TxReply<O>>,
    times: Seq<u128>,
    pauses: Seq<u64>,
    k: int,
)
    requires
        poll_run(states, replies, times, pauses),
        !states[0].polling(),
        0 <= k < pauses.len(),
    ensures
        states[k + 1].sender_id == states[0].sender_id,
        states[k + 1].tx_hash == states[0].tx_hash,
        states[k + 1].timeout == states[0].timeout,
        states[k + 1].called_at == states[0].called_at,
        states[k + 1].polling(),
        MIN_POLL_INTERVAL <= pauses[k] <= MAX_POLL_INTERVAL,
        states[k + 1].poll_interval matches Some(interval) && MIN_POLL_INTERVAL <= interval
            <= MAX_POLL_INTERVAL,
    decreases k,
{
    let _ = pauses[k];
    if k > 0 {
        lemma_poll_run(states, replies, times, pauses, k - 1);
    }
}

/// Whatever the answers are, a transaction that was sent is only asked about afterwards: every
/// question names the account of the signer and the hash that was signed, and waits for the
/// final status.
pub proof fn lemma_status_requests<O>(
    signer: Signer,
    timeout: u64,
    tx: Transaction,
    now: u128,
    sent: SendRequest,
    states: Seq<SendTx>,
    replies: Seq<TxReply<O>>,
    times: Seq<u128>,
    pauses: Seq<u64>,
    k: int,
    request: StatusRequest,
)
    requires
        sends(signer, timeout, tx, now, sent, states[0]),
        poll_run(states, replies, times, pauses),
        0 <= k < pauses.len(),
        states[k + 1].asks(request),
    ensures
        request.sender_id == signer.account(),
        request.tx_hash@ == sent.signed_transaction.transaction.hash_bytes(),
        sent.signed_transaction.signature@ == signer.signature(request.tx_hash@),
        request.wait_until == TxExecutionStatus::Final,
{
    lemma_poll_run(states, replies, times, pauses, k);
}

/// A transaction that was not answered at once is not reported as done: after a pause, the
/// only results are failures.
pub proof fn lemma_no_outcome_after_pause<O>(
    states: Seq<SendTx>,
    replies: Seq<TxReply<O>>,
    times: Seq<u128>,
    pauses: Seq<u64>,
    reply: TxReply<O>,
    now: u128,
    result: RpcResult<O>,
)
    requires
        poll_run(states, replies, times, pauses),
        !states[0].polling(),
        pauses.len() > 0,
        states.last().follows(reply, now, SendTxStep::Return(result)),
    ensures
        result matches Err(RpcError::SendTransactionError(_)) || result matches Err(
            RpcError::TimeoutError(_, _),
        ),
{
    lemma_poll_run(states, replies, times, pauses, pauses.len() - 1);
}

/// The pause after so many timeouts in a row, in milliseconds: doubled each time, up to the
/// longest.
pub open spec fn backoff(k: nat) -> int
    decreases k,
{
    if k == 0 {
        MIN_POLL_INTERVAL as int
    } else if 2 * backoff((k - 1) as nat) <= MAX_POLL_INTERVAL {
        2 * backoff((k - 1) as nat)
    } else {
        MAX_POLL_INTERVAL as int
    }
}

/// While every answer is a timeout, the pauses are half a second, one, two and four seconds,
/// and five seconds from then on.
pub proof fn lemma_pauses_double<O>(
    states: Seq<SendTx>,
    replies: Seq<TxReply<O>>,
    times: Seq<u128>,
    pauses: Seq<u64>,
    k: int,
)
    requires
        poll_run(states, replies, times, pauses),
        !states[0].polling(),
        forall|i: int| 0 <= i < replies.len() ==> #[trigger] replies[i] is Err,
        0 <= k < pauses.len(),
    ensures
        pauses[k] == backoff(k as nat),
        backoff(0) == 500,
        backoff(1) == 1_000,
        backoff(2) == 2_000,
        backoff(3) == 4_000,
        k >= 4 ==> backoff(k as nat) == 5_000,
    decreases k,
{
    reveal_with_fuel(backoff, 5);
    lemma_backoff_state(states, replies, times, pauses, k);
    if k >= 4 {
        lemma_backoff_cap(k as nat);
    }
}

proof fn lemma_backoff_cap(k: nat)
    requires
        k >= 4,
    ensures
        backoff(k) == 5_000,
    decreases k,
{
    reveal_with_fuel(backoff, 6);
    if k > 4 {
        lemma_backoff_cap((k - 1) as nat);
    }
}

proof fn lemma_backoff_state<O>(
    states: Seq<SendTx>,
    replies: Seq<TxReply<O>>,
    times: Seq<u128>,
    pauses: Seq<u64>,
    k: int,
)
    requires
        poll_run(states, replies, times, pauses),
        !states[0].polling(),
        forall|i: int| 0 <= i < replies.len() ==> #[trigger] replies[i] is Err,
        0 <= k < pauses.len(),
    ensures
        pauses[k] == backoff(k as nat),
        states[k + 1].poll_interval matches Some(interval) && interval == backoff((k + 1) as nat),
    decreases k,
{
    let _ = pauses[k];
    let _ = replies[k];
    if k > 0 {
        lemma_backoff_state(states, replies, times, pauses, k - 1);
    }
    assert(((k + 1) as nat - 1) as nat == k as nat);
    assert(backoff((k + 1) as nat) == if 2 * backoff(k as nat) <= MAX_POLL_INTERVAL {
        2 * backoff(k as nat)
    } else {
        MAX_POLL_INTERVAL as int
    });
}

/// Waiting ends: if each answer after the first comes no earlier than the pause before it
/// allows, the status is asked for at most twice for each second of the timeout.
pub proof fn lemma_polls_bounded<O>(
    states: Seq<SendTx>,
    replies: Seq<TxReply<O>>,
    times: Seq<u128>,
    pauses: Seq<u64>,
)
    requires
        poll_run(states, replies, times, pauses),
        !states[0].polling(),
        pauses.len() > 0 ==> times[0] >= states[0].called_at,
        forall|i: int, j: int|
            #![trigger times[i], times[j]]
            0 <= i && j == i + 1 && j < times.len() ==> times[j] >= times[i] + pauses[i]
                * 1_000_000,
    ensures
        pauses.len() <= 2 * states[0].timeout,
{
    if pauses.len() > 0 {
        let last = pauses.len() - 1;
        lemma_elapsed(states, replies, times, pauses, last);
        let _ = pauses[last];
        if last > 0 {
            lemma_poll_run(states, replies, times, pauses, last - 1);
        }
        assert(times[last] < states[last].deadline());
    }
}

proof fn lemma_elapsed<O>(
    states: Seq<SendTx>,
    replies: Seq<TxReply<O>>,
    times: Seq<u128>,
    pauses: Seq<u64>,
    k: int,
)
    requires
        poll_run(states, replies, times, pauses),
        !states[0].polling(),
        times[0] >= states[0].called_at,
        forall|i: int, j: int|
            #![trigger times[i], times[j]]
            0 <= i && j == i + 1 && j < times.len() ==> times[j] >= times[i] + pauses[i]
                * 1_000_000,
        0 <= k < pauses.len(),
    ensures
        times[k] >= states[0].called_at + k * 500_000_000,
    decreases k,
{
    if k > 0 {
        lemma_elapsed(states, replies, times, pauses, k - 1);
        lemma_poll_run(states, replies, times, pauses, k - 1);
        assert(times[k] >= times[k - 1] + pauses[k - 1] * 1_000_000);
    }
}

} // verus!
