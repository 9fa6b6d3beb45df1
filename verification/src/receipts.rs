use vstd::prelude::*;
use vstd::arithmetic::power2::{pow2, lemma_pow2_unfold, lemma2_to64};
use vstd::string::StringExecFns;
use crate::ids::{AccountRef, EntityId};
use crate::text::{contains_text, text_contains};

verus! {

/// Numeric response code of a successful transaction.
pub const STATUS_SUCCESS: i32 = 22;

/// Numeric response code of an association with a token that the account
/// already holds.
pub const STATUS_TOKEN_ALREADY_ASSOCIATED: i32 = 194;

/// How many times a transient failure is retried before giving up.
pub const MAX_RETRIES: u32 = 5;

/// What the workflows read of a transaction receipt.
#[derive(Debug, PartialEq)]
pub struct ReceiptInfo {
    /// Response code of the transaction.
    pub status: i32,
    /// The transaction's identifier in its display form, where known.
    pub transaction_id: Option<String>,
    /// The account that the transaction created, if any.
    pub account_id: Option<AccountRef>,
    /// The file that the transaction created, if any.
    pub file_id: Option<EntityId>,
    /// The contract that the transaction created, if any.
    pub contract_id: Option<EntityId>,
}

/// What asking the network for a receipt came back with.
#[derive(Debug, PartialEq)]
pub enum ReceiptOutcome {
    /// A receipt.
    Received(ReceiptInfo),
    /// The receipt reported that the transaction failed with `status`.
    StatusRejected { status: i32, transaction_id: Option<String> },
    /// Any other failure, by its message.
    Failed { message: String },
}

/// Why a receipt or record could not be had.
#[derive(Debug, PartialEq)]
pub enum ReceiptError {
    /// The transaction failed with `status`; `transaction` names it, or reads
    /// `Unknown`.
    Rejected { transaction: String, status: i32 },
    /// The request failed with `message` and was not retried (again).
    Sdk { message: String },
}

/// The next move of a retry loop.
#[derive(Debug, PartialEq)]
pub enum RetryStep<T> {
    /// Stop with this result.
    Finished(Result<T, ReceiptError>),
    /// Wait `delay_secs` seconds, then ask again with the counter at `attempts`.
    Retry { attempts: u32, delay_secs: u64 },
}

/// A failure whose message marks it as transient.
pub open spec fn is_transient(message: Seq<char>) -> bool {
    contains_text(message, "Transient"@)
}

/// The move after a failure with `message` when `attempts` retries were made
/// so far: a transient failure is retried while fewer than `MAX_RETRIES`
/// retries were made, after `2^(attempts + 1)` seconds; any other failure ends
/// the loop with the failure.
pub open spec fn after_failure<T>(attempts: u32, message: String) -> RetryStep<T> {
    if is_transient(message@) && attempts < MAX_RETRIES {
        RetryStep::Retry { attempts: (attempts + 1) as u32, delay_secs: pow2((attempts + 1) as nat) as u64 }
    } else {
        RetryStep::Finished(Err(ReceiptError::Sdk { message }))
    }
}

/// The label under which a rejected transaction is reported.
pub open spec fn transaction_label(transaction_id: Option<String>) -> Seq<char> {
    match transaction_id {
        Some(id) => id@,
        None => "Unknown"@,
    }
}

/// The receipt that stands for an association with a token that the account
/// already holds: the status and transaction, and nothing created.
pub open spec fn already_associated_receipt(status: i32, transaction_id: Option<String>) -> ReceiptInfo {
    ReceiptInfo { status, transaction_id, account_id: None, file_id: None, contract_id: None }
}

fn backoff_delay(attempt: u32) -> (r: u64)
    requires
        attempt <= MAX_RETRIES,
    ensures
        r == pow2(attempt as nat),
{
    proof {
        lemma2_to64();
    }
    let mut delay: u64 = 1;
    let mut k: u32 = 0;
    while k < attempt
        invariant
            k <= attempt <= MAX_RETRIES,
            delay == pow2(k as nat),
            pow2(5) == 32,
            pow2(4) == 16,
            pow2(3) == 8,
            pow2(2) == 4,
            pow2(1) == 2,
            pow2(0) == 1,
        decreases attempt - k,
    {
        proof {
            lemma_pow2_unfold((k + 1) as nat);
        }
        delay = delay * 2;
        k = k + 1;
    }
    delay
}

fn retry_or_fail<T>(attempts: u32, message: String) -> (r: RetryStep<T>)
    ensures
        r == after_failure::<T>(attempts, message),
{
    let transient = text_contains(message.as_str(), "Transient");
    proof {
        reveal_strlit("Transient");
    }
    if transient && attempts < MAX_RETRIES {
        let delay = backoff_delay(attempts + 1);
        RetryStep::Retry { attempts: attempts + 1, delay_secs: delay }
    } else {
        RetryStep::Finished(Err(ReceiptError::Sdk { message }))
    }
}

/// One round of waiting for a receipt: `attempts` retries were made so far and
/// the last request came back with `outcome`.  A receipt ends the loop with
/// it; a rejection ends the loop, as a receipt of that status when the
/// account already held the token and as an error otherwise; any other
/// failure is retried as `after_failure` says.
pub fn receipt_step(attempts: u32, outcome: ReceiptOutcome) -> (r: RetryStep<ReceiptInfo>)
    ensures
        outcome matches ReceiptOutcome::Received(info) ==> r == RetryStep::Finished(Ok(info)),
        outcome matches ReceiptOutcome::StatusRejected { status, transaction_id } ==> {
            if status == STATUS_TOKEN_ALREADY_ASSOCIATED {
                r == RetryStep::Finished(Ok(already_associated_receipt(status, transaction_id)))
            } else {
                r matches RetryStep::Finished(Err(ReceiptError::Rejected { transaction, status: s }))
                    && transaction@ == transaction_label(transaction_id) && s == status
            }
        },
        outcome matches ReceiptOutcome::Failed { message } ==> r == after_failure::<ReceiptInfo>(
            attempts,
            message,
        ),
{
    match outcome {
        ReceiptOutcome::Received(info) => RetryStep::Finished(Ok(info)),
        ReceiptOutcome::StatusRejected { status, transaction_id } => {
            if status == STATUS_TOKEN_ALREADY_ASSOCIATED {
                RetryStep::Finished(
                    Ok(
                        ReceiptInfo {
                            status,
                            transaction_id,
                            account_id: None,
                            file_id: None,
                            contract_id: None,
                        },
                    ),
                )
            } else {
                let transaction = match transaction_id {
                    Some(id) => id,
                    None => String::from_str("Unknown"),
                };
                RetryStep::Finished(Err(ReceiptError::Rejected { transaction, status }))
            }
        },
        ReceiptOutcome::Failed { message } => retry_or_fail(attempts, message),
    }
}

/// One round of waiting for a transaction record: `attempts` retries were
/// made so far and the last request came back with `outcome`.  A record ends
/// the loop with it; a failure is retried as `after_failure` says.
pub fn record_step<T>(attempts: u32, outcome: Result<T, String>) -> (r: RetryStep<T>)
    ensures
        outcome matches Ok(record) ==> r == RetryStep::<T>::Finished(Ok(record)),
        outcome matches Err(message) ==> r == after_failure::<T>(attempts, message),
{
    match outcome {
        Ok(record) => RetryStep::Finished(Ok(record)),
        Err(message) => retry_or_fail(attempts, message),
    }
}

/// Retries made and seconds waited by a retry loop that has made `attempts`
/// retries and then meets the failures `messages` in turn, until it gives up
/// or the failures run out.
pub open spec fn failure_run(attempts: u32, messages: Seq<String>) -> (nat, nat)
    decreases messages.len(),
{
    if messages.len() == 0 {
        (0, 0)
    } else {
        match after_failure::<()>(attempts, messages[0]) {
            RetryStep::Retry { attempts: next, delay_secs } => {
                let rest = failure_run(next, messages.drop_first());
                (rest.0 + 1, (rest.1 + delay_secs) as nat)
            },
            RetryStep::Finished(_) => (0, 0),
        }
    }
}

proof fn lemma_failure_run(attempts: u32, messages: Seq<String>)
    requires
        attempts <= MAX_RETRIES,
    ensures
        failure_run(attempts, messages).0 <= MAX_RETRIES - attempts,
        failure_run(attempts, messages).1 + pow2((attempts + 1) as nat) <= 64,
        (messages.len() > MAX_RETRIES - attempts && forall|i: int|
            0 <= i < messages.len() ==> #[trigger] is_transient(messages[i]@)) ==> failure_run(
            attempts,
            messages,
        ) == (
            (MAX_RETRIES - attempts) as nat,
            (64 - pow2((attempts + 1) as nat)) as nat,
        ),
    decreases messages.len(),
{
    lemma2_to64();
    if messages.len() > 0 && is_transient(messages[0]@) && attempts < MAX_RETRIES {
        let rest = messages.drop_first();
        lemma_failure_run((attempts + 1) as u32, rest);
        if messages.len() > MAX_RETRIES - attempts && forall|i: int|
            0 <= i < messages.len() ==> #[trigger] is_transient(messages[i]@) {
            assert forall|i: int| 0 <= i < rest.len() implies #[trigger] is_transient(rest[i]@) by {
                assert(is_transient(messages[i + 1]@));
            }
        }
    }
}

/// A receipt or record loop that starts afresh retries at most `MAX_RETRIES`
/// times and waits at most 62 seconds in all, whatever failures it meets;
/// when more than `MAX_RETRIES` transient failures come in a row it retries
/// exactly `MAX_RETRIES` times, after 2, 4, 8, 16 and 32 seconds.
pub proof fn law_retry_budget(messages: Seq<String>)
    ensures
        failure_run(0, messages).0 <= MAX_RETRIES,
        failure_run(0, messages).1 <= 62,
        (messages.len() > MAX_RETRIES && forall|i: int|
            0 <= i < messages.len() ==> #[trigger] is_transient(messages[i]@)) ==> failure_run(
            0,
            messages,
        ) == (5nat, 62nat),
{
    lemma2_to64();
    lemma_failure_run(0, messages);
}

/// The wait, in seconds, before the retry that follows `attempts` earlier
/// retries: 2, 4, 8, 16, 32.
pub open spec fn wait_before_retry(attempts: u32) -> u64 {
    if attempts == 0 {
        2
    } else if attempts == 1 {
        4
    } else if attempts == 2 {
        8
    } else if attempts == 3 {
        16
    } else {
        32
    }
}

/// A failure is retried only when its message contains `Transient` and fewer
/// than five retries were made, after `wait_before_retry` seconds, with the
/// count one higher.  Any other failure, whatever the count, ends the loop
/// with that failure's message.
pub proof fn law_only_transient_failures_retried<T>(attempts: u32, message: String)
    ensures
        !contains_text(message@, "Transient"@) ==> (after_failure::<T>(attempts, message)
            == RetryStep::<T>::Finished(Err(ReceiptError::Sdk { message }))),
        attempts >= 5 ==> (after_failure::<T>(attempts, message) == RetryStep::<T>::Finished(
            Err(ReceiptError::Sdk { message }),
        )),
        contains_text(message@, "Transient"@) && attempts < 5 ==> (after_failure::<T>(
            attempts,
            message,
        ) == (RetryStep::<T>::Retry {
            attempts: (attempts + 1) as u32,
            delay_secs: wait_before_retry(attempts),
        })),
{
    lemma2_to64();
}

} // verus!
