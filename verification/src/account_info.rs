use vstd::prelude::*;
use crate::text::{contains_text, text_contains};

verus! {

/// Why looking up an account's information failed, as far as the report to
/// the user goes.
#[derive(Debug, Clone, Copy, PartialEq, Eq, Structural)]
pub enum InfoQueryProblem {
    /// The payer cannot pay for the query.
    InsufficientPayerBalance,
    /// A passing problem; the query may be tried again.
    Transient,
    /// Anything else.
    Other,
}

/// The problem that the failure message `message` reports: a message naming
/// `INSUFFICIENT_PAYER_BALANCE` is about the payer's funds, whatever else it
/// says; otherwise one mentioning `Transient` is a passing problem.
pub open spec fn problem_of(message: Seq<char>) -> InfoQueryProblem {
    if contains_text(message, "INSUFFICIENT_PAYER_BALANCE"@) {
        InfoQueryProblem::InsufficientPayerBalance
    } else if contains_text(message, "Transient"@) {
        InfoQueryProblem::Transient
    } else {
        InfoQueryProblem::Other
    }
}

/// What went wrong with an account information query that failed with
/// `message`.
pub fn classify_info_error(message: &str) -> (r: InfoQueryProblem)
    ensures
        r == problem_of(message@),
{
    if text_contains(message, "INSUFFICIENT_PAYER_BALANCE") {
        InfoQueryProblem::InsufficientPayerBalance
    } else if text_contains(message, "Transient") {
        InfoQueryProblem::Transient
    } else {
        InfoQueryProblem::Other
    }
}

} // verus!
