use vstd::prelude::*;
use vstd::string::StringExecFns;
use crate::ids::{AccountRef, EntityId};
use crate::receipts::{already_associated_receipt, STATUS_SUCCESS, STATUS_TOKEN_ALREADY_ASSOCIATED};

verus! {

/// Tinybars in one hbar.
pub const TINYBARS_PER_HBAR: i64 = 100_000_000;

/// Starting balance of a new account: 10 ℏ, in tinybars.
pub const NEW_ACCOUNT_BALANCE: i64 = 1_000_000_000;

/// Amount sent by an hbar transfer: 10 ℏ, in tinybars.
pub const HBAR_TRANSFER_AMOUNT: i64 = 1_000_000_000;

/// The fee allowed for a transaction: 1 ℏ, in tinybars.
pub const ESTIMATED_FEE: i64 = 100_000_000;

/// The most token units that one token transfer moves.
pub const MAX_TOKEN_TRANSFER: u64 = 100;

/// `n` hbars in tinybars.
pub open spec fn hbars(n: int) -> int {
    n * TINYBARS_PER_HBAR
}

/// The account on whose behalf a token association is made.
#[derive(Debug, Clone, Copy, PartialEq, Eq, Structural)]
pub enum Party {
    Operator,
    Recipient,
}

/// What a failed contract deployment's record says about the failure.
#[derive(Debug, PartialEq)]
pub enum DeployDiagnostic {
    /// The record holds no result of the contract's constructor.
    NoFunctionResult,
    /// The constructor's result holds no error message.
    NoErrorMessage,
    /// The constructor's error message is empty.
    EmptyErrorMessage,
    /// The constructor's error message.
    ErrorMessage(String),
}

/// Why an operation stopped before its end.
#[derive(Debug, PartialEq)]
pub enum OpError {
    /// The operator's hbar balance does not cover what the operation needs.
    InsufficientBalance { required: i64, available: i64 },
    /// The operator's hbar balance does not cover the fee of a token transfer.
    InsufficientHbarBalance { required: i64, available: i64 },
    /// The operator holds none of the token.
    InsufficientTokenBalance,
    /// Associating `party`'s account with the token failed with `status`.
    AssociationFailed { party: Party, status: i32 },
    /// The contract was not created; the receipt's status and what the
    /// record says.
    DeploymentFailed { status: i32, diagnostic: DeployDiagnostic },
}

/// The message that an operation stopped with `e` reports; where the error
/// carries a status, the message goes on with the status's name.
pub open spec fn failure_text(e: OpError) -> Seq<char> {
    match e {
        OpError::InsufficientBalance { .. } => "Insufficient operator account balance"@,
        OpError::InsufficientHbarBalance { .. } => "Insufficient operator account hbar balance"@,
        OpError::InsufficientTokenBalance => "Insufficient token balance"@,
        OpError::AssociationFailed { party: Party::Operator, .. } =>
            "Operator Token Association failed with status: "@,
        OpError::AssociationFailed { party: Party::Recipient, .. } =>
            "Recipient Token Association failed with status: "@,
        OpError::DeploymentFailed { .. } => "Failed to deploy smart contract. Transaction status: "@,
    }
}

/// The message that an operation stopped with `e` reports (before the
/// status's name, where it has one).
pub fn failure_message(e: &OpError) -> (r: String)
    ensures
        r@ == failure_text(*e),
{
    match e {
        OpError::InsufficientBalance { .. } => String::from_str(
            "Insufficient operator account balance",
        ),
        OpError::InsufficientHbarBalance { .. } => String::from_str(
            "Insufficient operator account hbar balance",
        ),
        OpError::InsufficientTokenBalance => String::from_str("Insufficient token balance"),
        OpError::AssociationFailed { party: Party::Operator, .. } => String::from_str(
            "Operator Token Association failed with status: ",
        ),
        OpError::AssociationFailed { party: Party::Recipient, .. } => String::from_str(
            "Recipient Token Association failed with status: ",
        ),
        OpError::DeploymentFailed { .. } => String::from_str(
            "Failed to deploy smart contract. Transaction status: ",
        ),
    }
}

/// A movement of hbars or token units to (positive) or from (negative) an
/// account.
#[derive(Debug, Clone, Copy, PartialEq, Eq)]
pub struct Transfer {
    pub account: AccountRef,
    pub amount: i64,
}

/// The sum of the amounts that `transfers` move.
pub open spec fn net_amount(transfers: Seq<Transfer>) -> int
    decreases transfers.len(),
{
    if transfers.len() == 0 {
        0
    } else {
        net_amount(transfers.drop_last()) + transfers.last().amount
    }
}

/// The transfers that move `amount` from `from` to `to`.
pub open spec fn move_between(from: AccountRef, to: AccountRef, amount: int) -> Seq<Transfer> {
    seq![Transfer { account: from, amount: -amount as i64 }, Transfer { account: to, amount: amount as i64 }]
}

/// Nothing is submitted unless `balance` covers `required`.
pub open spec fn covers(balance: i64, required: int) -> bool {
    balance >= required
}

/// An account creation to submit.
#[derive(Debug, Clone, Copy, PartialEq, Eq, Structural)]
pub struct AccountCreation {
    /// Starting balance of the new account, in tinybars.
    pub initial_balance: i64,
    /// Highest fee allowed, in tinybars.
    pub max_fee: i64,
}

/// An hbar transfer to submit.
#[derive(Debug, PartialEq)]
pub struct HbarTransfer {
    pub transfers: Vec<Transfer>,
    /// Highest fee allowed, in tinybars.
    pub max_fee: i64,
}

/// A token transfer to submit.
#[derive(Debug, PartialEq)]
pub struct TokenTransfer {
    pub token: EntityId,
    pub transfers: Vec<Transfer>,
    /// Highest fee allowed, in tinybars.
    pub max_fee: i64,
}

/// Whether the operator, holding `operator_balance` tinybars, may create an
/// account: the balance must cover the new account's 10 ℏ and the 1 ℏ fee.
pub fn plan_account_creation(operator_balance: i64) -> (r: Result<AccountCreation, OpError>)
    ensures
        covers(operator_balance, hbars(10) + hbars(1)) ==> r == Ok::<AccountCreation, OpError>(
            AccountCreation { initial_balance: hbars(10) as i64, max_fee: hbars(1) as i64 },
        ),
        !covers(operator_balance, hbars(10) + hbars(1)) ==> r == Err::<AccountCreation, OpError>(
            OpError::InsufficientBalance {
                required: (hbars(10) + hbars(1)) as i64,
                available: operator_balance,
            },
        ),
{
    let required = NEW_ACCOUNT_BALANCE + ESTIMATED_FEE;
    if operator_balance < required {
        Err(OpError::InsufficientBalance { required, available: operator_balance })
    } else {
        Ok(AccountCreation { initial_balance: NEW_ACCOUNT_BALANCE, max_fee: ESTIMATED_FEE })
    }
}

/// Whether the operator, holding `operator_balance` tinybars, may send 10 ℏ to
/// `recipient`: the balance must cover the amount and the 1 ℏ fee.  The
/// transfer takes the amount from the operator and gives it to the recipient.
pub fn plan_hbar_transfer(operator_balance: i64, operator: AccountRef, recipient: AccountRef) -> (r:
    Result<HbarTransfer, OpError>)
    ensures
        covers(operator_balance, hbars(10) + hbars(1)) <==> r is Ok,
        r matches Ok(plan) ==> plan.transfers@ == move_between(operator, recipient, hbars(10))
            && plan.max_fee == hbars(1) && net_amount(plan.transfers@) == 0,
        r matches Err(e) ==> e == (OpError::InsufficientBalance {
            required: (hbars(10) + hbars(1)) as i64,
            available: operator_balance,
        }),
{
    let required = HBAR_TRANSFER_AMOUNT + ESTIMATED_FEE;
    if operator_balance < required {
        return Err(OpError::InsufficientBalance { required, available: operator_balance });
    }
    let mut transfers: Vec<Transfer> = Vec::new();
    transfers.push(Transfer { account: operator, amount: -HBAR_TRANSFER_AMOUNT });
    transfers.push(Transfer { account: recipient, amount: HBAR_TRANSFER_AMOUNT });
    proof {
        assert(transfers@ =~= move_between(operator, recipient, hbars(10)));
        assert(transfers@.drop_last().drop_last() =~= Seq::<Transfer>::empty());
        reveal_with_fuel(net_amount, 3);
    }
    Ok(HbarTransfer { transfers, max_fee: ESTIMATED_FEE })
}

/// Whether the operator, holding `operator_balance` tinybars, may pay for a
/// token association; the fee allowed when it may.
pub fn check_association_fee(operator_balance: i64) -> (r: Result<i64, OpError>)
    ensures
        covers(operator_balance, hbars(1)) ==> r == Ok::<i64, OpError>(hbars(1) as i64),
        !covers(operator_balance, hbars(1)) ==> r == Err::<i64, OpError>(
            OpError::InsufficientBalance { required: hbars(1) as i64, available: operator_balance },
        ),
{
    if operator_balance < ESTIMATED_FEE {
        Err(OpError::InsufficientBalance { required: ESTIMATED_FEE, available: operator_balance })
    } else {
        Ok(ESTIMATED_FEE)
    }
}

/// How a token association ended well.
#[derive(Debug, Clone, Copy, PartialEq, Eq, Structural)]
pub enum AssociationOutcome {
    /// The account now holds the token.
    Associated,
    /// The account held the token before.
    AlreadyAssociated,
}

/// What the receipt status `status` of `party`'s token association means:
/// success, an association already in place, or else a failure.
pub open spec fn association_outcome(party: Party, status: i32) -> Result<AssociationOutcome, OpError> {
    if status == STATUS_SUCCESS {
        Ok(AssociationOutcome::Associated)
    } else if status == STATUS_TOKEN_ALREADY_ASSOCIATED {
        Ok(AssociationOutcome::AlreadyAssociated)
    } else {
        Err(OpError::AssociationFailed { party, status })
    }
}

/// How `party`'s token association ended, given its receipt status `status`.
pub fn association_result(party: Party, status: i32) -> (r: Result<AssociationOutcome, OpError>)
    ensures
        r == association_outcome(party, status),
{
    if status == STATUS_TOKEN_ALREADY_ASSOCIATED {
        Ok(AssociationOutcome::AlreadyAssociated)
    } else if status == STATUS_SUCCESS {
        Ok(AssociationOutcome::Associated)
    } else {
        Err(OpError::AssociationFailed { party, status })
    }
}

/// Associating an account with a token that it already holds does not fail,
/// for the operator or the recipient: the receipt that the receipt loop makes
/// of the network's rejection counts as an association already in place, and
/// so does a receipt that carries that status itself.
pub proof fn law_repeat_association_accepted(party: Party, transaction_id: Option<String>)
    ensures
        association_outcome(
            party,
            already_associated_receipt(STATUS_TOKEN_ALREADY_ASSOCIATED, transaction_id).status,
        ) == Ok::<AssociationOutcome, OpError>(AssociationOutcome::AlreadyAssociated),
        association_outcome(party, STATUS_TOKEN_ALREADY_ASSOCIATED) is Ok,
        association_outcome(party, STATUS_SUCCESS) is Ok,
        forall|status: i32|
            status != STATUS_SUCCESS && status != STATUS_TOKEN_ALREADY_ASSOCIATED
                ==> #[trigger] association_outcome(party, status) is Err,
{
}

/// The balance that `balances` gives for `token`: the first entry's, or 0
/// where it has none.
pub open spec fn balance_for(balances: Seq<(EntityId, u64)>, token: EntityId) -> u64
    decreases balances.len(),
{
    if balances.len() == 0 {
        0
    } else if balances[0].0 == token {
        balances[0].1
    } else {
        balance_for(balances.drop_first(), token)
    }
}

proof fn lemma_balance_for(balances: Seq<(EntityId, u64)>, token: EntityId, j: int)
    requires
        0 <= j < balances.len(),
        balances[j].0 == token,
        forall|k: int| 0 <= k < j ==> balances[k].0 != token,
    ensures
        balance_for(balances, token) == balances[j].1,
    decreases j,
{
    if j > 0 {
        let rest = balances.drop_first();
        assert forall|k: int| 0 <= k < j - 1 implies rest[k].0 != token by {
            assert(rest[k] == balances[k + 1]);
        }
        lemma_balance_for(rest, token, j - 1);
    }
}

proof fn lemma_balance_for_absent(balances: Seq<(EntityId, u64)>, token: EntityId)
    requires
        forall|k: int| 0 <= k < balances.len() ==> balances[k].0 != token,
    ensures
        balance_for(balances, token) == 0,
    decreases balances.len(),
{
    if balances.len() > 0 {
        let rest = balances.drop_first();
        assert forall|k: int| 0 <= k < rest.len() implies rest[k].0 != token by {
            assert(rest[k] == balances[k + 1]);
        }
        lemma_balance_for_absent(rest, token);
    }
}

/// No token occurs twice in `balances`, as in a map from tokens to units.
pub open spec fn distinct_tokens(balances: Seq<(EntityId, u64)>) -> bool {
    forall|i: int, j: int|
        0 <= i < j < balances.len() ==> #[trigger] balances[i].0 != #[trigger] balances[j].0
}

/// The units of `token` that an account holds, given its token balances:
/// where no token occurs twice, as in the balance map that the network
/// returns, the units listed for `token`, and 0 where it is not listed.
pub fn token_balance_of(balances: &Vec<(EntityId, u64)>, token: EntityId) -> (r: u64)
    ensures
        r == balance_for(balances@, token),
        distinct_tokens(balances@) ==> forall|j: int|
            0 <= j < balances@.len() && #[trigger] balances@[j].0 == token ==> r == balances@[j].1,
        (forall|j: int| 0 <= j < balances@.len() ==> #[trigger] balances@[j].0 != token) ==> r == 0,
{
    proof {
        if distinct_tokens(balances@) {
            assert forall|j: int|
                0 <= j < balances@.len() && #[trigger] balances@[j].0 == token implies balance_for(
                balances@,
                token,
            ) == balances@[j].1 by {
                assert forall|k: int| 0 <= k < j implies balances@[k].0 != token by {
                    assert(balances@[k].0 != balances@[j].0);
                }
                lemma_balance_for(balances@, token, j);
            }
        }
        if forall|j: int| 0 <= j < balances@.len() ==> #[trigger] balances@[j].0 != token {
            lemma_balance_for_absent(balances@, token);
        }
    }
    let mut i: usize = 0;
    assert(balances@.skip(0) =~= balances@);
    while i < balances.len()
        invariant
            i <= balances@.len(),
            balance_for(balances@, token) == balance_for(balances@.skip(i as int), token),
        decreases balances.len() - i,
    {
        let (id, units) = balances[i];
        if id == token {
            return units;
        }
        assert(balances@.skip(i as int).drop_first() =~= balances@.skip(i + 1));
        i = i + 1;
    }
    0
}

/// How many units of the token to send when the operator holds
/// `token_balance`: all of them up to `MAX_TOKEN_TRANSFER`; none held is an
/// error.
pub fn token_amount_to_transfer(token_balance: u64) -> (r: Result<u64, OpError>)
    ensures
        token_balance == 0 ==> r == Err::<u64, OpError>(OpError::InsufficientTokenBalance),
        token_balance > 0 ==> r == Ok::<u64, OpError>(
            if token_balance <= MAX_TOKEN_TRANSFER { token_balance } else { MAX_TOKEN_TRANSFER },
        ),
{
    if token_balance == 0 {
        Err(OpError::InsufficientTokenBalance)
    } else if token_balance <= MAX_TOKEN_TRANSFER {
        Ok(token_balance)
    } else {
        Ok(MAX_TOKEN_TRANSFER)
    }
}

/// Whether the operator, holding `hbar_balance` tinybars, may pay for sending
/// `amount` units of `token` to `recipient`; the transfer takes the units from
/// the operator and gives them to the recipient.
pub fn plan_token_transfer(
    amount: u64,
    hbar_balance: i64,
    token: EntityId,
    operator: AccountRef,
    recipient: AccountRef,
) -> (r: Result<TokenTransfer, OpError>)
    requires
        0 < amount <= MAX_TOKEN_TRANSFER,
    ensures
        covers(hbar_balance, hbars(1)) <==> r is Ok,
        r matches Ok(plan) ==> plan.token == token && plan.transfers@ == move_between(
            operator,
            recipient,
            amount as int,
        ) && plan.max_fee == hbars(1) && net_amount(plan.transfers@) == 0,
        r matches Err(e) ==> e == (OpError::InsufficientHbarBalance {
            required: hbars(1) as i64,
            available: hbar_balance,
        }),
{
    if hbar_balance < ESTIMATED_FEE {
        return Err(
            OpError::InsufficientHbarBalance { required: ESTIMATED_FEE, available: hbar_balance },
        );
    }
    let units = amount as i64;
    let mut transfers: Vec<Transfer> = Vec::new();
    transfers.push(Transfer { account: operator, amount: -units });
    transfers.push(Transfer { account: recipient, amount: units });
    proof {
        assert(transfers@ =~= move_between(operator, recipient, amount as int));
        assert(transfers@.drop_last().drop_last() =~= Seq::<Transfer>::empty());
        reveal_with_fuel(net_amount, 3);
    }
    Ok(TokenTransfer { token, transfers, max_fee: ESTIMATED_FEE })
}

} // verus!
