use vstd::prelude::*;
use vstd::pervasive::unreached;
use crate::ids::{AccountRef, EntityId};
use crate::receipts::ReceiptInfo;
use crate::operations::{
    association_outcome, association_result, check_association_fee, covers, hbars, move_between,
    plan_account_creation, plan_hbar_transfer, plan_token_transfer, token_amount_to_transfer,
    AccountCreation, AssociationOutcome, HbarTransfer, OpError, Party, TokenTransfer, Transfer,
    MAX_TOKEN_TRANSFER,
};
use crate::deploy::{
    bytecode_chunks, chunk_ranges, deployment_fee, deployment_result, diagnosis, gas_limit_for,
    plan_deployment, ChunkRange, ContractCallResult, DeploymentPlan,
};

verus! {

/// What the caller hands back after carrying out an action.
#[derive(Debug, PartialEq)]
pub enum Event {
    /// The operation is to start.
    Begin,
    /// An account's hbar balance, in tinybars.
    HbarBalance(i64),
    /// An account's balance of a token, in units.
    TokenBalance(u64),
    /// The recipient of a token transfer was read.
    RecipientLoaded(AccountRef),
    /// The contract's bytecode was read; it is this many bytes long.
    BytecodeLoaded(usize),
    /// The receipt of the transaction last submitted.
    Receipt(ReceiptInfo),
    /// The constructor's result in the record of the transaction last
    /// submitted.
    Record(Option<ContractCallResult>),
}

/// How an operation ended well.
#[derive(Debug, Clone, Copy, PartialEq, Eq)]
pub enum Completion {
    /// The account was created.
    AccountCreated(AccountRef),
    /// The transfer went through the receipt loop with this status.
    Transferred { status: i32 },
    /// The account is associated with the token.
    Associated(AssociationOutcome),
    /// The contract was created.
    ContractDeployed(EntityId),
}

/// What the caller is to do next.
#[derive(Debug, PartialEq)]
#[allow(inconsistent_fields)]
pub enum Action {
    /// Ask for `account`'s hbar balance, then hand back `Event::HbarBalance`.
    QueryHbarBalance { account: AccountRef },
    /// Ask for `account`'s balance of `token`, then hand back
    /// `Event::TokenBalance`.
    QueryTokenBalance { account: AccountRef, token: EntityId },
    /// Submit an account creation with a fresh key, then hand back its
    /// receipt.
    SubmitAccountCreate(AccountCreation),
    /// Submit an hbar transfer, then hand back its receipt.
    SubmitHbarTransfer(HbarTransfer),
    /// Submit the association of `account` with `token`, paid by the operator
    /// and signed by `party`, with `max_fee` where one is set; then hand back
    /// its receipt.
    SubmitAssociation { party: Party, account: AccountRef, token: EntityId, max_fee: Option<i64> },
    /// Read the token transfer's recipient, and what its association needs,
    /// then hand back `Event::RecipientLoaded`.
    LoadRecipient,
    /// Submit a token transfer, then hand back its receipt.
    SubmitTokenTransfer(TokenTransfer),
    /// Read the contract's bytecode, then hand back `Event::BytecodeLoaded`.
    LoadBytecode,
    /// Submit the creation of a file holding bytes `chunk` of the bytecode,
    /// then hand back its receipt.
    SubmitFileCreate { chunk: ChunkRange, max_fee: i64 },
    /// Submit an append of bytes `chunk` of the bytecode to `file`, then hand
    /// back its receipt.
    SubmitFileAppend { file: EntityId, chunk: ChunkRange, max_fee: i64 },
    /// Submit the creation of a contract from the bytecode in `file`, then
    /// hand back its receipt.
    SubmitContractCreate { file: EntityId, gas: u64, max_fee: i64 },
    /// Ask for the record of the transaction last submitted, then hand back
    /// `Event::Record`.
    FetchRecord,
    /// The operation is over.
    Finish(Result<Completion, OpError>),
}

/// Progress of an operation that checks a balance and submits one
/// transaction.
#[derive(Debug, Clone, Copy, PartialEq, Eq, Structural)]
pub enum Stage {
    Start,
    AwaitBalance,
    AwaitReceipt,
    Done,
}

// ---------------------------------------------------------------------------
// Account creation

/// Creating an account, paid by `operator`.
#[derive(Debug, Clone, Copy, PartialEq, Eq)]
pub struct CreateAccountFlow {
    pub operator: AccountRef,
    pub stage: Stage,
}

impl CreateAccountFlow {
    /// An account creation paid by `operator`, not yet begun.
    pub fn new(operator: AccountRef) -> (r: Self)
        ensures
            r == (CreateAccountFlow { operator, stage: Stage::Start }),
    {
        CreateAccountFlow { operator, stage: Stage::Start }
    }

    /// The events that the flow takes in its current stage; the receipt must
    /// name the created account.
    pub open spec fn accepts(self, event: Event) -> bool {
        match self.stage {
            Stage::Start => event is Begin,
            Stage::AwaitBalance => event is HbarBalance,
            Stage::AwaitReceipt => event matches Event::Receipt(r) && r.account_id is Some,
            Stage::Done => false,
        }
    }

    /// The move from `self` on `event`: ask for the operator's balance; then
    /// submit the creation of an account holding 10 ℏ, with a 1 ℏ fee, when
    /// the balance covers both and stop otherwise; then report the account
    /// that the receipt names.
    pub open spec fn next(self, event: Event) -> (Self, Action) {
        match self.stage {
            Stage::Start => (
                CreateAccountFlow { stage: Stage::AwaitBalance, ..self },
                Action::QueryHbarBalance { account: self.operator },
            ),
            Stage::AwaitBalance => {
                let balance = event->HbarBalance_0;
                if covers(balance, hbars(10) + hbars(1)) {
                    (
                        CreateAccountFlow { stage: Stage::AwaitReceipt, ..self },
                        Action::SubmitAccountCreate(
                            AccountCreation {
                                initial_balance: hbars(10) as i64,
                                max_fee: hbars(1) as i64,
                            },
                        ),
                    )
                } else {
                    (
                        CreateAccountFlow { stage: Stage::Done, ..self },
                        Action::Finish(
                            Err(
                                OpError::InsufficientBalance {
                                    required: (hbars(10) + hbars(1)) as i64,
                                    available: balance,
                                },
                            ),
                        ),
                    )
                }
            },
            _ => (
                CreateAccountFlow { stage: Stage::Done, ..self },
                Action::Finish(
                    Ok(Completion::AccountCreated(event->Receipt_0.account_id->Some_0)),
                ),
            ),
        }
    }

    /// Takes `event` and says what to do next.
    pub fn step(&mut self, event: Event) -> (action: Action)
        requires
            old(self).accepts(event),
        ensures
            (*final(self), action) == old(self).next(event),
    {
        match event {
            Event::Begin => {
                self.stage = Stage::AwaitBalance;
                Action::QueryHbarBalance { account: self.operator }
            },
            Event::HbarBalance(balance) => match plan_account_creation(balance) {
                Ok(creation) => {
                    self.stage = Stage::AwaitReceipt;
                    Action::SubmitAccountCreate(creation)
                },
                Err(e) => {
                    self.stage = Stage::Done;
                    Action::Finish(Err(e))
                },
            },
            Event::Receipt(receipt) => {
                self.stage = Stage::Done;
                match receipt.account_id {
                    Some(id) => Action::Finish(Ok(Completion::AccountCreated(id))),
                    None => unreached(),
                }
            },
            _ => unreached(),
        }
    }
}

// ---------------------------------------------------------------------------
// Hbar transfer

/// Sending 10 ℏ from `operator` to `recipient`.
#[derive(Debug, Clone, Copy, PartialEq, Eq)]
pub struct SendHbarsFlow {
    pub operator: AccountRef,
    pub recipient: AccountRef,
    pub stage: Stage,
}

impl SendHbarsFlow {
    /// An hbar transfer from `operator` to `recipient`, not yet begun.
    pub fn new(operator: AccountRef, recipient: AccountRef) -> (r: Self)
        ensures
            r == (SendHbarsFlow { operator, recipient, stage: Stage::Start }),
    {
        SendHbarsFlow { operator, recipient, stage: Stage::Start }
    }

    /// The events that the flow takes in its current stage.
    pub open spec fn accepts(self, event: Event) -> bool {
        match self.stage {
            Stage::Start => event is Begin,
            Stage::AwaitBalance => event is HbarBalance,
            Stage::AwaitReceipt => event is Receipt,
            Stage::Done => false,
        }
    }

    /// `(next, action)` is the move from `self` on `event`: ask for the
    /// operator's balance; then, when it covers 10 ℏ and the 1 ℏ fee, submit
    /// a transfer of 10 ℏ from the operator to the recipient, and stop
    /// otherwise; then report the receipt's status.
    pub open spec fn moves_to(self, event: Event, next: Self, action: Action) -> bool {
        match self.stage {
            Stage::Start => next == SendHbarsFlow { stage: Stage::AwaitBalance, ..self } && action
                == Action::QueryHbarBalance { account: self.operator },
            Stage::AwaitBalance => {
                let balance = event->HbarBalance_0;
                if covers(balance, hbars(10) + hbars(1)) {
                    &&& next == SendHbarsFlow { stage: Stage::AwaitReceipt, ..self }
                    &&& action matches Action::SubmitHbarTransfer(plan)
                    &&& plan.transfers@ == move_between(self.operator, self.recipient, hbars(10))
                    &&& plan.max_fee == hbars(1)
                } else {
                    &&& next == SendHbarsFlow { stage: Stage::Done, ..self }
                    &&& action == Action::Finish(
                        Err(
                            OpError::InsufficientBalance {
                                required: (hbars(10) + hbars(1)) as i64,
                                available: balance,
                            },
                        ),
                    )
                }
            },
            _ => next == SendHbarsFlow { stage: Stage::Done, ..self } && action == Action::Finish(
                Ok(Completion::Transferred { status: event->Receipt_0.status }),
            ),
        }
    }

    /// Takes `event` and says what to do next.
    pub fn step(&mut self, event: Event) -> (action: Action)
        requires
            old(self).accepts(event),
        ensures
            old(self).moves_to(event, *final(self), action),
    {
        match event {
            Event::Begin => {
                self.stage = Stage::AwaitBalance;
                Action::QueryHbarBalance { account: self.operator }
            },
            Event::HbarBalance(balance) => match plan_hbar_transfer(
                balance,
                self.operator,
                self.recipient,
            ) {
                Ok(plan) => {
                    self.stage = Stage::AwaitReceipt;
                    Action::SubmitHbarTransfer(plan)
                },
                Err(e) => {
                    self.stage = Stage::Done;
                    Action::Finish(Err(e))
                },
            },
            Event::Receipt(receipt) => {
                self.stage = Stage::Done;
                Action::Finish(Ok(Completion::Transferred { status: receipt.status }))
            },
            _ => unreached(),
        }
    }
}

// ---------------------------------------------------------------------------
// Token association

/// Associating `account` with `token`, paid by `payer`; `party` says whose
/// account it is.
#[derive(Debug, Clone, Copy, PartialEq, Eq)]
pub struct AssociationFlow {
    pub party: Party,
    pub payer: AccountRef,
    pub account: AccountRef,
    pub token: EntityId,
    pub stage: Stage,
}

/// The association of the operator's own account with `token`, not yet
/// begun.
pub open spec fn operator_association(operator: AccountRef, token: EntityId) -> AssociationFlow {
    AssociationFlow { party: Party::Operator, payer: operator, account: operator, token, stage: Stage::Start }
}

/// The association of `recipient`'s account with `token`, paid by `operator`,
/// not yet begun.
pub open spec fn recipient_association(
    operator: AccountRef,
    recipient: AccountRef,
    token: EntityId,
) -> AssociationFlow {
    AssociationFlow { party: Party::Recipient, payer: operator, account: recipient, token, stage: Stage::Start }
}

/// The action that ends an association whose receipt has status `status`.
pub open spec fn association_finish(party: Party, status: i32) -> Action {
    match association_outcome(party, status) {
        Ok(outcome) => Action::Finish(Ok(Completion::Associated(outcome))),
        Err(e) => Action::Finish(Err(e)),
    }
}

impl AssociationFlow {
    /// The association of the operator's own account with `token`.
    pub fn for_operator(operator: AccountRef, token: EntityId) -> (r: Self)
        ensures
            r == operator_association(operator, token),
    {
        AssociationFlow { party: Party::Operator, payer: operator, account: operator, token, stage: Stage::Start }
    }

    /// The association of `recipient`'s account with `token`, paid by
    /// `operator` and signed with the recipient's key.
    pub fn for_recipient(operator: AccountRef, recipient: AccountRef, token: EntityId) -> (r: Self)
        ensures
            r == recipient_association(operator, recipient, token),
    {
        AssociationFlow { party: Party::Recipient, payer: operator, account: recipient, token, stage: Stage::Start }
    }

    /// The events that the flow takes in its current stage.
    pub open spec fn accepts(self, event: Event) -> bool {
        match self.stage {
            Stage::Start => event is Begin,
            Stage::AwaitBalance => event is HbarBalance,
            Stage::AwaitReceipt => event is Receipt,
            Stage::Done => false,
        }
    }

    /// The move from `self` on `event`: ask for the payer's balance; then,
    /// when it covers the 1 ℏ fee, submit the association (with that fee as
    /// its limit for the operator's own account, and with no limit set for
    /// the recipient's), and stop otherwise; then report what the receipt's
    /// status means.
    pub open spec fn next(self, event: Event) -> (Self, Action) {
        match self.stage {
            Stage::Start => (
                AssociationFlow { stage: Stage::AwaitBalance, ..self },
                Action::QueryHbarBalance { account: self.payer },
            ),
            Stage::AwaitBalance => {
                let balance = event->HbarBalance_0;
                if covers(balance, hbars(1)) {
                    (
                        AssociationFlow { stage: Stage::AwaitReceipt, ..self },
                        Action::SubmitAssociation {
                            party: self.party,
                            account: self.account,
                            token: self.token,
                            max_fee: if self.party == Party::Operator {
                                Some(hbars(1) as i64)
                            } else {
                                None
                            },
                        },
                    )
                } else {
                    (
                        AssociationFlow { stage: Stage::Done, ..self },
                        Action::Finish(
                            Err(
                                OpError::InsufficientBalance {
                                    required: hbars(1) as i64,
                                    available: balance,
                                },
                            ),
                        ),
                    )
                }
            },
            _ => (
                AssociationFlow { stage: Stage::Done, ..self },
                association_finish(self.party, event->Receipt_0.status),
            ),
        }
    }

    /// Takes `event` and says what to do next.
    pub fn step(&mut self, event: Event) -> (action: Action)
        requires
            old(self).accepts(event),
        ensures
            (*final(self), action) == old(self).next(event),
            final(self).stage == Stage::Done <==> action is Finish,
    {
        match event {
            Event::Begin => {
                self.stage = Stage::AwaitBalance;
                Action::QueryHbarBalance { account: self.payer }
            },
            Event::HbarBalance(balance) => match check_association_fee(balance) {
                Ok(fee) => {
                    self.stage = Stage::AwaitReceipt;
                    let max_fee = match self.party {
                        Party::Operator => Some(fee),
                        Party::Recipient => None,
                    };
                    Action::SubmitAssociation {
                        party: self.party,
                        account: self.account,
                        token: self.token,
                        max_fee,
                    }
                },
                Err(e) => {
                    self.stage = Stage::Done;
                    Action::Finish(Err(e))
                },
            },
            Event::Receipt(receipt) => {
                self.stage = Stage::Done;
                match association_result(self.party, receipt.status) {
                    Ok(outcome) => Action::Finish(Ok(Completion::Associated(outcome))),
                    Err(e) => Action::Finish(Err(e)),
                }
            },
            _ => unreached(),
        }
    }
}

// ---------------------------------------------------------------------------
// Token transfer

/// Progress of a token transfer.
#[derive(Debug, Clone, Copy, PartialEq, Eq, Structural)]
pub enum TransferStage {
    Start,
    AssociatingOperator,
    AwaitRecipient,
    AssociatingRecipient,
    AwaitTokenBalance,
    AwaitHbarBalance,
    AwaitReceipt,
    Done,
}

/// Sending units of `token` from `operator` to a recipient, after
/// associating the operator's account and then the recipient's with the
/// token.  The recipient is read once the operator's association is done.
#[derive(Debug, Clone, Copy, PartialEq, Eq)]
pub struct TransferTokensFlow {
    pub operator: AccountRef,
    pub token: EntityId,
    /// The recipient, once read.
    pub recipient: Option<AccountRef>,
    pub stage: TransferStage,
    /// The association under way, while one is.
    pub association: AssociationFlow,
    /// How the operator's association ended, once it has.
    pub operator_associated: Option<AssociationOutcome>,
    /// How the recipient's association ended, once it has.
    pub recipient_associated: Option<AssociationOutcome>,
    /// Units to send, once the operator's token balance is known.
    pub amount: u64,
}

/// `a` is `expected` after it has begun and before it has ended.
pub open spec fn association_under_way(a: AssociationFlow, expected: AssociationFlow) -> bool {
    &&& a == AssociationFlow { stage: a.stage, ..expected }
    &&& (a.stage == Stage::AwaitBalance || a.stage == Stage::AwaitReceipt)
}

impl TransferTokensFlow {
    /// A transfer of `token` from `operator`, not yet begun.
    pub fn new(operator: AccountRef, token: EntityId) -> (r: Self)
        ensures
            r.operator == operator,
            r.token == token,
            r.recipient is None,
            r.stage == TransferStage::Start,
            r.operator_associated is None,
            r.recipient_associated is None,
            r.wf(),
    {
        TransferTokensFlow {
            operator,
            token,
            recipient: None,
            stage: TransferStage::Start,
            association: AssociationFlow::for_operator(operator, token),
            operator_associated: None,
            recipient_associated: None,
            amount: 0,
        }
    }

    /// What holds of the flow at every stage: an association under way is the
    /// one that the stage names; the recipient is read, and associated, only
    /// after the operator's association ended well, and the balances are asked
    /// for only after both did; the amount to send is positive and at most
    /// `MAX_TOKEN_TRANSFER`.
    pub open spec fn wf(self) -> bool {
        &&& self.stage == TransferStage::AssociatingOperator ==> association_under_way(
            self.association,
            operator_association(self.operator, self.token),
        )
        &&& self.stage == TransferStage::AwaitRecipient ==> self.operator_associated is Some
        &&& self.stage == TransferStage::AssociatingRecipient ==> self.recipient is Some
            && association_under_way(
            self.association,
            recipient_association(self.operator, self.recipient->Some_0, self.token),
        ) && self.operator_associated is Some
        &&& (self.stage == TransferStage::AwaitTokenBalance || self.stage
            == TransferStage::AwaitHbarBalance || self.stage == TransferStage::AwaitReceipt)
            ==> self.recipient is Some && self.operator_associated is Some
            && self.recipient_associated is Some
        &&& (self.stage == TransferStage::AwaitHbarBalance || self.stage
            == TransferStage::AwaitReceipt) ==> 0 < self.amount <= MAX_TOKEN_TRANSFER
    }

    /// The events that the flow takes in its current stage.
    pub open spec fn accepts(self, event: Event) -> bool {
        match self.stage {
            TransferStage::Start => event is Begin,
            TransferStage::AssociatingOperator => self.association.accepts(event),
            TransferStage::AwaitRecipient => event is RecipientLoaded,
            TransferStage::AssociatingRecipient => self.association.accepts(event),
            TransferStage::AwaitTokenBalance => event is TokenBalance,
            TransferStage::AwaitHbarBalance => event is HbarBalance,
            TransferStage::AwaitReceipt => event is Receipt,
            TransferStage::Done => false,
        }
    }

    /// `(next, action)` is the move from `self` on `event`.  First the
    /// operator's account is associated with the token, as `AssociationFlow`
    /// does it; then the recipient is read and its account associated in the
    /// same way; a failed association ends the transfer with its error.  Then
    /// the operator's token balance is asked for: none held ends the
    /// transfer, else the amount is the balance up to `MAX_TOKEN_TRANSFER`.
    /// Then the operator's hbar balance: when it covers the 1 ℏ fee, the
    /// amount goes from the operator to the recipient, and the transfer stops
    /// otherwise.  The receipt's status is reported.
    pub open spec fn moves_to(self, event: Event, next: Self, action: Action) -> bool {
        match self.stage {
            TransferStage::Start => {
                let (sub, first) = operator_association(self.operator, self.token).next(event);
                next == TransferTokensFlow {
                    stage: TransferStage::AssociatingOperator,
                    association: sub,
                    ..self
                } && action == first
            },
            TransferStage::AssociatingOperator => {
                let (sub, sub_action) = self.association.next(event);
                match sub_action {
                    Action::Finish(Ok(Completion::Associated(outcome))) => next
                        == TransferTokensFlow {
                        stage: TransferStage::AwaitRecipient,
                        association: sub,
                        operator_associated: Some(outcome),
                        ..self
                    } && action == Action::LoadRecipient,
                    Action::Finish(result) => next == TransferTokensFlow {
                        stage: TransferStage::Done,
                        association: sub,
                        ..self
                    } && action == Action::Finish(result),
                    _ => next == TransferTokensFlow { association: sub, ..self } && action
                        == sub_action,
                }
            },
            TransferStage::AwaitRecipient => {
                let recipient = event->RecipientLoaded_0;
                let (sub, first) = recipient_association(self.operator, recipient, self.token).next(
                    Event::Begin,
                );
                next == TransferTokensFlow {
                    stage: TransferStage::AssociatingRecipient,
                    recipient: Some(recipient),
                    association: sub,
                    ..self
                } && action == first
            },
            TransferStage::AssociatingRecipient => {
                let (sub, sub_action) = self.association.next(event);
                match sub_action {
                    Action::Finish(Ok(Completion::Associated(outcome))) => next
                        == TransferTokensFlow {
                        stage: TransferStage::AwaitTokenBalance,
                        association: sub,
                        recipient_associated: Some(outcome),
                        ..self
                    } && action == Action::QueryTokenBalance {
                        account: self.operator,
                        token: self.token,
                    },
                    Action::Finish(result) => next == TransferTokensFlow {
                        stage: TransferStage::Done,
                        association: sub,
                        ..self
                    } && action == Action::Finish(result),
                    _ => next == TransferTokensFlow { association: sub, ..self } && action
                        == sub_action,
                }
            },
            TransferStage::AwaitTokenBalance => {
                let held = event->TokenBalance_0;
                if held == 0 {
                    next == TransferTokensFlow { stage: TransferStage::Done, ..self } && action
                        == Action::Finish(Err(OpError::InsufficientTokenBalance))
                } else {
                    next == TransferTokensFlow {
                        stage: TransferStage::AwaitHbarBalance,
                        amount: if held <= MAX_TOKEN_TRANSFER {
                            held
                        } else {
                            MAX_TOKEN_TRANSFER
                        },
                        ..self
                    } && action == Action::QueryHbarBalance { account: self.operator }
                }
            },
            TransferStage::AwaitHbarBalance => {
                let balance = event->HbarBalance_0;
                if covers(balance, hbars(1)) {
                    &&& next == TransferTokensFlow { stage: TransferStage::AwaitReceipt, ..self }
                    &&& action matches Action::SubmitTokenTransfer(plan)
                    &&& plan.token == self.token
                    &&& plan.transfers@ == move_between(
                        self.operator,
                        self.recipient->Some_0,
                        self.amount as int,
                    )
                    &&& plan.max_fee == hbars(1)
                } else {
                    &&& next == TransferTokensFlow { stage: TransferStage::Done, ..self }
                    &&& action == Action::Finish(
                        Err(
                            OpError::InsufficientHbarBalance {
                                required: hbars(1) as i64,
                                available: balance,
                            },
                        ),
                    )
                }
            },
            _ => next == TransferTokensFlow { stage: TransferStage::Done, ..self } && action
                == Action::Finish(Ok(Completion::Transferred { status: event->Receipt_0.status })),
        }
    }

    /// Takes `event` and says what to do next.
    pub fn step(&mut self, event: Event) -> (action: Action)
        requires
            old(self).wf(),
            old(self).accepts(event),
        ensures
            old(self).moves_to(event, *final(self), action),
            final(self).wf(),
    {
        let ghost before = *self;
        let action = match self.stage {
            TransferStage::Start => {
                let mut sub = AssociationFlow::for_operator(self.operator, self.token);
                let first = sub.step(event);
                self.association = sub;
                self.stage = TransferStage::AssociatingOperator;
                first
            },
            TransferStage::AssociatingOperator => {
                let mut sub = self.association;
                let sub_action = sub.step(event);
                self.association = sub;
                match sub_action {
                    Action::Finish(Ok(Completion::Associated(outcome))) => {
                        self.operator_associated = Some(outcome);
                        self.stage = TransferStage::AwaitRecipient;
                        Action::LoadRecipient
                    },
                    Action::Finish(result) => {
                        self.stage = TransferStage::Done;
                        Action::Finish(result)
                    },
                    other => other,
                }
            },
            TransferStage::AwaitRecipient => {
                let recipient = match event {
                    Event::RecipientLoaded(recipient) => recipient,
                    _ => unreached(),
                };
                let mut sub = AssociationFlow::for_recipient(self.operator, recipient, self.token);
                let first = sub.step(Event::Begin);
                self.recipient = Some(recipient);
                self.association = sub;
                self.stage = TransferStage::AssociatingRecipient;
                first
            },
            TransferStage::AssociatingRecipient => {
                let mut sub = self.association;
                let sub_action = sub.step(event);
                self.association = sub;
                match sub_action {
                    Action::Finish(Ok(Completion::Associated(outcome))) => {
                        self.recipient_associated = Some(outcome);
                        self.stage = TransferStage::AwaitTokenBalance;
                        Action::QueryTokenBalance { account: self.operator, token: self.token }
                    },
                    Action::Finish(result) => {
                        self.stage = TransferStage::Done;
                        Action::Finish(result)
                    },
                    other => other,
                }
            },
            TransferStage::AwaitTokenBalance => {
                let held = match event {
                    Event::TokenBalance(held) => held,
                    _ => unreached(),
                };
                match token_amount_to_transfer(held) {
                    Ok(amount) => {
                        self.amount = amount;
                        self.stage = TransferStage::AwaitHbarBalance;
                        Action::QueryHbarBalance { account: self.operator }
                    },
                    Err(e) => {
                        self.stage = TransferStage::Done;
                        Action::Finish(Err(e))
                    },
                }
            },
            TransferStage::AwaitHbarBalance => {
                let balance = match event {
                    Event::HbarBalance(balance) => balance,
                    _ => unreached(),
                };
                let recipient = match self.recipient {
                    Some(recipient) => recipient,
                    None => unreached(),
                };
                match plan_token_transfer(self.amount, balance, self.token, self.operator, recipient) {
                    Ok(plan) => {
                        self.stage = TransferStage::AwaitReceipt;
                        Action::SubmitTokenTransfer(plan)
                    },
                    Err(e) => {
                        self.stage = TransferStage::Done;
                        Action::Finish(Err(e))
                    },
                }
            },
            TransferStage::AwaitReceipt => {
                let status = match event {
                    Event::Receipt(receipt) => receipt.status,
                    _ => unreached(),
                };
                self.stage = TransferStage::Done;
                Action::Finish(Ok(Completion::Transferred { status }))
            },
            TransferStage::Done => unreached(),
        };
        proof {
            law_token_transfer_order(before, event, *self, action);
        }
        action
    }
}

/// Every move of a token transfer keeps what `wf` says.  The recipient is
/// read only after the operator's account was associated with the token;
/// the token balance is asked for only once both accounts are, and the tokens
/// are sent only then, to the recipient that was read, in an amount that is
/// positive and at most `MAX_TOKEN_TRANSFER`.
pub proof fn law_token_transfer_order(
    flow: TransferTokensFlow,
    event: Event,
    next: TransferTokensFlow,
    action: Action,
)
    requires
        flow.wf(),
        flow.accepts(event),
        flow.moves_to(event, next, action),
    ensures
        next.wf(),
        action is LoadRecipient ==> next.operator_associated is Some,
        action is QueryTokenBalance ==> next.operator_associated is Some
            && next.recipient_associated is Some,
        action is SubmitTokenTransfer ==> next.operator_associated is Some
            && next.recipient_associated is Some && next.recipient is Some && 0 < next.amount
            <= MAX_TOKEN_TRANSFER,
{
}

// ---------------------------------------------------------------------------
// Contract deployment

/// Progress of a contract deployment.
#[derive(Debug, Clone, Copy, PartialEq, Eq, Structural)]
pub enum DeployStage {
    Start,
    AwaitBalance,
    AwaitBytecode,
    AwaitFileReceipt,
    AwaitAppendReceipt,
    AwaitContractReceipt,
    AwaitRecord,
    Done,
}

/// Deploying a contract paid by `operator`: its bytecode goes into a file,
/// piece by piece, and the contract is created from that file.
#[derive(Debug, PartialEq)]
pub struct DeployFlow {
    pub operator: AccountRef,
    pub stage: DeployStage,
    /// Gas and fee, once the balance is known.
    pub plan: DeploymentPlan,
    /// The pieces of the bytecode, once its length is known.
    pub chunks: Vec<ChunkRange>,
    /// Length of the bytecode, once known.
    pub bytecode_len: usize,
    /// Index of the piece last submitted.
    pub next_chunk: usize,
    /// The file holding the bytecode, once created.
    pub file: EntityId,
    /// Status of the contract creation's receipt, once known.
    pub contract_status: i32,
    /// The contract that the receipt names, once known.
    pub contract_id: Option<EntityId>,
}

impl DeployFlow {
    /// A deployment paid by `operator`, not yet begun.
    pub fn new(operator: AccountRef) -> (r: Self)
        ensures
            r.operator == operator,
            r.stage == DeployStage::Start,
            r.wf(),
    {
        DeployFlow {
            operator,
            stage: DeployStage::Start,
            plan: DeploymentPlan { gas_limit: 0, max_fee: 0 },
            chunks: Vec::new(),
            bytecode_len: 0,
            next_chunk: 0,
            file: EntityId { shard: 0, realm: 0, num: 0 },
            contract_status: 0,
            contract_id: None,
        }
    }

    /// What holds of the flow at every stage: once the bytecode's length is
    /// known the pieces are those of `chunk_ranges`, and while appending, the
    /// piece last sent is one after the first.
    pub open spec fn wf(self) -> bool {
        &&& (self.stage == DeployStage::AwaitFileReceipt || self.stage
            == DeployStage::AwaitAppendReceipt || self.stage == DeployStage::AwaitContractReceipt
            || self.stage == DeployStage::AwaitRecord) ==> self.chunks@ == chunk_ranges(
            self.bytecode_len as nat,
        )
        &&& self.stage == DeployStage::AwaitAppendReceipt ==> 1 <= self.next_chunk
            < self.chunks@.len()
    }

    /// The events that the flow takes in its current stage.  The balance must
    /// give a fee that fits a signed 64-bit amount, and the file's receipt must
    /// name the file.
    pub open spec fn accepts(self, event: Event) -> bool {
        match self.stage {
            DeployStage::Start => event is Begin,
            DeployStage::AwaitBalance => event matches Event::HbarBalance(balance)
                && deployment_fee(balance) <= i64::MAX,
            DeployStage::AwaitBytecode => event is BytecodeLoaded,
            DeployStage::AwaitFileReceipt => event matches Event::Receipt(r) && r.file_id is Some,
            DeployStage::AwaitAppendReceipt => event is Receipt,
            DeployStage::AwaitContractReceipt => event is Receipt,
            DeployStage::AwaitRecord => event is Record,
            DeployStage::Done => false,
        }
    }

    /// The action that follows the upload of piece `index`: the next piece,
    /// or the contract's creation once every piece is in `file`.
    pub open spec fn after_piece(self, index: int, file: EntityId) -> Action {
        if index + 1 < self.chunks@.len() {
            Action::SubmitFileAppend {
                file,
                chunk: self.chunks@[index + 1],
                max_fee: self.plan.max_fee,
            }
        } else {
            Action::SubmitContractCreate {
                file,
                gas: self.plan.gas_limit,
                max_fee: self.plan.max_fee,
            }
        }
    }

    /// `(next, action)` is the move from `self` on `event`: ask for the
    /// operator's balance; stop when it does not cover the deployment fee,
    /// else plan gas and fee from it and read the bytecode; create a file
    /// with its first piece; append the other pieces, in order, to the file
    /// that the receipt named; create the contract from that file; fetch the
    /// record; report the contract, or the failure with what the record says.
    pub open spec fn moves_to(self, event: Event, next: Self, action: Action) -> bool {
        match self.stage {
            DeployStage::Start => next == DeployFlow { stage: DeployStage::AwaitBalance, ..self }
                && action == Action::QueryHbarBalance { account: self.operator },
            DeployStage::AwaitBalance => {
                let balance = event->HbarBalance_0;
                if covers(balance, deployment_fee(balance)) {
                    next == DeployFlow {
                        stage: DeployStage::AwaitBytecode,
                        plan: DeploymentPlan {
                            gas_limit: gas_limit_for(balance) as u64,
                            max_fee: deployment_fee(balance) as i64,
                        },
                        ..self
                    } && action == Action::LoadBytecode
                } else {
                    next == DeployFlow { stage: DeployStage::Done, ..self } && action
                        == Action::Finish(
                        Err(
                            OpError::InsufficientBalance {
                                required: deployment_fee(balance) as i64,
                                available: balance,
                            },
                        ),
                    )
                }
            },
            DeployStage::AwaitBytecode => {
                let len = event->BytecodeLoaded_0;
                &&& next == DeployFlow {
                    stage: DeployStage::AwaitFileReceipt,
                    chunks: next.chunks,
                    bytecode_len: len,
                    ..self
                }
                &&& next.chunks@ == chunk_ranges(len as nat)
                &&& action == Action::SubmitFileCreate {
                    chunk: chunk_ranges(len as nat)[0],
                    max_fee: self.plan.max_fee,
                }
            },
            DeployStage::AwaitFileReceipt => {
                let file = event->Receipt_0.file_id->Some_0;
                &&& action == self.after_piece(0, file)
                &&& if 1 < self.chunks@.len() {
                    next == DeployFlow {
                        stage: DeployStage::AwaitAppendReceipt,
                        file,
                        next_chunk: 1,
                        ..self
                    }
                } else {
                    next == DeployFlow { stage: DeployStage::AwaitContractReceipt, file, ..self }
                }
            },
            DeployStage::AwaitAppendReceipt => {
                &&& action == self.after_piece(self.next_chunk as int, self.file)
                &&& if self.next_chunk + 1 < self.chunks@.len() {
                    next == DeployFlow { next_chunk: (self.next_chunk + 1) as usize, ..self }
                } else {
                    next == DeployFlow { stage: DeployStage::AwaitContractReceipt, ..self }
                }
            },
            DeployStage::AwaitContractReceipt => {
                let receipt = event->Receipt_0;
                next == DeployFlow {
                    stage: DeployStage::AwaitRecord,
                    contract_status: receipt.status,
                    contract_id: receipt.contract_id,
                    ..self
                } && action == Action::FetchRecord
            },
            _ => {
                let call_result = event->Record_0;
                next == DeployFlow { stage: DeployStage::Done, ..self } && action == Action::Finish(
                    match self.contract_id {
                        Some(id) => Ok(Completion::ContractDeployed(id)),
                        None => Err(
                            OpError::DeploymentFailed {
                                status: self.contract_status,
                                diagnostic: diagnosis(call_result),
                            },
                        ),
                    },
                )
            },
        }
    }

    fn action_after_piece(&self, index: usize, file: EntityId) -> (action: Action)
        requires
            index < self.chunks@.len(),
        ensures
            action == self.after_piece(index as int, file),
    {
        if index < self.chunks.len() - 1 {
            Action::SubmitFileAppend {
                file,
                chunk: self.chunks[index + 1],
                max_fee: self.plan.max_fee,
            }
        } else {
            Action::SubmitContractCreate {
                file,
                gas: self.plan.gas_limit,
                max_fee: self.plan.max_fee,
            }
        }
    }

    /// Takes `event` and says what to do next.
    pub fn step(&mut self, event: Event) -> (action: Action)
        requires
            old(self).wf(),
            old(self).accepts(event),
        ensures
            old(self).moves_to(event, *final(self), action),
            final(self).wf(),
    {
        match self.stage {
            DeployStage::Start => {
                self.stage = DeployStage::AwaitBalance;
                Action::QueryHbarBalance { account: self.operator }
            },
            DeployStage::AwaitBalance => {
                let balance = match event {
                    Event::HbarBalance(balance) => balance,
                    _ => unreached(),
                };
                match plan_deployment(balance) {
                    Ok(plan) => {
                        self.plan = plan;
                        self.stage = DeployStage::AwaitBytecode;
                        Action::LoadBytecode
                    },
                    Err(e) => {
                        self.stage = DeployStage::Done;
                        Action::Finish(Err(e))
                    },
                }
            },
            DeployStage::AwaitBytecode => {
                let len = match event {
                    Event::BytecodeLoaded(len) => len,
                    _ => unreached(),
                };
                let chunks = bytecode_chunks(len);
                let first = chunks[0];
                self.chunks = chunks;
                self.bytecode_len = len;
                self.stage = DeployStage::AwaitFileReceipt;
                Action::SubmitFileCreate { chunk: first, max_fee: self.plan.max_fee }
            },
            DeployStage::AwaitFileReceipt => {
                let file = match event {
                    Event::Receipt(receipt) => match receipt.file_id {
                        Some(file) => file,
                        None => unreached(),
                    },
                    _ => unreached(),
                };
                let action = self.action_after_piece(0, file);
                self.file = file;
                if 1 < self.chunks.len() {
                    self.next_chunk = 1;
                    self.stage = DeployStage::AwaitAppendReceipt;
                } else {
                    self.stage = DeployStage::AwaitContractReceipt;
                }
                action
            },
            DeployStage::AwaitAppendReceipt => {
                let action = self.action_after_piece(self.next_chunk, self.file);
                if self.next_chunk < self.chunks.len() - 1 {
                    self.next_chunk = self.next_chunk + 1;
                } else {
                    self.stage = DeployStage::AwaitContractReceipt;
                }
                action
            },
            DeployStage::AwaitContractReceipt => {
                let (status, contract_id) = match event {
                    Event::Receipt(receipt) => (receipt.status, receipt.contract_id),
                    _ => unreached(),
                };
                self.contract_status = status;
                self.contract_id = contract_id;
                self.stage = DeployStage::AwaitRecord;
                Action::FetchRecord
            },
            DeployStage::AwaitRecord => {
                let call_result = match event {
                    Event::Record(call_result) => call_result,
                    _ => unreached(),
                };
                self.stage = DeployStage::Done;
                match deployment_result(self.contract_status, self.contract_id, call_result) {
                    Ok(id) => Action::Finish(Ok(Completion::ContractDeployed(id))),
                    Err(e) => Action::Finish(Err(e)),
                }
            },
            DeployStage::Done => unreached(),
        }
    }
}

/// Every move of a deployment keeps what `wf` says.  The pieces go out in
/// order: the file's creation carries the first, each append the one after
/// the piece sent before it, and the contract is created only once the last
/// piece was sent, from the file that the first receipt named, with the
/// planned gas.
pub proof fn law_deploy_upload_order(flow: DeployFlow, event: Event, next: DeployFlow, action: Action)
    requires
        flow.wf(),
        flow.accepts(event),
        flow.moves_to(event, next, action),
    ensures
        next.wf(),
        action matches Action::SubmitFileCreate { chunk, .. } ==> next.chunks@.len() >= 1 && chunk
            == next.chunks@[0],
        action matches Action::SubmitFileAppend { chunk, file, .. } ==> {
            &&& next.next_chunk == if flow.stage == DeployStage::AwaitFileReceipt {
                1
            } else {
                flow.next_chunk + 1
            }
            &&& chunk == next.chunks@[next.next_chunk as int]
            &&& file == next.file
        },
        action matches Action::SubmitContractCreate { file, gas, .. } ==> {
            &&& (flow.stage == DeployStage::AwaitFileReceipt && flow.chunks@.len() == 1) || (
            flow.stage == DeployStage::AwaitAppendReceipt && flow.next_chunk + 1
                == flow.chunks@.len())
            &&& file == next.file
            &&& gas == next.plan.gas_limit
        },
{
    if flow.stage == DeployStage::AwaitBytecode {
        assert(chunk_ranges(event->BytecodeLoaded_0 as nat).len() >= 1);
    }
}

/// The pieces of bytecode that `actions` send, in order: the file's creation
/// and each append contribute theirs.
pub open spec fn uploaded(actions: Seq<Action>) -> Seq<ChunkRange>
    decreases actions.len(),
{
    if actions.len() == 0 {
        Seq::empty()
    } else {
        let before = uploaded(actions.drop_last());
        match actions.last() {
            Action::SubmitFileCreate { chunk, .. } => before.push(chunk),
            Action::SubmitFileAppend { chunk, .. } => before.push(chunk),
            _ => before,
        }
    }
}

/// `flows[i]` takes `events[i]`, moves to `flows[i + 1]` and asks for
/// `actions[i]`, for each `i`.
pub open spec fn deploy_run(flows: Seq<DeployFlow>, events: Seq<Event>, actions: Seq<Action>) -> bool {
    &&& flows.len() == events.len() + 1
    &&& actions.len() == events.len()
    &&& forall|i: int| 0 <= i < events.len() ==> #[trigger] deploy_run_step(flows, events, actions, i)
}

/// The `i`-th move of a run: `flows[i]` takes `events[i]`, moves to
/// `flows[i + 1]` and asks for `actions[i]`.
pub open spec fn deploy_run_step(
    flows: Seq<DeployFlow>,
    events: Seq<Event>,
    actions: Seq<Action>,
    i: int,
) -> bool {
    flows[i].accepts(events[i]) && flows[i].moves_to(events[i], flows[i + 1], actions[i])
}

/// What has been uploaded when the flow is in `flow`'s stage.
pub open spec fn uploaded_so_far(flow: DeployFlow, sent: Seq<ChunkRange>) -> bool {
    match flow.stage {
        DeployStage::Start => sent.len() == 0,
        DeployStage::AwaitBalance => sent.len() == 0,
        DeployStage::AwaitBytecode => sent.len() == 0,
        DeployStage::AwaitFileReceipt => sent == flow.chunks@.take(1),
        DeployStage::AwaitAppendReceipt => sent == flow.chunks@.take(flow.next_chunk + 1),
        DeployStage::AwaitContractReceipt => sent == flow.chunks@,
        DeployStage::AwaitRecord => sent == flow.chunks@,
        DeployStage::Done => true,
    }
}

proof fn lemma_deploy_run_prefix(
    flows: Seq<DeployFlow>,
    events: Seq<Event>,
    actions: Seq<Action>,
    k: int,
)
    requires
        deploy_run(flows, events, actions),
        flows[0].stage == DeployStage::Start,
        flows[0].wf(),
        0 <= k <= events.len(),
    ensures
        flows[k].wf(),
        uploaded_so_far(flows[k], uploaded(actions.take(k))),
    decreases k,
{
    if k == 0 {
        assert(actions.take(0) =~= Seq::<Action>::empty());
    } else {
        lemma_deploy_run_prefix(flows, events, actions, k - 1);
        let i = k - 1;
        assert(deploy_run_step(flows, events, actions, i));
        law_deploy_upload_order(flows[i], events[i], flows[i + 1], actions[i]);
        assert(actions.take(k).drop_last() =~= actions.take(i));
        assert(actions.take(k).last() == actions[i]);
        let f = flows[i];
        let g = flows[k];
        if f.stage == DeployStage::AwaitFileReceipt && g.stage == DeployStage::AwaitAppendReceipt {
            assert(f.chunks@.take(1).push(f.chunks@[1]) =~= g.chunks@.take(2));
        } else if f.stage == DeployStage::AwaitFileReceipt {
            assert(f.chunks@.take(1) =~= f.chunks@);
        } else if f.stage == DeployStage::AwaitAppendReceipt && g.stage == DeployStage::AwaitAppendReceipt {
            assert(f.chunks@.take(f.next_chunk + 1).push(f.chunks@[f.next_chunk + 1]) =~= g.chunks@.take(
                g.next_chunk + 1,
            ));
        } else if f.stage == DeployStage::AwaitAppendReceipt {
            assert(f.chunks@.take(f.next_chunk + 1) =~= f.chunks@);
        } else if f.stage == DeployStage::AwaitBytecode {
            assert(uploaded(actions.take(i)) =~= Seq::<ChunkRange>::empty());
            assert(Seq::<ChunkRange>::empty().push(g.chunks@[0]) =~= g.chunks@.take(1));
        }
        assert(uploaded_so_far(g, uploaded(actions.take(k))));
    }
}

/// Over a whole deployment, the contract is created only once the file holds
/// every piece of the bytecode, each sent once and in order: the pieces sent
/// before the contract's creation are exactly `chunk_ranges` of the
/// bytecode's length, which (by `law_chunks_reassemble`) join to the whole
/// bytecode.
pub proof fn law_deploy_uploads_whole_bytecode(
    flows: Seq<DeployFlow>,
    events: Seq<Event>,
    actions: Seq<Action>,
)
    requires
        deploy_run(flows, events, actions),
        flows[0].stage == DeployStage::Start,
        flows[0].wf(),
    ensures
        forall|i: int|
            0 <= i < actions.len() && #[trigger] actions[i] is SubmitContractCreate ==> uploaded(
                actions.take(i),
            ) == chunk_ranges(flows[i].bytecode_len as nat),
{
    assert forall|i: int|
        0 <= i < actions.len() && #[trigger] actions[i] is SubmitContractCreate implies uploaded(
            actions.take(i),
        ) == chunk_ranges(flows[i].bytecode_len as nat) by {
        lemma_deploy_run_prefix(flows, events, actions, i);
        assert(deploy_run_step(flows, events, actions, i));
        law_deploy_upload_order(flows[i], events[i], flows[i + 1], actions[i]);
        let f = flows[i];
        if f.stage == DeployStage::AwaitFileReceipt {
            assert(f.chunks@.take(1) =~= f.chunks@);
        } else {
            assert(f.chunks@.take(f.next_chunk + 1) =~= f.chunks@);
        }
    }
}

// ---------------------------------------------------------------------------
// What each operation decides from the balances it is handed

/// An account creation is submitted exactly when the operator's balance holds
/// at least 1_100_000_000 tinybars (the new account's 10 ℏ and the 1 ℏ fee),
/// funding the account with 10 ℏ and allowing a 1 ℏ fee; with less, the
/// operation ends with the shortfall and nothing is submitted.
pub proof fn law_account_creation_needs_eleven_hbar(flow: CreateAccountFlow, balance: i64)
    requires
        flow.stage == Stage::AwaitBalance,
    ensures
        flow.next(Event::HbarBalance(balance)).1 == (if balance >= 1_100_000_000 {
            Action::SubmitAccountCreate(
                AccountCreation { initial_balance: 1_000_000_000, max_fee: 100_000_000 },
            )
        } else {
            Action::Finish(
                Err(OpError::InsufficientBalance { required: 1_100_000_000, available: balance }),
            )
        }),
        flow.next(Event::HbarBalance(balance)).0.operator == flow.operator,
{
}

/// An hbar transfer sends exactly 10 ℏ (1_000_000_000 tinybars) from the
/// operator to the recipient, whatever the balance, with a 1 ℏ fee, when the
/// balance holds at least 11 ℏ; with less, it ends with the shortfall.
pub proof fn law_send_hbars_moves_ten_hbar(
    flow: SendHbarsFlow,
    balance: i64,
    next: SendHbarsFlow,
    action: Action,
)
    requires
        flow.stage == Stage::AwaitBalance,
        flow.moves_to(Event::HbarBalance(balance), next, action),
    ensures
        balance >= 1_100_000_000 ==> (action matches Action::SubmitHbarTransfer(plan)
            && plan.transfers@ == seq![
            Transfer { account: flow.operator, amount: -1_000_000_000i64 },
            Transfer { account: flow.recipient, amount: 1_000_000_000i64 },
        ] && plan.max_fee == 100_000_000),
        balance < 1_100_000_000 ==> action == Action::Finish(
            Err(OpError::InsufficientBalance { required: 1_100_000_000, available: balance }),
        ),
{
    if balance >= 1_100_000_000 {
        assert(move_between(flow.operator, flow.recipient, hbars(10)) =~= seq![
            Transfer { account: flow.operator, amount: -1_000_000_000i64 },
            Transfer { account: flow.recipient, amount: 1_000_000_000i64 },
        ]);
    }
}

/// For either party, the association is submitted exactly when the payer's
/// balance holds at least 100_000_000 tinybars (the 1 ℏ fee), with that fee
/// as limit for the operator's own account and no limit for the
/// recipient's; with less, it ends with the shortfall.
pub proof fn law_association_needs_fee(flow: AssociationFlow, balance: i64)
    requires
        flow.stage == Stage::AwaitBalance,
    ensures
        flow.next(Event::HbarBalance(balance)).1 == (if balance >= 100_000_000 {
            Action::SubmitAssociation {
                party: flow.party,
                account: flow.account,
                token: flow.token,
                max_fee: match flow.party {
                    Party::Operator => Some(100_000_000i64),
                    Party::Recipient => None,
                },
            }
        } else {
            Action::Finish(
                Err(OpError::InsufficientBalance { required: 100_000_000, available: balance }),
            )
        }),
{
}

/// Given a token balance `held`, a token transfer ends when none is held;
/// otherwise it records `min(held, 100)` units, never more than held, and
/// the transfer it then submits moves exactly those units from the operator
/// to the recipient, when the hbar balance holds the 1 ℏ fee.
pub proof fn law_token_amount_is_held_up_to_cap(
    flow: TransferTokensFlow,
    held: u64,
    after_balance: TransferTokensFlow,
    first: Action,
    hbar_balance: i64,
    after_fee: TransferTokensFlow,
    second: Action,
)
    requires
        flow.wf(),
        flow.stage == TransferStage::AwaitTokenBalance,
        flow.moves_to(Event::TokenBalance(held), after_balance, first),
        after_balance.moves_to(Event::HbarBalance(hbar_balance), after_fee, second),
    ensures
        held == 0 ==> first == Action::Finish(Err(OpError::InsufficientTokenBalance)),
        held > 0 ==> {
            &&& after_balance.amount == (if held <= 100 { held } else { 100u64 })
            &&& 0 < after_balance.amount <= held
            &&& first == Action::QueryHbarBalance { account: flow.operator }
            &&& (hbar_balance >= 100_000_000 ==> (second matches Action::SubmitTokenTransfer(plan)
                && plan.token == flow.token && plan.transfers@ == seq![
                Transfer { account: flow.operator, amount: (-(after_balance.amount as int)) as i64 },
                Transfer { account: flow.recipient->Some_0, amount: after_balance.amount as i64 },
            ]))
        },
{
    if held > 0 && hbar_balance >= 100_000_000 {
        assert(after_balance.stage == TransferStage::AwaitHbarBalance);
    }
}

} // verus!
