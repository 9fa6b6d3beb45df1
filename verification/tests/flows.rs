use mainnet_client::deploy::{ChunkRange, ContractCallResult};
use mainnet_client::flows::{
    Action, AssociationFlow, Completion, CreateAccountFlow, DeployFlow, Event, SendHbarsFlow,
    Stage, TransferTokensFlow,
};
use mainnet_client::ids::{AccountRef, EntityId};
use mainnet_client::operations::{
    AccountCreation, AssociationOutcome, DeployDiagnostic, OpError, Party, Transfer,
};
use mainnet_client::receipts::ReceiptInfo;

fn id(num: u64) -> EntityId {
    EntityId { shard: 0, realm: 0, num }
}

fn acct(num: u64) -> AccountRef {
    AccountRef { shard: 0, realm: 0, num, alias: None, evm_address: None }
}

fn receipt(status: i32) -> ReceiptInfo {
    ReceiptInfo { status, transaction_id: None, account_id: None, file_id: None, contract_id: None }
}

#[test]
fn create_account_run() {
    let mut flow = CreateAccountFlow::new(acct(2));
    assert_eq!(flow.step(Event::Begin), Action::QueryHbarBalance { account: acct(2) });
    assert_eq!(
        flow.step(Event::HbarBalance(5_000_000_000)),
        Action::SubmitAccountCreate(AccountCreation { initial_balance: 1_000_000_000, max_fee: 100_000_000 })
    );
    let created = ReceiptInfo { account_id: Some(acct(4321)), ..receipt(22) };
    assert_eq!(flow.step(Event::Receipt(created)), Action::Finish(Ok(Completion::AccountCreated(acct(4321)))));
    assert_eq!(flow.stage, Stage::Done);
}

#[test]
fn create_account_stops_on_low_balance() {
    let mut flow = CreateAccountFlow::new(acct(2));
    flow.step(Event::Begin);
    assert_eq!(
        flow.step(Event::HbarBalance(10)),
        Action::Finish(Err(OpError::InsufficientBalance { required: 1_100_000_000, available: 10 }))
    );
    assert_eq!(flow.stage, Stage::Done);
}

#[test]
fn send_hbars_run() {
    let mut flow = SendHbarsFlow::new(acct(2), acct(99));
    assert_eq!(flow.step(Event::Begin), Action::QueryHbarBalance { account: acct(2) });
    match flow.step(Event::HbarBalance(1_100_000_000)) {
        Action::SubmitHbarTransfer(plan) => {
            assert_eq!(
                plan.transfers,
                vec![
                    Transfer { account: acct(2), amount: -1_000_000_000 },
                    Transfer { account: acct(99), amount: 1_000_000_000 },
                ]
            );
            assert_eq!(plan.max_fee, 100_000_000);
        }
        other => panic!("unexpected action {:?}", other),
    }
    assert_eq!(
        flow.step(Event::Receipt(receipt(22))),
        Action::Finish(Ok(Completion::Transferred { status: 22 }))
    );
}

#[test]
fn recipient_association_sets_no_fee_limit() {
    let mut flow = AssociationFlow::for_recipient(acct(2), acct(99), id(7));
    assert_eq!(flow.step(Event::Begin), Action::QueryHbarBalance { account: acct(2) });
    assert_eq!(
        flow.step(Event::HbarBalance(100_000_000)),
        Action::SubmitAssociation { party: Party::Recipient, account: acct(99), token: id(7), max_fee: None }
    );
    assert_eq!(
        flow.step(Event::Receipt(receipt(194))),
        Action::Finish(Ok(Completion::Associated(AssociationOutcome::AlreadyAssociated)))
    );
}

#[test]
fn operator_association_failure() {
    let mut flow = AssociationFlow::for_operator(acct(2), id(7));
    flow.step(Event::Begin);
    assert_eq!(
        flow.step(Event::HbarBalance(100_000_000)),
        Action::SubmitAssociation { party: Party::Operator, account: acct(2), token: id(7), max_fee: Some(100_000_000) }
    );
    assert_eq!(
        flow.step(Event::Receipt(receipt(165))),
        Action::Finish(Err(OpError::AssociationFailed { party: Party::Operator, status: 165 }))
    );
}

#[test]
fn token_transfer_run() {
    let mut flow = TransferTokensFlow::new(acct(2), id(7));
    assert_eq!(flow.step(Event::Begin), Action::QueryHbarBalance { account: acct(2) });
    assert!(matches!(
        flow.step(Event::HbarBalance(300_000_000)),
        Action::SubmitAssociation { party: Party::Operator, .. }
    ));
    assert_eq!(flow.step(Event::Receipt(receipt(22))), Action::LoadRecipient);
    assert_eq!(flow.recipient, None);
    assert_eq!(flow.step(Event::RecipientLoaded(acct(99))), Action::QueryHbarBalance { account: acct(2) });
    assert_eq!(
        flow.step(Event::HbarBalance(300_000_000)),
        Action::SubmitAssociation { party: Party::Recipient, account: acct(99), token: id(7), max_fee: None }
    );
    assert_eq!(
        flow.step(Event::Receipt(receipt(194))),
        Action::QueryTokenBalance { account: acct(2), token: id(7) }
    );
    assert_eq!(flow.operator_associated, Some(AssociationOutcome::Associated));
    assert_eq!(flow.recipient_associated, Some(AssociationOutcome::AlreadyAssociated));
    assert_eq!(flow.step(Event::TokenBalance(250)), Action::QueryHbarBalance { account: acct(2) });
    assert_eq!(flow.amount, 100);
    match flow.step(Event::HbarBalance(300_000_000)) {
        Action::SubmitTokenTransfer(plan) => {
            assert_eq!(plan.token, id(7));
            assert_eq!(
                plan.transfers,
                vec![Transfer { account: acct(2), amount: -100 }, Transfer { account: acct(99), amount: 100 }]
            );
        }
        other => panic!("unexpected action {:?}", other),
    }
    assert_eq!(
        flow.step(Event::Receipt(receipt(22))),
        Action::Finish(Ok(Completion::Transferred { status: 22 }))
    );
}

#[test]
fn token_transfer_stops_when_an_association_fails() {
    let mut flow = TransferTokensFlow::new(acct(2), id(7));
    flow.step(Event::Begin);
    flow.step(Event::HbarBalance(300_000_000));
    assert_eq!(flow.step(Event::Receipt(receipt(22))), Action::LoadRecipient);
    assert_eq!(flow.step(Event::RecipientLoaded(acct(99))), Action::QueryHbarBalance { account: acct(2) });
    assert_eq!(
        flow.step(Event::HbarBalance(1)),
        Action::Finish(Err(OpError::InsufficientBalance { required: 100_000_000, available: 1 }))
    );
    assert_eq!(flow.recipient_associated, None);
}

#[test]
fn token_transfer_stops_without_tokens() {
    let mut flow = TransferTokensFlow::new(acct(2), id(7));
    flow.step(Event::Begin);
    flow.step(Event::HbarBalance(300_000_000));
    flow.step(Event::Receipt(receipt(22)));
    flow.step(Event::RecipientLoaded(acct(99)));
    flow.step(Event::HbarBalance(300_000_000));
    flow.step(Event::Receipt(receipt(22)));
    assert_eq!(flow.step(Event::TokenBalance(0)), Action::Finish(Err(OpError::InsufficientTokenBalance)));
}

#[test]
fn deploy_run_with_appends() {
    let mut flow = DeployFlow::new(acct(2));
    assert_eq!(flow.step(Event::Begin), Action::QueryHbarBalance { account: acct(2) });
    assert_eq!(flow.step(Event::HbarBalance(3_000_000)), Action::LoadBytecode);
    assert_eq!(
        flow.step(Event::BytecodeLoaded(9000)),
        Action::SubmitFileCreate { chunk: ChunkRange { start: 0, end: 4096 }, max_fee: 3_000_000 }
    );
    let file = id(555);
    assert_eq!(
        flow.step(Event::Receipt(ReceiptInfo { file_id: Some(file), ..receipt(22) })),
        Action::SubmitFileAppend { file, chunk: ChunkRange { start: 4096, end: 8192 }, max_fee: 3_000_000 }
    );
    assert_eq!(
        flow.step(Event::Receipt(receipt(22))),
        Action::SubmitFileAppend { file, chunk: ChunkRange { start: 8192, end: 9000 }, max_fee: 3_000_000 }
    );
    assert_eq!(
        flow.step(Event::Receipt(receipt(22))),
        Action::SubmitContractCreate { file, gas: 300_000, max_fee: 3_000_000 }
    );
    let contract = id(777);
    assert_eq!(
        flow.step(Event::Receipt(ReceiptInfo { contract_id: Some(contract), ..receipt(22) })),
        Action::FetchRecord
    );
    assert_eq!(
        flow.step(Event::Record(None)),
        Action::Finish(Ok(Completion::ContractDeployed(contract)))
    );
}

#[test]
fn deploy_small_bytecode_and_failure() {
    let mut flow = DeployFlow::new(acct(2));
    flow.step(Event::Begin);
    flow.step(Event::HbarBalance(1_500_000));
    assert_eq!(
        flow.step(Event::BytecodeLoaded(10)),
        Action::SubmitFileCreate { chunk: ChunkRange { start: 0, end: 10 }, max_fee: 1_000_000 }
    );
    let file = id(555);
    assert_eq!(
        flow.step(Event::Receipt(ReceiptInfo { file_id: Some(file), ..receipt(22) })),
        Action::SubmitContractCreate { file, gas: 100_000, max_fee: 1_000_000 }
    );
    assert_eq!(flow.step(Event::Receipt(receipt(33))), Action::FetchRecord);
    assert_eq!(
        flow.step(Event::Record(Some(ContractCallResult { error_message: Some("out of gas".to_string()) }))),
        Action::Finish(Err(OpError::DeploymentFailed {
            status: 33,
            diagnostic: DeployDiagnostic::ErrorMessage("out of gas".to_string())
        }))
    );
}

#[test]
fn deploy_stops_on_low_balance() {
    let mut flow = DeployFlow::new(acct(2));
    flow.step(Event::Begin);
    assert_eq!(
        flow.step(Event::HbarBalance(999_999)),
        Action::Finish(Err(OpError::InsufficientBalance { required: 1_000_000, available: 999_999 }))
    );
}

#[test]
fn token_transfer_stops_before_reading_recipient_when_operator_association_fails() {
    let mut flow = TransferTokensFlow::new(acct(2), id(7));
    flow.step(Event::Begin);
    flow.step(Event::HbarBalance(300_000_000));
    assert_eq!(
        flow.step(Event::Receipt(receipt(165))),
        Action::Finish(Err(OpError::AssociationFailed { party: Party::Operator, status: 165 }))
    );
    assert_eq!(flow.recipient, None);
}
