use mainnet_client::ids::{AccountAlias, AccountRef, EntityId};
use mainnet_client::operations::{
    association_result, check_association_fee, failure_message, plan_account_creation, plan_hbar_transfer,
    plan_token_transfer, token_amount_to_transfer, token_balance_of, AccountCreation,
    AssociationOutcome, OpError, Party, Transfer, ESTIMATED_FEE, TINYBARS_PER_HBAR,
};
use mainnet_client::receipts::{
    receipt_step, ReceiptOutcome, RetryStep, STATUS_SUCCESS, STATUS_TOKEN_ALREADY_ASSOCIATED,
};

fn id(num: u64) -> EntityId {
    EntityId { shard: 0, realm: 0, num }
}

fn acct(num: u64) -> AccountRef {
    AccountRef { shard: 0, realm: 0, num, alias: None, evm_address: None }
}

#[test]
fn entity_from_number_is_in_shard_and_realm_zero() {
    assert_eq!(AccountRef::from_num(1234), acct(1234));
}

#[test]
fn account_creation_needs_eleven_hbar() {
    assert_eq!(
        plan_account_creation(1_100_000_000),
        Ok(AccountCreation { initial_balance: 1_000_000_000, max_fee: 100_000_000 })
    );
    assert_eq!(
        plan_account_creation(1_099_999_999),
        Err(OpError::InsufficientBalance { required: 1_100_000_000, available: 1_099_999_999 })
    );
    assert_eq!(
        plan_account_creation(-5),
        Err(OpError::InsufficientBalance { required: 1_100_000_000, available: -5 })
    );
    assert_eq!(ESTIMATED_FEE, TINYBARS_PER_HBAR);
}

#[test]
fn hbar_transfer_moves_ten_hbar_and_nets_zero() {
    let plan = plan_hbar_transfer(2_000_000_000, acct(2), acct(99)).unwrap();
    assert_eq!(
        plan.transfers,
        vec![
            Transfer { account: acct(2), amount: -1_000_000_000 },
            Transfer { account: acct(99), amount: 1_000_000_000 },
        ]
    );
    assert_eq!(plan.max_fee, 100_000_000);
    assert_eq!(plan.transfers.iter().map(|t| t.amount).sum::<i64>(), 0);
    assert_eq!(
        plan_hbar_transfer(1_000_000_000, acct(2), acct(99)),
        Err(OpError::InsufficientBalance { required: 1_100_000_000, available: 1_000_000_000 })
    );
}

#[test]
fn association_needs_the_fee() {
    assert_eq!(check_association_fee(100_000_000), Ok(100_000_000));
    assert_eq!(
        check_association_fee(99_999_999),
        Err(OpError::InsufficientBalance { required: 100_000_000, available: 99_999_999 })
    );
}

#[test]
fn association_statuses() {
    assert_eq!(association_result(Party::Operator, STATUS_SUCCESS), Ok(AssociationOutcome::Associated));
    assert_eq!(
        association_result(Party::Recipient, STATUS_TOKEN_ALREADY_ASSOCIATED),
        Ok(AssociationOutcome::AlreadyAssociated)
    );
    assert_eq!(
        association_result(Party::Recipient, 167),
        Err(OpError::AssociationFailed { party: Party::Recipient, status: 167 })
    );
}

#[test]
fn repeated_association_is_accepted_end_to_end() {
    for party in [Party::Operator, Party::Recipient] {
        let step = receipt_step(
            0,
            ReceiptOutcome::StatusRejected { status: STATUS_TOKEN_ALREADY_ASSOCIATED, transaction_id: None },
        );
        let receipt = match step {
            RetryStep::Finished(Ok(receipt)) => receipt,
            other => panic!("unexpected step {:?}", other),
        };
        assert_eq!(association_result(party, receipt.status), Ok(AssociationOutcome::AlreadyAssociated));
    }
}

#[test]
fn token_balance_lookup() {
    let balances = vec![(id(5), 10), (id(9), 250), (id(9), 1)];
    assert_eq!(token_balance_of(&balances, id(9)), 250);
    assert_eq!(token_balance_of(&balances, id(5)), 10);
    assert_eq!(token_balance_of(&balances, id(6)), 0);
    assert_eq!(token_balance_of(&Vec::new(), id(6)), 0);
}

#[test]
fn token_amount_is_capped_at_one_hundred() {
    assert_eq!(token_amount_to_transfer(0), Err(OpError::InsufficientTokenBalance));
    assert_eq!(token_amount_to_transfer(1), Ok(1));
    assert_eq!(token_amount_to_transfer(100), Ok(100));
    assert_eq!(token_amount_to_transfer(101), Ok(100));
    assert_eq!(token_amount_to_transfer(u64::MAX), Ok(100));
}

#[test]
fn token_transfer_moves_units_and_nets_zero() {
    let plan = plan_token_transfer(42, 100_000_000, id(9), acct(2), acct(99)).unwrap();
    assert_eq!(plan.token, id(9));
    assert_eq!(
        plan.transfers,
        vec![Transfer { account: acct(2), amount: -42 }, Transfer { account: acct(99), amount: 42 }]
    );
    assert_eq!(plan.max_fee, 100_000_000);
    assert_eq!(plan.transfers.iter().map(|t| t.amount).sum::<i64>(), 0);
    assert_eq!(
        plan_token_transfer(42, 99_999_999, id(9), acct(2), acct(99)),
        Err(OpError::InsufficientHbarBalance { required: 100_000_000, available: 99_999_999 })
    );
}

#[test]
fn aliased_recipient_is_kept_in_the_transfer() {
    let alias = AccountRef {
        shard: 0,
        realm: 0,
        num: 0,
        alias: Some(AccountAlias::Ed25519([7u8; 32])),
        evm_address: None,
    };
    let evm = AccountRef { shard: 0, realm: 0, num: 0, alias: None, evm_address: Some([0xab; 20]) };
    let plan = plan_hbar_transfer(2_000_000_000, acct(2), alias).unwrap();
    assert_eq!(plan.transfers[1].account, alias);
    assert_ne!(plan.transfers[1].account, acct(0));
    let plan = plan_token_transfer(5, 100_000_000, id(9), acct(2), evm).unwrap();
    assert_eq!(plan.transfers[1].account, evm);
}

#[test]
fn failure_messages() {
    assert_eq!(
        failure_message(&OpError::InsufficientBalance { required: 1, available: 0 }),
        "Insufficient operator account balance"
    );
    assert_eq!(
        failure_message(&OpError::InsufficientHbarBalance { required: 1, available: 0 }),
        "Insufficient operator account hbar balance"
    );
    assert_eq!(failure_message(&OpError::InsufficientTokenBalance), "Insufficient token balance");
    assert_eq!(
        failure_message(&OpError::AssociationFailed { party: Party::Recipient, status: 7 }),
        "Recipient Token Association failed with status: "
    );
    assert_eq!(
        failure_message(&OpError::AssociationFailed { party: Party::Operator, status: 7 }),
        "Operator Token Association failed with status: "
    );
}

#[test]
fn token_balance_from_a_map() {
    let mut map = std::collections::HashMap::new();
    map.insert(id(5), 10u64);
    map.insert(id(9), 250u64);
    map.insert(id(11), 3u64);
    let entries: Vec<(EntityId, u64)> = map.iter().map(|(k, v)| (*k, *v)).collect();
    assert_eq!(token_balance_of(&entries, id(9)), 250);
    assert_eq!(token_balance_of(&entries, id(11)), 3);
    assert_eq!(token_balance_of(&entries, id(12)), 0);
}
