use mainnet_client::deploy::{
    bytecode_chunks, deployment_fee_fits, deployment_result, plan_deployment, ChunkRange,
    ContractCallResult, DeploymentPlan, CHUNK_SIZE,
};
use mainnet_client::ids::EntityId;
use mainnet_client::operations::{DeployDiagnostic, OpError};

#[test]
fn deployment_plan_follows_balance() {
    assert_eq!(
        plan_deployment(5_000_000_000),
        Ok(DeploymentPlan { gas_limit: 500_000_000, max_fee: 5_000_000_000 })
    );
    assert_eq!(
        plan_deployment(5_000_999_999),
        Ok(DeploymentPlan { gas_limit: 500_000_000, max_fee: 5_000_000_000 })
    );
    assert_eq!(plan_deployment(1_000_000), Ok(DeploymentPlan { gas_limit: 100_000, max_fee: 1_000_000 }));
    assert_eq!(
        plan_deployment(999_999),
        Err(OpError::InsufficientBalance { required: 1_000_000, available: 999_999 })
    );
    assert_eq!(plan_deployment(0), Err(OpError::InsufficientBalance { required: 1_000_000, available: 0 }));
}

#[test]
fn negative_balance_wraps_as_unsigned() {
    // -1 tinybar reads as 2^64 - 1; the fee then exceeds i64::MAX.
    assert!(!deployment_fee_fits(-1));
    // i64::MIN reads as 2^63; the fee rounds down to below i64::MAX.
    assert!(deployment_fee_fits(i64::MIN));
    assert_eq!(
        plan_deployment(i64::MIN),
        Err(OpError::InsufficientBalance { required: 9_223_372_036_854_000_000, available: i64::MIN })
    );
    assert!(deployment_fee_fits(0));
    assert!(deployment_fee_fits(i64::MAX));
}

fn reassemble(bytes: &[u8]) -> Vec<u8> {
    let mut out = Vec::new();
    for c in bytecode_chunks(bytes.len()) {
        out.extend_from_slice(&bytes[c.start..c.end]);
    }
    out
}

#[test]
fn chunks_of_various_lengths() {
    assert_eq!(bytecode_chunks(0), vec![ChunkRange { start: 0, end: 0 }]);
    assert_eq!(bytecode_chunks(100), vec![ChunkRange { start: 0, end: 100 }]);
    assert_eq!(bytecode_chunks(4096), vec![ChunkRange { start: 0, end: 4096 }]);
    assert_eq!(
        bytecode_chunks(4097),
        vec![ChunkRange { start: 0, end: 4096 }, ChunkRange { start: 4096, end: 4097 }]
    );
    assert_eq!(
        bytecode_chunks(10000),
        vec![
            ChunkRange { start: 0, end: 4096 },
            ChunkRange { start: 4096, end: 8192 },
            ChunkRange { start: 8192, end: 10000 },
        ]
    );
    assert_eq!(bytecode_chunks(8192).len(), 2);
    assert_eq!(CHUNK_SIZE, 4096);
}

#[test]
fn chunks_reassemble_the_bytecode() {
    for len in [0usize, 1, 4095, 4096, 4097, 8192, 12289, 20000] {
        let bytes: Vec<u8> = (0..len).map(|i| (i % 251) as u8).collect();
        assert_eq!(reassemble(&bytes), bytes);
        for c in bytecode_chunks(len) {
            assert!(c.end - c.start <= CHUNK_SIZE);
        }
    }
}

#[test]
fn deployment_results() {
    let contract = EntityId { shard: 0, realm: 0, num: 4242 };
    assert_eq!(deployment_result(22, Some(contract), None), Ok(contract));
    assert_eq!(
        deployment_result(33, None, None),
        Err(OpError::DeploymentFailed { status: 33, diagnostic: DeployDiagnostic::NoFunctionResult })
    );
    assert_eq!(
        deployment_result(33, None, Some(ContractCallResult { error_message: None })),
        Err(OpError::DeploymentFailed { status: 33, diagnostic: DeployDiagnostic::NoErrorMessage })
    );
    assert_eq!(
        deployment_result(33, None, Some(ContractCallResult { error_message: Some(String::new()) })),
        Err(OpError::DeploymentFailed { status: 33, diagnostic: DeployDiagnostic::EmptyErrorMessage })
    );
    assert_eq!(
        deployment_result(33, None, Some(ContractCallResult { error_message: Some("revert".to_string()) })),
        Err(OpError::DeploymentFailed {
            status: 33,
            diagnostic: DeployDiagnostic::ErrorMessage("revert".to_string())
        })
    );
}
