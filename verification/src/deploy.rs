use vstd::prelude::*;
use crate::ids::EntityId;
use crate::operations::{covers, DeployDiagnostic, OpError};

verus! {

/// Gas bought per fee unit, and the least gas a deployment is given.
pub const GAS_PER_FEE_UNIT: u64 = 100_000;

/// Tinybars in one fee unit.
pub const TINYBARS_PER_FEE_UNIT: u64 = 1_000_000;

/// Largest piece of bytecode sent in one file transaction.
pub const CHUNK_SIZE: usize = 4096;

/// The operator's balance read as an unsigned number of tinybars: a negative
/// balance wraps around, as a cast of the signed amount does.
pub open spec fn available_tinybars(balance: i64) -> int {
    if balance >= 0 {
        balance as int
    } else {
        balance + 0x1_0000_0000_0000_0000
    }
}

/// Gas given to the contract's constructor: one gas block per whole fee unit
/// available, and never less than `GAS_PER_FEE_UNIT`.
pub open spec fn gas_limit_for(balance: i64) -> int {
    let by_balance = available_tinybars(balance) / (TINYBARS_PER_FEE_UNIT as int) * (GAS_PER_FEE_UNIT as int);
    if by_balance >= GAS_PER_FEE_UNIT {
        by_balance
    } else {
        GAS_PER_FEE_UNIT as int
    }
}

/// Highest fee allowed for each deployment transaction, in tinybars: one fee
/// unit per gas block.
pub open spec fn deployment_fee(balance: i64) -> int {
    gas_limit_for(balance) / (GAS_PER_FEE_UNIT as int) * (TINYBARS_PER_FEE_UNIT as int)
}

/// Gas and fee of a contract deployment.
#[derive(Debug, Clone, Copy, PartialEq, Eq, Structural)]
pub struct DeploymentPlan {
    pub gas_limit: u64,
    /// Highest fee allowed, in tinybars.
    pub max_fee: i64,
}

proof fn lemma_deployment_bounds(balance: i64)
    ensures
        0 <= available_tinybars(balance) <= u64::MAX,
        GAS_PER_FEE_UNIT <= gas_limit_for(balance) <= u64::MAX,
        0 <= deployment_fee(balance) <= u64::MAX,
        gas_limit_for(balance) / (GAS_PER_FEE_UNIT as int) == if available_tinybars(balance) >= 1_000_000 {
            available_tinybars(balance) / 1_000_000
        } else {
            1
        },
{
    let a = available_tinybars(balance);
    let q = a / 1_000_000;
    assert(q * 100_000 / 100_000 == q) by (nonlinear_arith)
        requires
            q >= 0,
    ;
    assert(a >= 1_000_000 <==> q >= 1) by (nonlinear_arith)
        requires
            q == a / 1_000_000,
            a >= 0,
    ;
}

fn wrapped_tinybars(balance: i64) -> (r: u64)
    ensures
        r == available_tinybars(balance),
{
    if balance >= 0 {
        balance as u64
    } else {
        (balance as i128 + 0x1_0000_0000_0000_0000i128) as u64
    }
}

/// Whether the fee that a deployment would allow fits a signed 64-bit amount
/// (it does for every balance that is not negative).
pub fn deployment_fee_fits(balance: i64) -> (r: bool)
    ensures
        r == (deployment_fee(balance) <= i64::MAX),
{
    proof {
        lemma_deployment_bounds(balance);
    }
    let available = wrapped_tinybars(balance);
    let by_balance = available / TINYBARS_PER_FEE_UNIT * GAS_PER_FEE_UNIT;
    let gas_limit = if by_balance >= GAS_PER_FEE_UNIT { by_balance } else { GAS_PER_FEE_UNIT };
    let fee = gas_limit / GAS_PER_FEE_UNIT * TINYBARS_PER_FEE_UNIT;
    fee <= i64::MAX as u64
}

/// Whether the operator, holding `balance` tinybars, may deploy a contract,
/// and with which gas and fee: the gas follows the balance as
/// `gas_limit_for` says, the fee as `deployment_fee` says, and the balance
/// must cover the fee.
pub fn plan_deployment(balance: i64) -> (r: Result<DeploymentPlan, OpError>)
    requires
        deployment_fee(balance) <= i64::MAX,
    ensures
        covers(balance, deployment_fee(balance)) <==> r is Ok,
        r matches Ok(plan) ==> plan.gas_limit == gas_limit_for(balance) && plan.max_fee
            == deployment_fee(balance),
        r matches Err(e) ==> e == (OpError::InsufficientBalance {
            required: deployment_fee(balance) as i64,
            available: balance,
        }),
{
    proof {
        lemma_deployment_bounds(balance);
    }
    let available = wrapped_tinybars(balance);
    let by_balance = available / TINYBARS_PER_FEE_UNIT * GAS_PER_FEE_UNIT;
    let gas_limit = if by_balance >= GAS_PER_FEE_UNIT { by_balance } else { GAS_PER_FEE_UNIT };
    let fee = (gas_limit / GAS_PER_FEE_UNIT * TINYBARS_PER_FEE_UNIT) as i64;
    if balance < fee {
        Err(OpError::InsufficientBalance { required: fee, available: balance })
    } else {
        Ok(DeploymentPlan { gas_limit, max_fee: fee })
    }
}

/// A balance that is not negative may always be planned for; a deployment goes
/// ahead exactly when it holds at least one fee unit; and the fee is then the
/// balance rounded down to whole fee units, so it never exceeds the balance.
pub proof fn law_deployment_fee(balance: i64)
    requires
        balance >= 0,
    ensures
        deployment_fee(balance) <= i64::MAX,
        covers(balance, deployment_fee(balance)) <==> balance >= TINYBARS_PER_FEE_UNIT,
        balance >= TINYBARS_PER_FEE_UNIT ==> deployment_fee(balance) == balance / 1_000_000
            * 1_000_000,
        gas_limit_for(balance) >= GAS_PER_FEE_UNIT,
{
    lemma_deployment_bounds(balance);
    let q = balance / 1_000_000;
    assert(q * 1_000_000 <= balance) by (nonlinear_arith)
        requires
            q == balance / 1_000_000,
            balance >= 0,
    ;
}

/// The bytes `start..end` of the bytecode, sent in one transaction.
#[derive(Debug, Clone, Copy, PartialEq, Eq, Structural)]
pub struct ChunkRange {
    pub start: usize,
    pub end: usize,
}

/// How many transactions carry `len` bytes of bytecode: the file creation,
/// which carries the first `CHUNK_SIZE` bytes (or all, or none), and one
/// append per further `CHUNK_SIZE` bytes or part of them.
pub open spec fn chunk_count(len: nat) -> nat {
    if len <= CHUNK_SIZE {
        1
    } else {
        ((len - 1) as nat / (CHUNK_SIZE as nat) + 1) as nat
    }
}

/// The `i`-th piece of `len` bytes of bytecode.
pub open spec fn chunk_range(len: nat, i: int) -> ChunkRange {
    ChunkRange {
        start: (CHUNK_SIZE * i) as usize,
        end: if CHUNK_SIZE * (i + 1) <= len { (CHUNK_SIZE * (i + 1)) as usize } else { len as usize },
    }
}

/// The pieces in which `len` bytes of bytecode are sent, in order.
pub open spec fn chunk_ranges(len: nat) -> Seq<ChunkRange> {
    Seq::new(chunk_count(len), |i: int| chunk_range(len, i))
}

/// The pieces in which `len` bytes of bytecode are uploaded: the first goes
/// with the file's creation, each further one in an append.
pub fn bytecode_chunks(len: usize) -> (r: Vec<ChunkRange>)
    ensures
        r@ == chunk_ranges(len as nat),
{
    let first_end = if len <= CHUNK_SIZE { len } else { CHUNK_SIZE };
    let mut r: Vec<ChunkRange> = Vec::new();
    r.push(ChunkRange { start: 0, end: first_end });
    let mut offset = first_end;
    while offset < len
        invariant
            r@.len() >= 1,
            offset <= len,
            offset == if CHUNK_SIZE * r@.len() <= len { CHUNK_SIZE * r@.len() } else { len as int },
            r@.len() == 1 || CHUNK_SIZE * (r@.len() - 1) < len,
            forall|j: int| 0 <= j < r@.len() ==> r@[j] == chunk_range(len as nat, j),
        decreases len - offset,
    {
        let end = if len - offset > CHUNK_SIZE { offset + CHUNK_SIZE } else { len };
        let ghost k = r@.len();
        r.push(ChunkRange { start: offset, end });
        assert(r@[k as int] == chunk_range(len as nat, k as int));
        offset = end;
    }
    proof {
        let k = r@.len();
        assert(k == chunk_count(len as nat)) by {
            if len > CHUNK_SIZE {
                assert(k >= 2);
                assert(CHUNK_SIZE * (k - 1) < len <= CHUNK_SIZE * k);
                assert(((len - 1) as nat / (CHUNK_SIZE as nat)) == k - 1) by (nonlinear_arith)
                    requires
                        4096 * (k - 1) < len <= 4096 * k,
                        k >= 2,
                ;
            }
        }
        assert(r@ =~= chunk_ranges(len as nat));
    }
    r
}

/// The bytes that `ranges` cut out of `bytecode`, piece by piece.
pub open spec fn pieces(bytecode: Seq<u8>, ranges: Seq<ChunkRange>) -> Seq<Seq<u8>> {
    ranges.map_values(|c: ChunkRange| bytecode.subrange(c.start as int, c.end as int))
}

proof fn lemma_pieces_prefix(bytecode: Seq<u8>, k: int)
    requires
        1 <= k <= chunk_count(bytecode.len()),
        bytecode.len() <= usize::MAX,
    ensures
        pieces(bytecode, chunk_ranges(bytecode.len()).take(k)).flatten_alt() =~= bytecode.subrange(
            0,
            chunk_range(bytecode.len(), k - 1).end as int,
        ),
    decreases k,
{
    let len = bytecode.len();
    let ps = pieces(bytecode, chunk_ranges(len).take(k));
    let c = chunk_range(len, k - 1);
    assert(ps.last() == bytecode.subrange(c.start as int, c.end as int));
    assert(CHUNK_SIZE * (k - 1) <= len) by {
        if len > CHUNK_SIZE {
            lemma_chunk_count(len);
            assert((k - 1) * 4096 <= len) by (nonlinear_arith)
                requires
                    k <= chunk_count(len),
                    4096 * (chunk_count(len) - 1) < len,
            ;
        }
    }
    if k == 1 {
        assert(ps.drop_last() =~= Seq::<Seq<u8>>::empty());
        assert(ps.drop_last().flatten_alt() =~= Seq::<u8>::empty());
    } else {
        lemma_pieces_prefix(bytecode, k - 1);
        assert(ps.drop_last() =~= pieces(bytecode, chunk_ranges(len).take(k - 1)));
        let b = chunk_range(len, k - 2);
        assert(b.end == c.start);
        assert(bytecode.subrange(0, b.end as int) + bytecode.subrange(c.start as int, c.end as int)
            =~= bytecode.subrange(0, c.end as int));
    }
}

proof fn lemma_chunk_count(len: nat)
    requires
        len > CHUNK_SIZE,
    ensures
        4096 * (chunk_count(len) - 1) < len <= 4096 * chunk_count(len),
{
    let q = (len - 1) as nat / 4096;
    assert(4096 * q <= len - 1 < 4096 * q + 4096) by (nonlinear_arith)
        requires
            q == (len - 1) as nat / 4096,
            len > 4096,
    ;
}

/// Uploading the pieces of `bytecode` in order hands over exactly its bytes:
/// the pieces joined give the bytecode back, none holds more than
/// `CHUNK_SIZE` bytes, and none but the first is empty.
/// (Bytecode held in memory is never longer than `usize::MAX`.)
pub proof fn law_chunks_reassemble(bytecode: Seq<u8>)
    requires
        bytecode.len() <= usize::MAX,
    ensures
        pieces(bytecode, chunk_ranges(bytecode.len())).flatten() == bytecode,
        forall|i: int|
            0 <= i < chunk_count(bytecode.len()) ==> {
                let c = #[trigger] chunk_ranges(bytecode.len())[i];
                &&& c.start <= c.end <= bytecode.len()
                &&& c.end - c.start <= CHUNK_SIZE
                &&& (i > 0 ==> c.start < c.end)
            },
{
    let len = bytecode.len();
    let n = chunk_count(len);
    let ps = pieces(bytecode, chunk_ranges(len));
    lemma_pieces_prefix(bytecode, n as int);
    assert(chunk_ranges(len).take(n as int) =~= chunk_ranges(len));
    assert(chunk_range(len, n - 1).end == len) by {
        if len > CHUNK_SIZE {
            lemma_chunk_count(len);
        }
    }
    assert(bytecode.subrange(0, len as int) =~= bytecode);
    ps.lemma_flatten_and_flatten_alt_are_equivalent();
    assert forall|i: int| 0 <= i < n implies {
        let c = #[trigger] chunk_ranges(len)[i];
        &&& c.start <= c.end <= len
        &&& c.end - c.start <= CHUNK_SIZE
        &&& (i > 0 ==> c.start < c.end)
    } by {
        if len > CHUNK_SIZE {
            lemma_chunk_count(len);
            assert(4096 * i < len) by (nonlinear_arith)
                requires
                    i < chunk_count(len),
                    4096 * (chunk_count(len) - 1) < len,
            ;
        }
    }
}

/// Details of the call to the contract's constructor, as the transaction
/// record gives them.
#[derive(Debug, PartialEq)]
pub struct ContractCallResult {
    pub error_message: Option<String>,
}

/// What a record with constructor result `call_result` says about a failed
/// deployment.
pub open spec fn diagnosis(call_result: Option<ContractCallResult>) -> DeployDiagnostic {
    match call_result {
        None => DeployDiagnostic::NoFunctionResult,
        Some(call) => match call.error_message {
            None => DeployDiagnostic::NoErrorMessage,
            Some(message) => if message@.len() == 0 {
                DeployDiagnostic::EmptyErrorMessage
            } else {
                DeployDiagnostic::ErrorMessage(message)
            },
        },
    }
}

/// How a deployment ended, given its receipt's status and created contract,
/// and the constructor's result in its record: the created contract, or a
/// failure with the receipt's status and what the record says.
pub fn deployment_result(
    status: i32,
    contract_id: Option<EntityId>,
    call_result: Option<ContractCallResult>,
) -> (r: Result<EntityId, OpError>)
    ensures
        contract_id matches Some(id) ==> r == Ok::<EntityId, OpError>(id),
        contract_id is None ==> r == Err::<EntityId, OpError>(
            OpError::DeploymentFailed { status, diagnostic: diagnosis(call_result) },
        ),
{
    match contract_id {
        Some(id) => Ok(id),
        None => {
            let diagnostic = match call_result {
                None => DeployDiagnostic::NoFunctionResult,
                Some(call) => match call.error_message {
                    None => DeployDiagnostic::NoErrorMessage,
                    Some(message) => {
                        if message.as_str().is_empty() {
                            DeployDiagnostic::EmptyErrorMessage
                        } else {
                            DeployDiagnostic::ErrorMessage(message)
                        }
                    },
                },
            };
            Err(OpError::DeploymentFailed { status, diagnostic })
        },
    }
}

} // verus!
