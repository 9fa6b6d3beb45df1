use vstd::prelude::*;

verus! {

/// A token, file or contract on the ledger, written `shard.realm.num`.
#[derive(Debug, Clone, Copy, PartialEq, Eq, Hash, Structural)]
pub struct EntityId {
    pub shard: u64,
    pub realm: u64,
    pub num: u64,
}

/// The public key that an account may be named by in place of its number,
/// as its raw bytes.
#[derive(Debug, Clone, Copy, PartialEq, Eq)]
pub enum AccountAlias {
    /// An Ed25519 key (32 bytes).
    Ed25519([u8; 32]),
    /// A compressed ECDSA secp256k1 key (33 bytes).
    EcdsaSecp256k1([u8; 33]),
}

/// An account on the ledger: `shard.realm.num`, or `shard.realm.<alias>`
/// where it is named by a public key, or an EVM address where it is named by
/// one (`num` is then 0).
#[derive(Debug, Clone, Copy, PartialEq, Eq)]
pub struct AccountRef {
    pub shard: u64,
    pub realm: u64,
    pub num: u64,
    pub alias: Option<AccountAlias>,
    pub evm_address: Option<[u8; 20]>,
}

/// The account `0.0.num`.
pub open spec fn account_num(num: u64) -> AccountRef {
    AccountRef { shard: 0, realm: 0, num, alias: None, evm_address: None }
}

impl AccountRef {
    /// The account `0.0.num`, as an account built from a bare number is.
    pub fn from_num(num: u64) -> (r: AccountRef)
        ensures
            r == account_num(num),
    {
        AccountRef { shard: 0, realm: 0, num, alias: None, evm_address: None }
    }
}

} // verus!
