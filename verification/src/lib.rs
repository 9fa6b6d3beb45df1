//! Decision logic of a small Hedera mainnet client: which node table to use,
//! when an operation may be submitted, how transfers are laid out, how a
//! contract's bytecode is uploaded in chunks, and how receipts and records
//! are retried.  The network calls themselves are made by the caller, which
//! hands the outcomes to the functions here.

pub mod ids;
pub mod text;
pub mod receipts;
pub mod operations;
pub mod deploy;
pub mod network;
pub mod menu;
pub mod account_info;
pub mod flows;
