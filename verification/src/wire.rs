//! The wire shapes handed back to RPC callers and pushed to subscribers.
//! They mirror the standard Ethereum JSON-RPC response objects; fields
//! this backend does not produce are carried as zero/default values so
//! that downstream tooling which unconditionally reads them still
//! decodes the responses.

use vstd::prelude::*;
use crate::types::{H160, H256, U256};
use crate::header::HeaderRecord;

verus! {

/// A log entry in wire shape, localized to the block it was emitted in.
#[derive(Debug)]
pub struct Log {
    pub address: H160,
    pub topics: Vec<H256>,
    pub data: Vec<u8>,
    pub block_hash: H256,
    pub block_number: u64,
}

/// A transaction in wire shape, localized to its block when known.
#[derive(Debug)]
pub struct Transaction {
    pub hash: H256,
    pub nonce: u64,
    pub block_hash: Option<H256>,
    pub block_number: Option<u64>,
    pub transaction_index: Option<u64>,
    pub from: H160,
    pub to: Option<H160>,
    pub value: U256,
    pub gas: u64,
    pub gas_price: u64,
    pub input: Vec<u8>,
}

/// A transaction receipt in wire shape.
#[derive(Clone, Copy, Debug, PartialEq, Eq, Structural)]
pub struct Receipt {
    pub transaction_hash: H256,
    pub transaction_index: u64,
    pub block_hash: H256,
    pub block_number: u64,
    pub gas_used: u64,
}

/// The transactions of a returned block: hashes only, or full objects.
#[derive(Debug)]
pub enum BlockTransactions {
    Hashes(Vec<H256>),
    Full(Vec<Transaction>),
}

/// A block in wire shape. This backend has no uncles, so the uncle list
/// is always empty; the miner duplicates the author for compatibility.
#[derive(Debug)]
pub struct RichBlock {
    pub hash: Option<H256>,
    pub parent_hash: H256,
    pub author: H160,
    pub miner: H160,
    pub state_root: H256,
    pub transactions_root: H256,
    pub receipts_root: H256,
    pub number: Option<u64>,
    pub gas_used: u64,
    pub gas_limit: u64,
    pub timestamp: u64,
    pub difficulty: u64,
    pub uncles: Vec<H256>,
    pub transactions: BlockTransactions,
}

/// A block header pushed to head subscribers. The backend produces no
/// mix-hash and no proof-of-work nonce; both are filled with zeroes so
/// that consumers which unconditionally read them do not fail to decode.
#[derive(Clone, Copy, Debug, PartialEq, Eq, Structural)]
pub struct RichHeader {
    pub header: HeaderRecord,
    pub mix_hash: H256,
    pub nonce: u64,
}

/// The sync status report; this gateway never syncs.
#[derive(Clone, Copy, Debug, PartialEq, Eq, Structural)]
pub enum SyncStatus {
    NotSyncing,
}

/// A proof-of-work package; never produced (mining is unsupported).
#[derive(Clone, Copy, Debug, PartialEq, Eq, Structural)]
pub struct Work {
    pub pow_hash: H256,
    pub seed_hash: H256,
    pub target: H256,
}

} // verus!
