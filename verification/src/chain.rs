//! A plain-value model of the backend chain as the facade reads it:
//! blocks in append order (the block at index `n` has number `n`), each
//! with its hash, packed header, transactions, logs and an optional
//! materialized state. Absent state models pruning; the genesis block is
//! always present.

use vstd::prelude::*;
use crate::types::{H160, H256, U256};
use crate::block_ref::ResolvedQueryKey;

verus! {

/// One storage slot of an account.
#[derive(Clone, Copy, Debug, PartialEq, Eq, Structural)]
pub struct StorageEntry {
    pub slot: U256,
    pub value: H256,
}

/// An account in a materialized state. An address absent from a state
/// reads as the empty account: zero balance, zero nonce, empty code and
/// all-zero storage.
#[derive(Clone, Debug)]
pub struct AccountRecord {
    pub address: H160,
    pub balance: U256,
    pub nonce: u64,
    pub code: Vec<u8>,
    pub storage: Vec<StorageEntry>,
}

/// The materialized state at one block.
#[derive(Clone, Debug)]
pub struct StateRecord {
    pub accounts: Vec<AccountRecord>,
}

/// A transaction as the backend stores it, with the receipt's gas figure.
#[derive(Clone, Debug)]
pub struct TxRecord {
    pub hash: H256,
    pub from: H160,
    pub to: Option<H160>,
    pub value: U256,
    pub input: Vec<u8>,
    pub nonce: u64,
    pub gas: u64,
    pub gas_price: u64,
    pub gas_used: u64,
}

/// One log entry emitted in a block.
#[derive(Clone, Debug)]
pub struct LogRecord {
    pub address: H160,
    pub topics: Vec<H256>,
    pub data: Vec<u8>,
}

/// One canonical block.
#[derive(Clone, Debug)]
pub struct BlockRecord {
    pub hash: H256,
    pub encoded_header: Vec<u64>,
    pub transactions: Vec<TxRecord>,
    pub logs: Vec<LogRecord>,
    pub state: Option<StateRecord>,
}

/// The canonical chain.
#[derive(Clone, Debug)]
pub struct Chain {
    pub blocks: Vec<BlockRecord>,
}

/// First index at or after `i` whose block carries hash `h`.
pub open spec fn spec_hash_index_from(blocks: Seq<BlockRecord>, h: H256, i: int) -> Option<int>
    decreases blocks.len() - i,
{
    if i >= blocks.len() {
        None
    } else if blocks[i].hash == h {
        Some(i)
    } else {
        spec_hash_index_from(blocks, h, i + 1)
    }
}

/// First index at or after `j` whose account has address `a`.
pub open spec fn spec_account_index_from(accounts: Seq<AccountRecord>, a: H160, j: int) -> Option<int>
    decreases accounts.len() - j,
{
    if j >= accounts.len() {
        None
    } else if accounts[j].address == a {
        Some(j)
    } else {
        spec_account_index_from(accounts, a, j + 1)
    }
}

/// First index at or after `j` whose storage entry is for `slot`.
pub open spec fn spec_slot_index_from(entries: Seq<StorageEntry>, slot: U256, j: int) -> Option<int>
    decreases entries.len() - j,
{
    if j >= entries.len() {
        None
    } else if entries[j].slot == slot {
        Some(j)
    } else {
        spec_slot_index_from(entries, slot, j + 1)
    }
}

/// First index at or after `j` whose transaction carries hash `h`.
pub open spec fn spec_tx_index_from(txs: Seq<TxRecord>, h: H256, j: int) -> Option<int>
    decreases txs.len() - j,
{
    if j >= txs.len() {
        None
    } else if txs[j].hash == h {
        Some(j)
    } else {
        spec_tx_index_from(txs, h, j + 1)
    }
}

/// First (block, transaction) location at or after block `i` holding a
/// transaction with hash `h`.
pub open spec fn spec_tx_location_from(blocks: Seq<BlockRecord>, h: H256, i: int) -> Option<(int, int)>
    decreases blocks.len() - i,
{
    if i >= blocks.len() {
        None
    } else {
        match spec_tx_index_from(blocks[i].transactions@, h, 0) {
            Some(j) => Some((i, j)),
            None => spec_tx_location_from(blocks, h, i + 1),
        }
    }
}

impl StateRecord {
    /// The balance an address reads as in this state.
    pub open spec fn spec_balance_of(self, a: H160) -> U256 {
        match spec_account_index_from(self.accounts@, a, 0) {
            Some(j) => self.accounts@[j].balance,
            None => U256::spec_zero(),
        }
    }

    /// The nonce an address reads as in this state.
    pub open spec fn spec_nonce_of(self, a: H160) -> u64 {
        match spec_account_index_from(self.accounts@, a, 0) {
            Some(j) => self.accounts@[j].nonce,
            None => 0,
        }
    }

    /// The code an address reads as in this state.
    pub open spec fn spec_code_of(self, a: H160) -> Seq<u8> {
        match spec_account_index_from(self.accounts@, a, 0) {
            Some(j) => self.accounts@[j].code@,
            None => Seq::empty(),
        }
    }

    /// The storage value an address reads at `slot` in this state.
    pub open spec fn spec_storage_of(self, a: H160, slot: U256) -> H256 {
        match spec_account_index_from(self.accounts@, a, 0) {
            Some(j) => match spec_slot_index_from(self.accounts@[j].storage@, slot, 0) {
                Some(k) => self.accounts@[j].storage@[k].value,
                None => H256::spec_zero(),
            },
            None => H256::spec_zero(),
        }
    }
}

impl Chain {
    /// A well-formed chain holds at least the genesis block.
    pub open spec fn wf(self) -> bool {
        self.blocks@.len() >= 1
    }

    /// The number of the best (tip) block.
    pub open spec fn spec_best(self) -> int {
        self.blocks@.len() - 1
    }

    /// The block number a concrete query key denotes, if any.
    pub open spec fn spec_key_number(self, k: ResolvedQueryKey) -> Option<int> {
        match k {
            ResolvedQueryKey::Number(n) => if (n as int) < self.blocks@.len() {
                Some(n as int)
            } else {
                None
            },
            ResolvedQueryKey::Hash(h) => spec_hash_index_from(self.blocks@, h, 0),
            ResolvedQueryKey::Earliest => Some(0),
            ResolvedQueryKey::Latest => Some(self.blocks@.len() - 1),
        }
    }

    /// The materialized state a key denotes: absent when the key resolves
    /// to no canonical block or when that block's state is pruned.
    pub open spec fn spec_state_at(self, k: ResolvedQueryKey) -> Option<StateRecord> {
        match self.spec_key_number(k) {
            Some(i) => self.blocks@[i].state,
            None => None,
        }
    }

    /// What a balance query returns at a key.
    pub open spec fn spec_balance(self, a: H160, k: ResolvedQueryKey) -> Option<U256> {
        match self.spec_state_at(k) {
            Some(st) => Some(st.spec_balance_of(a)),
            None => None,
        }
    }

    /// What a nonce query returns at a key.
    pub open spec fn spec_nonce(self, a: H160, k: ResolvedQueryKey) -> Option<u64> {
        match self.spec_state_at(k) {
            Some(st) => Some(st.spec_nonce_of(a)),
            None => None,
        }
    }

    /// What a code query returns at a key.
    pub open spec fn spec_code(self, a: H160, k: ResolvedQueryKey) -> Option<Seq<u8>> {
        match self.spec_state_at(k) {
            Some(st) => Some(st.spec_code_of(a)),
            None => None,
        }
    }

    /// What a storage query returns at a key.
    pub open spec fn spec_storage(self, a: H160, slot: U256, k: ResolvedQueryKey) -> Option<H256> {
        match self.spec_state_at(k) {
            Some(st) => Some(st.spec_storage_of(a, slot)),
            None => None,
        }
    }

    /// The number of the best block.
    pub fn best_block_number(&self) -> (r: u64)
        requires
            self.wf(),
        ensures
            r as int == self.spec_best(),
    {
        let n: usize = self.blocks.len();
        (n - 1) as u64
    }

    /// Resolve a concrete key to the index of the canonical block it
    /// denotes, if that block is part of the chain.
    pub fn lookup_key(&self, k: ResolvedQueryKey) -> (r: Option<usize>)
        requires
            self.wf(),
        ensures
            match r {
                Some(i) => i < self.blocks@.len() && self.spec_key_number(k) == Some(i as int),
                None => self.spec_key_number(k) is None,
            },
    {
        match k {
            ResolvedQueryKey::Number(n) => {
                if n < self.blocks.len() as u64 {
                    Some(n as usize)
                } else {
                    None
                }
            },
            ResolvedQueryKey::Hash(h) => {
                let mut i: usize = 0;
                while i < self.blocks.len()
                    invariant
                        i <= self.blocks@.len(),
                        k == ResolvedQueryKey::Hash(h),
                        spec_hash_index_from(self.blocks@, h, 0) == spec_hash_index_from(
                            self.blocks@,
                            h,
                            i as int,
                        ),
                    decreases self.blocks@.len() - i,
                {
                    if self.blocks[i].hash == h {
                        proof {
                            assert(spec_hash_index_from(self.blocks@, h, i as int) == Some(
                                i as int,
                            ));
                        }
                        return Some(i);
                    }
                    i = i + 1;
                }
                None
            },
            ResolvedQueryKey::Earliest => Some(0),
            ResolvedQueryKey::Latest => Some(self.blocks.len() - 1),
        }
    }

    /// Whether the chain holds a materialized state at a key.
    pub fn has_state_at(&self, k: ResolvedQueryKey) -> (r: bool)
        requires
            self.wf(),
        ensures
            r == (self.spec_state_at(k) is Some),
    {
        match self.lookup_key(k) {
            Some(i) => self.blocks[i].state.is_some(),
            None => false,
        }
    }

    /// The packed header of the block a key denotes, if the block is
    /// canonical.
    pub fn block_header(&self, k: ResolvedQueryKey) -> (r: Option<&Vec<u64>>)
        requires
            self.wf(),
        ensures
            match r {
                Some(w) => exists|i: int|
                    self.spec_key_number(k) == Some(i) && 0 <= i < self.blocks@.len()
                        && w@ == self.blocks@[i].encoded_header@,
                None => self.spec_key_number(k) is None,
            },
    {
        match self.lookup_key(k) {
            Some(i) => Some(&self.blocks[i].encoded_header),
            None => None,
        }
    }

    /// The balance of `address` at a key; absent when no state is
    /// materialized there. An unknown account reads as zero.
    pub fn balance(&self, address: &H160, k: ResolvedQueryKey) -> (r: Option<U256>)
        requires
            self.wf(),
        ensures
            r == self.spec_balance(*address, k),
    {
        match self.lookup_key(k) {
            Some(i) => match &self.blocks[i].state {
                Some(st) => {
                    match account_index(&st.accounts, address) {
                        Some(j) => Some(st.accounts[j].balance),
                        None => Some(U256::zero()),
                    }
                },
                None => None,
            },
            None => None,
        }
    }

    /// The nonce of `address` at a key; absent when no state is
    /// materialized there. An unknown account reads as zero.
    pub fn nonce(&self, address: &H160, k: ResolvedQueryKey) -> (r: Option<u64>)
        requires
            self.wf(),
        ensures
            r == self.spec_nonce(*address, k),
    {
        match self.lookup_key(k) {
            Some(i) => match &self.blocks[i].state {
                Some(st) => {
                    match account_index(&st.accounts, address) {
                        Some(j) => Some(st.accounts[j].nonce),
                        None => Some(0),
                    }
                },
                None => None,
            },
            None => None,
        }
    }

    /// The code of `address` at a key; absent when no state is
    /// materialized there. An unknown account reads as empty code.
    pub fn code(&self, address: &H160, k: ResolvedQueryKey) -> (r: Option<Vec<u8>>)
        requires
            self.wf(),
        ensures
            match r {
                Some(c) => self.spec_code(*address, k) == Some(c@),
                None => self.spec_code(*address, k) is None,
            },
    {
        match self.lookup_key(k) {
            Some(i) => match &self.blocks[i].state {
                Some(st) => {
                    match account_index(&st.accounts, address) {
                        Some(j) => Some(copy_bytes(&st.accounts[j].code)),
                        None => Some(Vec::new()),
                    }
                },
                None => None,
            },
            None => None,
        }
    }

    /// The storage value of `address` at `slot` at a key; absent when no
    /// state is materialized there. An unset slot reads as zero.
    pub fn storage_at(&self, address: &H160, slot: U256, k: ResolvedQueryKey) -> (r: Option<H256>)
        requires
            self.wf(),
        ensures
            r == self.spec_storage(*address, slot, k),
    {
        match self.lookup_key(k) {
            Some(i) => match &self.blocks[i].state {
                Some(st) => {
                    match account_index(&st.accounts, address) {
                        Some(j) => {
                            match slot_index(&st.accounts[j].storage, slot) {
                                Some(e) => Some(st.accounts[j].storage[e].value),
                                None => Some(H256::zero()),
                            }
                        },
                        None => Some(H256::zero()),
                    }
                },
                None => None,
            },
            None => None,
        }
    }

    /// The location of the transaction carrying hash `h`, as a (block
    /// number, index in block) pair, if the chain holds one.
    pub fn find_transaction(&self, h: H256) -> (r: Option<(usize, usize)>)
        requires
            self.wf(),
        ensures
            match r {
                Some(loc) => spec_tx_location_from(self.blocks@, h, 0) == Some(
                    (loc.0 as int, loc.1 as int),
                ) && loc.0 < self.blocks@.len() && loc.1 < self.blocks@[loc.0 as int].transactions@.len(),
                None => spec_tx_location_from(self.blocks@, h, 0) is None,
            },
    {
        let mut i: usize = 0;
        while i < self.blocks.len()
            invariant
                self.wf(),
                i <= self.blocks@.len(),
                spec_tx_location_from(self.blocks@, h, 0) == spec_tx_location_from(
                    self.blocks@,
                    h,
                    i as int,
                ),
            decreases self.blocks@.len() - i,
        {
            let txs = &self.blocks[i].transactions;
            let mut j: usize = 0;
            while j < txs.len()
                invariant
                    j <= txs@.len(),
                    txs@ == self.blocks@[i as int].transactions@,
                    i < self.blocks@.len(),
                    spec_tx_location_from(self.blocks@, h, 0) == spec_tx_location_from(
                        self.blocks@,
                        h,
                        i as int,
                    ),
                    spec_tx_index_from(txs@, h, 0) == spec_tx_index_from(txs@, h, j as int),
                decreases txs@.len() - j,
            {
                if txs[j].hash == h {
                    proof {
                        assert(spec_tx_index_from(txs@, h, j as int) == Some(j as int));
                        assert(spec_tx_location_from(self.blocks@, h, i as int) == Some(
                            (i as int, j as int),
                        ));
                    }
                    return Some((i, j));
                }
                j = j + 1;
            }
            i = i + 1;
        }
        None
    }
}

/// First index of an account with the given address.
fn account_index(accounts: &Vec<AccountRecord>, address: &H160) -> (r: Option<usize>)
    ensures
        match r {
            Some(j) => j < accounts@.len() && spec_account_index_from(accounts@, *address, 0)
                == Some(j as int),
            None => spec_account_index_from(accounts@, *address, 0) is None,
        },
{
    let mut j: usize = 0;
    while j < accounts.len()
        invariant
            j <= accounts@.len(),
            spec_account_index_from(accounts@, *address, 0) == spec_account_index_from(
                accounts@,
                *address,
                j as int,
            ),
        decreases accounts@.len() - j,
    {
        if accounts[j].address == *address {
            return Some(j);
        }
        j = j + 1;
    }
    None
}

/// First index of a storage entry for the given slot.
fn slot_index(entries: &Vec<StorageEntry>, slot: U256) -> (r: Option<usize>)
    ensures
        match r {
            Some(k) => k < entries@.len() && spec_slot_index_from(entries@, slot, 0) == Some(
                k as int,
            ),
            None => spec_slot_index_from(entries@, slot, 0) is None,
        },
{
    let mut k: usize = 0;
    while k < entries.len()
        invariant
            k <= entries@.len(),
            spec_slot_index_from(entries@, slot, 0) == spec_slot_index_from(
                entries@,
                slot,
                k as int,
            ),
        decreases entries@.len() - k,
    {
        if entries[k].slot == slot {
            return Some(k);
        }
        k = k + 1;
    }
    None
}

/// An owned copy of a byte vector.
pub fn copy_bytes(b: &Vec<u8>) -> (r: Vec<u8>)
    ensures
        r@ == b@,
{
    let mut r: Vec<u8> = Vec::new();
    let mut i: usize = 0;
    while i < b.len()
        invariant
            i <= b@.len(),
            r@ == b@.subrange(0, i as int),
        decreases b@.len() - i,
    {
        r.push(b[i]);
        proof {
            assert(r@ =~= b@.subrange(0, i + 1 as int));
        }
        i = i + 1;
    }
    proof {
        assert(r@ =~= b@);
    }
    r
}


/// An owned copy of a hash vector.
pub fn copy_hashes(b: &Vec<H256>) -> (r: Vec<H256>)
    ensures
        r@ == b@,
{
    let mut r: Vec<H256> = Vec::new();
    let mut i: usize = 0;
    while i < b.len()
        invariant
            i <= b@.len(),
            r@ == b@.subrange(0, i as int),
        decreases b@.len() - i,
    {
        r.push(b[i]);
        proof {
            assert(r@ =~= b@.subrange(0, i + 1 as int));
        }
        i = i + 1;
    }
    proof {
        assert(r@ =~= b@);
    }
    r
}

} // verus!

