//! The query facade: every read/query/submit RPC method, implemented by
//! resolving block identifiers, consulting the chain-status guard, and
//! reading the model chain. Execution and raw-transaction decoding belong
//! to the backend engine; their verdicts enter as explicit outcome
//! values, and this module is verified for every such verdict.

use vstd::prelude::*;
use crate::types::{H160, H256, U256};
use crate::block_ref::{BlockReference, ResolvedQueryKey, spec_resolve, resolve};
use crate::chain::{Chain, copy_bytes};
use crate::errors::Error;
use crate::header::{HeaderRecord, spec_decode_header, decode_header};
use crate::wire::{BlockTransactions, Log, Receipt, RichBlock, SyncStatus, Transaction, Work};
use crate::filter::{
    LogFilter, spec_matches_in_range, spec_wires_of, spec_kept, query_logs, limit_logs,
};

verus! {

/// Request metadata as the transport hands it over; dapp-originated
/// calls get a capped default gas.
#[derive(Clone, Copy, Debug, PartialEq, Eq, Structural)]
pub struct Metadata {
    pub origin_is_dapp: bool,
}

impl Metadata {
    pub fn is_dapp(&self) -> (r: bool)
        ensures
            r == self.origin_is_dapp,
    {
        self.origin_is_dapp
    }
}

/// An unsigned call request as received on the wire; absent fields are
/// filled with deterministic placeholders by `fake_sign_call`.
#[derive(Debug)]
pub struct CallRequest {
    pub from: Option<H160>,
    pub to: Option<H160>,
    pub gas_price: Option<u64>,
    pub gas: Option<u64>,
    pub value: Option<U256>,
    pub data: Option<Vec<u8>>,
    pub nonce: Option<u64>,
}

/// A call request after the fake-signature transform: every field
/// concrete, ready for the execution engine.
#[derive(Debug)]
pub struct SignedCall {
    pub from: H160,
    pub to: Option<H160>,
    pub gas_price: u64,
    pub gas: u64,
    pub value: U256,
    pub data: Vec<u8>,
    pub nonce: u64,
}

/// Default gas for a dapp-originated call with no explicit gas.
pub const CALL_GAS_CAP: u64 = 50_000_000;

/// Whether a signed call is the fake-signature transform of a request:
/// absent fields filled with the zero address, zero price/value/nonce,
/// empty data, and a gas default that is capped for dapp origins.
pub open spec fn spec_fake_signed(req: CallRequest, gas_cap: bool, s: SignedCall) -> bool {
    &&& s.from == (match req.from {
        Some(f) => f,
        None => H160::spec_zero(),
    })
    &&& s.to == req.to
    &&& s.gas_price == (match req.gas_price {
        Some(p) => p,
        None => 0u64,
    })
    &&& s.gas == (match req.gas {
        Some(g) => g,
        None => if gas_cap {
            CALL_GAS_CAP
        } else {
            u64::MAX
        },
    })
    &&& s.value == (match req.value {
        Some(v) => v,
        None => U256::spec_zero(),
    })
    &&& s.data@ == (match req.data {
        Some(d) => d@,
        None => Seq::<u8>::empty(),
    })
    &&& s.nonce == (match req.nonce {
        Some(n) => n,
        None => 0u64,
    })
}

/// Apply the deterministic placeholder signer to an unsigned call
/// request, so it can be executed against a backend that requires a
/// signed transaction shape. Total: never fails.
pub fn fake_sign_call(req: CallRequest, gas_cap: bool) -> (s: SignedCall)
    ensures
        spec_fake_signed(req, gas_cap, s),
{
    SignedCall {
        from: match req.from {
            Some(f) => f,
            None => H160::zero(),
        },
        to: req.to,
        gas_price: match req.gas_price {
            Some(p) => p,
            None => 0,
        },
        gas: match req.gas {
            Some(g) => g,
            None => if gas_cap {
                CALL_GAS_CAP
            } else {
                u64::MAX
            },
        },
        value: match req.value {
            Some(v) => v,
            None => U256::zero(),
        },
        data: match req.data {
            Some(d) => d,
            None => Vec::new(),
        },
        nonce: match req.nonce {
            Some(n) => n,
            None => 0,
        },
    }
}

/// The execution engine's verdict on a prepared call.
#[derive(Debug)]
pub enum CallOutcome {
    /// The engine refused to run the call; carries its message.
    Failure(String),
    /// The call ran; a runtime exception, if any, and the output bytes.
    Executed { exception: Option<String>, output: Vec<u8> },
}

/// The gas-estimation routine's verdict.
#[derive(Debug)]
pub enum EstimateOutcome {
    Estimated(u64),
    Failed(String),
}

/// The backend's verdict on raw transaction bytes submitted to its
/// raw-submission entry point (decoding is delegated entirely to it).
#[derive(Debug)]
pub enum SubmitOutcome {
    Accepted(H256),
    Rejected(String),
}

/// A block selector that is either a wire-level reference or an already
/// resolved key.
#[derive(Clone, Copy, Debug, PartialEq, Eq, Structural)]
pub enum BlockNumberOrId {
    Number(BlockReference),
    Id(ResolvedQueryKey),
}

impl BlockNumberOrId {
    /// The concrete key this selector denotes.
    pub open spec fn spec_key(self) -> ResolvedQueryKey {
        match self {
            BlockNumberOrId::Number(n) => spec_resolve(n),
            BlockNumberOrId::Id(k) => k,
        }
    }
}

impl From<ResolvedQueryKey> for BlockNumberOrId {
    fn from(value: ResolvedQueryKey) -> (r: BlockNumberOrId) {
        BlockNumberOrId::Id(value)
    }
}

impl vstd::std_specs::convert::FromSpecImpl<ResolvedQueryKey> for BlockNumberOrId {
    open spec fn obeys_from_spec() -> bool {
        true
    }

    open spec fn from_spec(value: ResolvedQueryKey) -> BlockNumberOrId {
        BlockNumberOrId::Id(value)
    }
}

impl From<BlockReference> for BlockNumberOrId {
    fn from(value: BlockReference) -> (r: BlockNumberOrId) {
        BlockNumberOrId::Number(value)
    }
}

impl vstd::std_specs::convert::FromSpecImpl<BlockReference> for BlockNumberOrId {
    open spec fn obeys_from_spec() -> bool {
        true
    }

    open spec fn from_spec(value: BlockReference) -> BlockNumberOrId {
        BlockNumberOrId::Number(value)
    }
}

/// Either a concrete block or the (nonexistent) pending block.
#[derive(Clone, Copy, Debug, PartialEq, Eq, Structural)]
pub enum PendingOrBlock {
    Block(ResolvedQueryKey),
    Pending,
}

/// An uncle selector; this backend has no uncles, so it never selects
/// anything.
#[derive(Clone, Copy, Debug, PartialEq, Eq, Structural)]
pub struct PendingUncleId {
    pub id: PendingOrBlock,
    pub position: usize,
}

/// A transaction selector: by hash, or by position in a block.
#[derive(Clone, Copy, Debug, PartialEq, Eq, Structural)]
pub enum PendingTransactionId {
    Hash(H256),
    Location(PendingOrBlock, usize),
}

/// An omitted trailing block reference defaults to `Latest`.
pub open spec fn spec_or_latest(num: Option<BlockReference>) -> BlockReference {
    match num {
        Some(n) => n,
        None => BlockReference::Latest,
    }
}

/// What the chain-status guard answers for a reference.
pub open spec fn spec_ensure_known(c: Chain, num: BlockReference) -> Result<(), Error> {
    match num {
        BlockReference::Pending => Ok(()),
        _ => match c.spec_key_number(spec_resolve(num)) {
            Some(_) => Ok(()),
            None => Err(Error::UnknownBlock),
        },
    }
}

/// The chain-status guard: check that the referenced block is part of
/// the canonical chain before a state query runs against it. `Pending`
/// always succeeds trivially (there is nothing to check); anything else
/// must denote a canonical block or the guard answers `UnknownBlock`.
pub fn ensure_known(c: &Chain, num: BlockReference) -> (r: Result<(), Error>)
    requires
        c.wf(),
    ensures
        r == spec_ensure_known(*c, num),
{
    match num {
        BlockReference::Pending => Ok(()),
        _ => {
            match c.lookup_key(resolve(num)) {
                Some(_) => Ok(()),
                None => Err(Error::UnknownBlock),
            }
        },
    }
}

/// The guard never rejects `Pending`, whatever the chain holds.
pub proof fn lemma_ensure_known_pending(c: Chain)
    ensures
        spec_ensure_known(c, BlockReference::Pending) == Ok::<(), Error>(()),
{
}

/// The Eth RPC facade over the model chain.
#[derive(Clone, Debug)]
pub struct EthClient {
    pub chain: Chain,
}

impl EthClient {
    /// A facade is well formed when its chain is.
    pub open spec fn wf(self) -> bool {
        self.chain.wf()
    }

    /// Creates a new facade over a chain snapshot.
    pub fn new(chain: Chain) -> (r: Self)
        ensures
            r.chain == chain,
    {
        EthClient { chain }
    }

    /// The protocol version is a fixed constant.
    pub fn protocol_version(&self) -> (r: Result<String, Error>)
        ensures
            r matches Ok(v) && v@ == "63"@,
    {
        Ok("63".to_owned())
    }

    /// This gateway always reports "not syncing".
    pub fn syncing(&self) -> (r: Result<SyncStatus, Error>)
        ensures
            r == Ok::<SyncStatus, Error>(SyncStatus::NotSyncing),
    {
        Ok(SyncStatus::NotSyncing)
    }

    /// There is no block author; the zero address is reported.
    pub fn author(&self, _meta: Metadata) -> (r: Result<H160, Error>)
        ensures
            r == Ok::<H160, Error>(H160::spec_zero()),
    {
        Ok(H160::zero())
    }

    /// Always reported as mining, for protocol compatibility.
    pub fn is_mining(&self) -> (r: Result<bool, Error>)
        ensures
            r == Ok::<bool, Error>(true),
    {
        Ok(true)
    }

    /// There is no proof of work; the hashrate is always zero.
    pub fn hashrate(&self) -> (r: Result<U256, Error>)
        ensures
            r == Ok::<U256, Error>(U256::spec_zero()),
    {
        Ok(U256::zero())
    }

    /// The gas price is always zero.
    pub fn gas_price(&self) -> (r: Result<U256, Error>)
        ensures
            r == Ok::<U256, Error>(U256::spec_zero()),
    {
        Ok(U256::zero())
    }

    /// This gateway manages no accounts.
    pub fn accounts(&self, _meta: Metadata) -> (r: Result<Vec<H160>, Error>)
        ensures
            r matches Ok(v) && v@ == Seq::<H160>::empty(),
    {
        Ok(Vec::new())
    }

    /// The number of the best block.
    pub fn block_number(&self) -> (r: Result<U256, Error>)
        requires
            self.wf(),
        ensures
            r matches Ok(v) && v == U256::spec_from_u64(self.chain.spec_best() as u64),
    {
        let n = self.chain.best_block_number();
        Ok(U256::from_u64(n))
    }

    /// What a balance query answers: the guard's error verbatim, then
    /// `StatePruned` when no state is materialized, then the balance.
    pub open spec fn spec_balance_rpc(self, address: H160, num: Option<BlockReference>) -> Result<
        U256,
        Error,
    > {
        let n = spec_or_latest(num);
        match spec_ensure_known(self.chain, n) {
            Err(e) => Err(e),
            Ok(_) => match self.chain.spec_balance(address, spec_resolve(n)) {
                Some(b) => Ok(b),
                None => Err(Error::StatePruned),
            },
        }
    }

    /// The balance of an address at a block reference.
    pub fn balance(&self, address: H160, num: Option<BlockReference>) -> (r: Result<U256, Error>)
        requires
            self.wf(),
        ensures
            r == self.spec_balance_rpc(address, num),
    {
        let n = or_latest(num);
        match ensure_known(&self.chain, n) {
            Err(e) => Err(e),
            Ok(_) => {
                match self.chain.balance(&address, resolve(n)) {
                    Some(b) => Ok(b),
                    None => Err(Error::StatePruned),
                }
            },
        }
    }

    /// What a storage query answers, with the same guard/pruning
    /// contract as `balance`.
    pub open spec fn spec_storage_rpc(
        self,
        address: H160,
        pos: U256,
        num: Option<BlockReference>,
    ) -> Result<H256, Error> {
        let n = spec_or_latest(num);
        match spec_ensure_known(self.chain, n) {
            Err(e) => Err(e),
            Ok(_) => match self.chain.spec_storage(address, pos, spec_resolve(n)) {
                Some(v) => Ok(v),
                None => Err(Error::StatePruned),
            },
        }
    }

    /// The storage value of an address at a slot and block reference.
    pub fn storage_at(&self, address: H160, pos: U256, num: Option<BlockReference>) -> (r: Result<
        H256,
        Error,
    >)
        requires
            self.wf(),
        ensures
            r == self.spec_storage_rpc(address, pos, num),
    {
        let n = or_latest(num);
        match ensure_known(&self.chain, n) {
            Err(e) => Err(e),
            Ok(_) => {
                match self.chain.storage_at(&address, pos, resolve(n)) {
                    Some(v) => Ok(v),
                    None => Err(Error::StatePruned),
                }
            },
        }
    }

    /// The transaction count (nonce) of an address. `Pending` is special:
    /// the nonce is read against the latest state directly, without the
    /// guard, and a missing latest nonce is a fatal database
    /// inconsistency, not pruning.
    pub fn transaction_count(&self, address: H160, num: Option<BlockReference>) -> (r: Result<
        U256,
        Error,
    >)
        requires
            self.wf(),
        ensures
            ({
                let n = spec_or_latest(num);
                match n {
                    BlockReference::Pending => match self.chain.spec_nonce(
                        address,
                        ResolvedQueryKey::Latest,
                    ) {
                        Some(k) => r == Ok::<U256, Error>(U256::spec_from_u64(k)),
                        None => r matches Err(e) && e matches Error::Database(m) && m@
                            == "latest nonce missing"@,
                    },
                    _ => match spec_ensure_known(self.chain, n) {
                        Err(e) => r == Err::<U256, Error>(e),
                        Ok(_) => match self.chain.spec_nonce(address, spec_resolve(n)) {
                            Some(k) => r == Ok::<U256, Error>(U256::spec_from_u64(k)),
                            None => r == Err::<U256, Error>(Error::StatePruned),
                        },
                    },
                }
            }),
    {
        let n = or_latest(num);
        match n {
            BlockReference::Pending => {
                match self.chain.nonce(&address, ResolvedQueryKey::Latest) {
                    Some(k) => Ok(U256::from_u64(k)),
                    None => Err(Error::Database("latest nonce missing".to_owned())),
                }
            },
            _ => {
                match ensure_known(&self.chain, n) {
                    Err(e) => Err(e),
                    Ok(_) => {
                        match self.chain.nonce(&address, resolve(n)) {
                            Some(k) => Ok(U256::from_u64(k)),
                            None => Err(Error::StatePruned),
                        }
                    },
                }
            },
        }
    }

    /// The code of an address at a block reference, with the same
    /// guard/pruning contract as `balance`.
    pub fn code_at(&self, address: H160, num: Option<BlockReference>) -> (r: Result<Vec<u8>, Error>)
        requires
            self.wf(),
        ensures
            ({
                let n = spec_or_latest(num);
                match spec_ensure_known(self.chain, n) {
                    Err(e) => r == Err::<Vec<u8>, Error>(e),
                    Ok(_) => match self.chain.spec_code(address, spec_resolve(n)) {
                        Some(c) => r matches Ok(v) && v@ == c,
                        None => r == Err::<Vec<u8>, Error>(Error::StatePruned),
                    },
                }
            }),
    {
        let n = or_latest(num);
        match ensure_known(&self.chain, n) {
            Err(e) => Err(e),
            Ok(_) => {
                match self.chain.code(&address, resolve(n)) {
                    Some(c) => Ok(c),
                    None => Err(Error::StatePruned),
                }
            },
        }
    }

    /// The number of transactions in the block with the given hash.
    pub fn block_transaction_count_by_hash(&self, hash: H256) -> (r: Option<U256>)
        requires
            self.wf(),
        ensures
            match self.chain.spec_key_number(ResolvedQueryKey::Hash(hash)) {
                Some(i) => r matches Some(v) && v == U256::spec_from_u64(
                    self.chain.blocks@[i].transactions@.len() as u64,
                ),
                None => r is None,
            },
    {
        match self.chain.lookup_key(ResolvedQueryKey::Hash(hash)) {
            Some(i) => {
                let n: usize = self.chain.blocks[i].transactions.len();
                Some(U256::from_u64(n as u64))
            },
            None => None,
        }
    }

    /// The number of transactions in the referenced block.
    pub fn block_transaction_count_by_number(&self, num: BlockReference) -> (r: Option<U256>)
        requires
            self.wf(),
        ensures
            match self.chain.spec_key_number(spec_resolve(num)) {
                Some(i) => r matches Some(v) && v == U256::spec_from_u64(
                    self.chain.blocks@[i].transactions@.len() as u64,
                ),
                None => r is None,
            },
    {
        match self.chain.lookup_key(resolve(num)) {
            Some(i) => {
                let n: usize = self.chain.blocks[i].transactions.len();
                Some(U256::from_u64(n as u64))
            },
            None => None,
        }
    }

    /// There are no uncles; the count is always zero.
    pub fn block_uncles_count_by_hash(&self, _hash: H256) -> (r: Option<U256>)
        ensures
            r == Some(U256::spec_from_u64(0)),
    {
        Some(U256::from_u64(0))
    }

    /// There are no uncles; the count is always zero.
    pub fn block_uncles_count_by_number(&self, _num: BlockReference) -> (r: Option<U256>)
        ensures
            r == Some(U256::spec_from_u64(0)),
    {
        Some(U256::from_u64(0))
    }

    /// There are no uncles; nothing is ever found.
    pub fn uncle(&self, _id: PendingUncleId) -> (r: Result<Option<RichBlock>, Error>)
        ensures
            r matches Ok(v) && v is None,
    {
        Ok(None)
    }

    /// There are no uncles; nothing is ever found.
    pub fn uncle_by_block_hash_and_index(&self, _hash: H256, _index: usize) -> (r: Option<
        RichBlock,
    >)
        ensures
            r is None,
    {
        None
    }

    /// There are no uncles; nothing is ever found.
    pub fn uncle_by_block_number_and_index(&self, _num: BlockReference, _index: usize) -> (r:
        Option<RichBlock>)
        ensures
            r is None,
    {
        None
    }

    /// Mining work packages are not supported.
    pub fn work(&self, _no_new_work_timeout: Option<u64>) -> (r: Result<Work, Error>)
        ensures
            r == Err::<Work, Error>(Error::Unimplemented),
    {
        Err(Error::Unimplemented)
    }

    /// Submitting proof-of-work solutions is not supported.
    pub fn submit_work(&self, _nonce: u64, _pow_hash: H256, _mix_hash: H256) -> (r: Result<
        bool,
        Error,
    >)
        ensures
            r == Err::<bool, Error>(Error::Unimplemented),
    {
        Err(Error::Unimplemented)
    }

    /// Reporting an external hashrate is not supported.
    pub fn submit_hashrate(&self, _rate: U256, _id: H256) -> (r: Result<bool, Error>)
        ensures
            r == Err::<bool, Error>(Error::Unimplemented),
    {
        Err(Error::Unimplemented)
    }

    /// On-chain compiler listing was removed from the protocol.
    pub fn compilers(&self) -> (r: Result<Vec<String>, Error>)
        ensures
            r matches Err(e) && e matches Error::Deprecated(m) && m@
                == "Compilation functionality is deprecated."@,
    {
        Err(Error::Deprecated("Compilation functionality is deprecated.".to_owned()))
    }

    /// LLL compilation was removed from the protocol.
    pub fn compile_lll(&self, _code: String) -> (r: Result<Vec<u8>, Error>)
        ensures
            r matches Err(e) && e matches Error::Deprecated(m) && m@
                == "Compilation of LLL via RPC is deprecated"@,
    {
        Err(Error::Deprecated("Compilation of LLL via RPC is deprecated".to_owned()))
    }

    /// Serpent compilation was removed from the protocol.
    pub fn compile_serpent(&self, _code: String) -> (r: Result<Vec<u8>, Error>)
        ensures
            r matches Err(e) && e matches Error::Deprecated(m) && m@
                == "Compilation of Serpent via RPC is deprecated"@,
    {
        Err(Error::Deprecated("Compilation of Serpent via RPC is deprecated".to_owned()))
    }

    /// Solidity compilation was removed from the protocol.
    pub fn compile_solidity(&self, _code: String) -> (r: Result<Vec<u8>, Error>)
        ensures
            r matches Err(e) && e matches Error::Deprecated(m) && m@
                == "Compilation of Solidity via RPC is deprecated"@,
    {
        Err(Error::Deprecated("Compilation of Solidity via RPC is deprecated".to_owned()))
    }

    /// Submit raw transaction bytes: decoding and validation are
    /// delegated entirely to the backend's raw-submission entry point,
    /// whose verdict is `outcome`; any failure surfaces as a `Call`
    /// error wrapping the backend's message.
    pub fn send_raw_transaction(&self, outcome: SubmitOutcome) -> (r: Result<H256, Error>)
        ensures
            match outcome {
                SubmitOutcome::Accepted(h) => r == Ok::<H256, Error>(h),
                SubmitOutcome::Rejected(m) => r matches Err(e) && e matches Error::Call(mm) && mm@
                    == m@,
            },
    {
        match outcome {
            SubmitOutcome::Accepted(h) => Ok(h),
            SubmitOutcome::Rejected(m) => Err(Error::Call(m)),
        }
    }

    /// Alias of `send_raw_transaction`.
    pub fn submit_transaction(&self, outcome: SubmitOutcome) -> (r: Result<H256, Error>)
        ensures
            match outcome {
                SubmitOutcome::Accepted(h) => r == Ok::<H256, Error>(h),
                SubmitOutcome::Rejected(m) => r matches Err(e) && e matches Error::Call(mm) && mm@
                    == m@,
            },
    {
        self.send_raw_transaction(outcome)
    }
}

/// An omitted trailing block reference defaults to `Latest`.
pub fn or_latest(num: Option<BlockReference>) -> (r: BlockReference)
    ensures
        r == spec_or_latest(num),
{
    match num {
        Some(n) => n,
        None => BlockReference::Latest,
    }
}

/// Whether `t` is the wire shape of the transaction at block `i`,
/// index `j`, localized to that block.
pub open spec fn spec_tx_wire_of(c: Chain, t: Transaction, i: int, j: int) -> bool {
    &&& 0 <= i < c.blocks@.len()
    &&& 0 <= j < c.blocks@[i].transactions@.len()
    &&& t.hash == c.blocks@[i].transactions@[j].hash
    &&& t.nonce == c.blocks@[i].transactions@[j].nonce
    &&& t.block_hash == Some(c.blocks@[i].hash)
    &&& t.block_number == Some(i as u64)
    &&& t.transaction_index == Some(j as u64)
    &&& t.from == c.blocks@[i].transactions@[j].from
    &&& t.to == c.blocks@[i].transactions@[j].to
    &&& t.value == c.blocks@[i].transactions@[j].value
    &&& t.gas == c.blocks@[i].transactions@[j].gas
    &&& t.gas_price == c.blocks@[i].transactions@[j].gas_price
    &&& t.input@ == c.blocks@[i].transactions@[j].input@
}

/// Build the localized wire shape of the transaction at block `i`,
/// index `j`.
fn localized_tx(c: &Chain, i: usize, j: usize) -> (t: Transaction)
    requires
        i < c.blocks@.len(),
        j < c.blocks@[i as int].transactions@.len(),
    ensures
        spec_tx_wire_of(*c, t, i as int, j as int),
{
    let rec = &c.blocks[i].transactions[j];
    Transaction {
        hash: rec.hash,
        nonce: rec.nonce,
        block_hash: Some(c.blocks[i].hash),
        block_number: Some(i as u64),
        transaction_index: Some(j as u64),
        from: rec.from,
        to: rec.to,
        value: rec.value,
        gas: rec.gas,
        gas_price: rec.gas_price,
        input: copy_bytes(&rec.input),
    }
}

/// Whether `b` is the wire shape of block `i` under decoded header `h`:
/// header fields copied, miner duplicating the author, no uncles, and
/// the transactions as hashes or full localized objects.
pub open spec fn spec_rich_block_of(
    c: Chain,
    b: RichBlock,
    i: int,
    h: HeaderRecord,
    include_txs: bool,
) -> bool {
    &&& b.hash == Some(c.blocks@[i].hash)
    &&& b.parent_hash == h.parent_hash
    &&& b.author == h.author
    &&& b.miner == h.author
    &&& b.state_root == h.state_root
    &&& b.transactions_root == h.transactions_root
    &&& b.receipts_root == h.receipts_root
    &&& b.number == Some(h.number)
    &&& b.gas_used == h.gas_used
    &&& b.gas_limit == h.gas_limit
    &&& b.timestamp == h.timestamp
    &&& b.difficulty == h.difficulty
    &&& b.uncles@ == Seq::<H256>::empty()
    &&& match b.transactions {
        BlockTransactions::Full(txs) => include_txs && txs@.len()
            == c.blocks@[i].transactions@.len() && (forall|j: int|
            0 <= j < txs@.len() ==> spec_tx_wire_of(c, #[trigger] txs@[j], i, j)),
        BlockTransactions::Hashes(hs) => !include_txs && hs@.len()
            == c.blocks@[i].transactions@.len() && (forall|j: int|
            0 <= j < hs@.len() ==> #[trigger] hs@[j] == c.blocks@[i].transactions@[j].hash),
    }
}

impl EthClient {
    /// Look a block up by reference or key and shape it for the wire:
    /// an unknown block is no error (`None`), a corrupt stored header
    /// is a `Decode` error.
    pub fn rich_block(&self, id: BlockNumberOrId, include_txs: bool) -> (r: Result<
        Option<RichBlock>,
        Error,
    >)
        requires
            self.wf(),
        ensures
            ({
                let k = id.spec_key();
                match self.chain.spec_key_number(k) {
                    None => r == Ok::<Option<RichBlock>, Error>(None),
                    Some(i) => match spec_decode_header(self.chain.blocks@[i].encoded_header@) {
                        None => r == Err::<Option<RichBlock>, Error>(Error::Decode),
                        Some(h) => r matches Ok(ob) && ob matches Some(b) && spec_rich_block_of(
                            self.chain,
                            b,
                            i,
                            h,
                            include_txs,
                        ),
                    },
                }
            }),
    {
        let k = match id {
            BlockNumberOrId::Number(n) => resolve(n),
            BlockNumberOrId::Id(k) => k,
        };
        let i = match self.chain.lookup_key(k) {
            Some(i) => i,
            None => {
                return Ok(None);
            },
        };
        let h = match decode_header(&self.chain.blocks[i].encoded_header) {
            Ok(h) => h,
            Err(e) => {
                return Err(e);
            },
        };
        let txs = &self.chain.blocks[i].transactions;
        let transactions = if include_txs {
            let mut full: Vec<Transaction> = Vec::new();
            let mut j: usize = 0;
            while j < txs.len()
                invariant
                    self.wf(),
                    i < self.chain.blocks@.len(),
                    txs@ == self.chain.blocks@[i as int].transactions@,
                    j <= txs@.len(),
                    full@.len() == j,
                    forall|q: int|
                        0 <= q < j ==> spec_tx_wire_of(
                            self.chain,
                            #[trigger] full@[q],
                            i as int,
                            q,
                        ),
                decreases txs@.len() - j,
            {
                full.push(localized_tx(&self.chain, i, j));
                j = j + 1;
            }
            BlockTransactions::Full(full)
        } else {
            let mut hashes: Vec<H256> = Vec::new();
            let mut j: usize = 0;
            while j < txs.len()
                invariant
                    self.wf(),
                    i < self.chain.blocks@.len(),
                    txs@ == self.chain.blocks@[i as int].transactions@,
                    j <= txs@.len(),
                    hashes@.len() == j,
                    forall|q: int|
                        0 <= q < j ==> #[trigger] hashes@[q]
                            == self.chain.blocks@[i as int].transactions@[q].hash,
                decreases txs@.len() - j,
            {
                hashes.push(txs[j].hash);
                j = j + 1;
            }
            BlockTransactions::Hashes(hashes)
        };
        Ok(
            Some(
                RichBlock {
                    hash: Some(self.chain.blocks[i].hash),
                    parent_hash: h.parent_hash,
                    author: h.author,
                    miner: h.author,
                    state_root: h.state_root,
                    transactions_root: h.transactions_root,
                    receipts_root: h.receipts_root,
                    number: Some(h.number),
                    gas_used: h.gas_used,
                    gas_limit: h.gas_limit,
                    timestamp: h.timestamp,
                    difficulty: h.difficulty,
                    uncles: Vec::new(),
                    transactions,
                },
            ),
        )
    }

    /// The block with the given hash, shaped for the wire.
    pub fn block_by_hash(&self, hash: H256, include_txs: bool) -> (r: Result<
        Option<RichBlock>,
        Error,
    >)
        requires
            self.wf(),
        ensures
            ({
                let k = ResolvedQueryKey::Hash(hash);
                match self.chain.spec_key_number(k) {
                    None => r == Ok::<Option<RichBlock>, Error>(None),
                    Some(i) => match spec_decode_header(self.chain.blocks@[i].encoded_header@) {
                        None => r == Err::<Option<RichBlock>, Error>(Error::Decode),
                        Some(h) => r matches Ok(ob) && ob matches Some(b) && spec_rich_block_of(
                            self.chain,
                            b,
                            i,
                            h,
                            include_txs,
                        ),
                    },
                }
            }),
    {
        self.rich_block(BlockNumberOrId::from(ResolvedQueryKey::Hash(hash)), include_txs)
    }

    /// The referenced block, shaped for the wire; `Pending` reads the
    /// latest block.
    pub fn block_by_number(&self, num: BlockReference, include_txs: bool) -> (r: Result<
        Option<RichBlock>,
        Error,
    >)
        requires
            self.wf(),
        ensures
            ({
                let k = spec_resolve(num);
                match self.chain.spec_key_number(k) {
                    None => r == Ok::<Option<RichBlock>, Error>(None),
                    Some(i) => match spec_decode_header(self.chain.blocks@[i].encoded_header@) {
                        None => r == Err::<Option<RichBlock>, Error>(Error::Decode),
                        Some(h) => r matches Ok(ob) && ob matches Some(b) && spec_rich_block_of(
                            self.chain,
                            b,
                            i,
                            h,
                            include_txs,
                        ),
                    },
                }
            }),
    {
        self.rich_block(BlockNumberOrId::from(num), include_txs)
    }

    /// What a transaction selector finds.
    pub open spec fn spec_transaction_found(self, id: PendingTransactionId) -> Option<(int, int)> {
        match id {
            PendingTransactionId::Hash(h) => crate::chain::spec_tx_location_from(
                self.chain.blocks@,
                h,
                0,
            ),
            PendingTransactionId::Location(PendingOrBlock::Block(k), idx) => match self
                .chain.spec_key_number(k) {
                Some(i) => if (idx as int) < self.chain.blocks@[i].transactions@.len() {
                    Some((i, idx as int))
                } else {
                    None
                },
                None => None,
            },
            PendingTransactionId::Location(PendingOrBlock::Pending, _) => None,
        }
    }

    /// Look a transaction up by hash or location; there are no pending
    /// blocks, so a pending location never finds anything.
    pub fn transaction(&self, id: PendingTransactionId) -> (r: Result<Option<Transaction>, Error>)
        requires
            self.wf(),
        ensures
            match self.spec_transaction_found(id) {
                Some(loc) => r matches Ok(ot) && ot matches Some(t) && spec_tx_wire_of(
                    self.chain,
                    t,
                    loc.0,
                    loc.1,
                ),
                None => r == Ok::<Option<Transaction>, Error>(None),
            },
    {
        match id {
            PendingTransactionId::Hash(h) => {
                match self.chain.find_transaction(h) {
                    Some((i, j)) => Ok(Some(localized_tx(&self.chain, i, j))),
                    None => Ok(None),
                }
            },
            PendingTransactionId::Location(PendingOrBlock::Block(k), idx) => {
                match self.chain.lookup_key(k) {
                    Some(i) => {
                        if idx < self.chain.blocks[i].transactions.len() {
                            Ok(Some(localized_tx(&self.chain, i, idx)))
                        } else {
                            Ok(None)
                        }
                    },
                    None => Ok(None),
                }
            },
            PendingTransactionId::Location(PendingOrBlock::Pending, _) => Ok(None),
        }
    }

    /// The transaction with the given hash, if the chain holds it.
    pub fn transaction_by_hash(&self, hash: H256) -> (r: Result<Option<Transaction>, Error>)
        requires
            self.wf(),
        ensures
            match self.spec_transaction_found(PendingTransactionId::Hash(hash)) {
                Some(loc) => r matches Ok(ot) && ot matches Some(t) && spec_tx_wire_of(
                    self.chain,
                    t,
                    loc.0,
                    loc.1,
                ),
                None => r == Ok::<Option<Transaction>, Error>(None),
            },
    {
        self.transaction(PendingTransactionId::Hash(hash))
    }

    /// The transaction at the given index of the block with the given
    /// hash.
    pub fn transaction_by_block_hash_and_index(&self, hash: H256, index: usize) -> (r: Result<
        Option<Transaction>,
        Error,
    >)
        requires
            self.wf(),
        ensures
            match self.spec_transaction_found(
                PendingTransactionId::Location(
                    PendingOrBlock::Block(ResolvedQueryKey::Hash(hash)),
                    index,
                ),
            ) {
                Some(loc) => r matches Ok(ot) && ot matches Some(t) && spec_tx_wire_of(
                    self.chain,
                    t,
                    loc.0,
                    loc.1,
                ),
                None => r == Ok::<Option<Transaction>, Error>(None),
            },
    {
        self.transaction(
            PendingTransactionId::Location(
                PendingOrBlock::Block(ResolvedQueryKey::Hash(hash)),
                index,
            ),
        )
    }

    /// The transaction at the given index of the referenced block. A
    /// `Pending` reference selects the pending block, which does not
    /// exist, so it never finds anything.
    pub fn transaction_by_block_number_and_index(&self, num: BlockReference, index: usize) -> (r:
        Result<Option<Transaction>, Error>)
        requires
            self.wf(),
        ensures
            ({
                let id = match num {
                    BlockReference::Pending => PendingTransactionId::Location(
                        PendingOrBlock::Pending,
                        index,
                    ),
                    _ => PendingTransactionId::Location(
                        PendingOrBlock::Block(spec_resolve(num)),
                        index,
                    ),
                };
                match self.spec_transaction_found(id) {
                    Some(loc) => r matches Ok(ot) && ot matches Some(t) && spec_tx_wire_of(
                        self.chain,
                        t,
                        loc.0,
                        loc.1,
                    ),
                    None => r == Ok::<Option<Transaction>, Error>(None),
                }
            }),
    {
        let id = match num {
            BlockReference::Pending => PendingTransactionId::Location(
                PendingOrBlock::Pending,
                index,
            ),
            _ => PendingTransactionId::Location(PendingOrBlock::Block(resolve(num)), index),
        };
        self.transaction(id)
    }

    /// The receipt of the transaction with the given hash.
    pub fn transaction_receipt(&self, hash: H256) -> (r: Result<Option<Receipt>, Error>)
        requires
            self.wf(),
        ensures
            match crate::chain::spec_tx_location_from(self.chain.blocks@, hash, 0) {
                Some(loc) => r matches Ok(orc) && orc matches Some(rc) && rc == (Receipt {
                    transaction_hash: self.chain.blocks@[loc.0].transactions@[loc.1].hash,
                    transaction_index: loc.1 as u64,
                    block_hash: self.chain.blocks@[loc.0].hash,
                    block_number: loc.0 as u64,
                    gas_used: self.chain.blocks@[loc.0].transactions@[loc.1].gas_used,
                }),
                None => r == Ok::<Option<Receipt>, Error>(None),
            },
    {
        match self.chain.find_transaction(hash) {
            Some((i, j)) => {
                let rec = &self.chain.blocks[i].transactions[j];
                Ok(
                    Some(
                        Receipt {
                            transaction_hash: rec.hash,
                            transaction_index: j as u64,
                            block_hash: self.chain.blocks[i].hash,
                            block_number: i as u64,
                            gas_used: rec.gas_used,
                        },
                    ),
                )
            },
            None => Ok(None),
        }
    }

    /// One-shot log query: resolve the filter's bounds as given (no
    /// clamping to any notified range), execute it, and apply the
    /// result-count limit. An unresolvable bound yields no results.
    pub fn logs(&self, filter: &LogFilter) -> (r: Vec<Log>)
        requires
            self.wf(),
        ensures
            ({
                let kf = self.chain.spec_key_number(spec_resolve(filter.from_block));
                let kt = self.chain.spec_key_number(spec_resolve(filter.to_block));
                match (kf, kt) {
                    (Some(a), Some(b)) => ({
                        let ps = spec_matches_in_range(self.chain, *filter, a, b + 1);
                        spec_wires_of(
                            self.chain,
                            r@,
                            ps.subrange(
                                ps.len() - spec_kept(ps.len() as int, filter.limit),
                                ps.len() as int,
                            ),
                        )
                    }),
                    _ => r@ == Seq::<Log>::empty(),
                }
            }),
    {
        let a = match self.chain.lookup_key(resolve(filter.from_block)) {
            Some(a) => a,
            None => {
                return Vec::new();
            },
        };
        let b = match self.chain.lookup_key(resolve(filter.to_block)) {
            Some(b) => b,
            None => {
                return Vec::new();
            },
        };
        let collected = query_logs(&self.chain, filter, a as u64, b as u64);
        let ghost ps = spec_matches_in_range(self.chain, *filter, a as int, b + 1);
        let ghost pre = collected@;
        let limited = limit_logs(collected, filter.limit);
        proof {
            let kept = spec_kept(ps.len() as int, filter.limit);
            assert(pre.len() == ps.len());
            assert(limited@ == pre.subrange(pre.len() - kept, pre.len() as int));
            let sub = ps.subrange(ps.len() - kept, ps.len() as int);
            assert forall|p: int| 0 <= p < sub.len() implies crate::filter::spec_wire_of(
                self.chain,
                limited@[p],
                (#[trigger] sub[p]).0,
                sub[p].1,
            ) by {
                assert(limited@[p] == pre[pre.len() - kept + p]);
                assert(sub[p] == ps[ps.len() - kept + p]);
            }
        }
        limited
    }

    /// What preparing a call against a reference fails with, if
    /// anything: the guard's error verbatim, then `StatePruned` when no
    /// state is materialized, then `Decode` when the stored header is
    /// corrupt.
    pub open spec fn spec_prepare_error(self, n: BlockReference) -> Option<Error> {
        match spec_ensure_known(self.chain, n) {
            Err(e) => Some(e),
            Ok(_) => {
                let k = spec_resolve(n);
                if self.chain.spec_state_at(k) is None {
                    Some(Error::StatePruned)
                } else {
                    match self.chain.spec_key_number(k) {
                        Some(i) => match spec_decode_header(
                            self.chain.blocks@[i].encoded_header@,
                        ) {
                            None => Some(Error::Decode),
                            Some(_) => None,
                        },
                        None => Some(Error::StatePruned),
                    }
                }
            },
        }
    }

    /// Prepare a call: consult the guard, acquire state and decoded
    /// header at the resolved key, and fake-sign the request. The guard
    /// is consulted first, so an unknown block is reported before any
    /// state acquisition is attempted.
    pub fn prepare_call(&self, meta: &Metadata, request: CallRequest, num: Option<BlockReference>)
        -> (r: Result<SignedCall, Error>)
        requires
            self.wf(),
        ensures
            ({
                let n = spec_or_latest(num);
                match self.spec_prepare_error(n) {
                    Some(e) => r == Err::<SignedCall, Error>(e),
                    None => r matches Ok(s) && spec_fake_signed(request, meta.origin_is_dapp, s),
                }
            }),
    {
        let signed = fake_sign_call(request, meta.is_dapp());
        let n = or_latest(num);
        match ensure_known(&self.chain, n) {
            Err(e) => {
                return Err(e);
            },
            Ok(_) => {},
        }
        let k = resolve(n);
        if !self.chain.has_state_at(k) {
            return Err(Error::StatePruned);
        }
        match self.chain.block_header(k) {
            None => Err(Error::StatePruned),
            Some(w) => {
                match decode_header(w) {
                    Err(e) => Err(e),
                    Ok(_) => Ok(signed),
                }
            },
        }
    }

    /// Map the execution engine's verdict on a prepared call to the
    /// wire result: a refusal is a `Call` error, a runtime exception is
    /// a `VM` error carrying the exception message and the raw output,
    /// and a clean run returns the raw output bytes.
    pub fn interpret_call_outcome(&self, outcome: CallOutcome) -> (r: Result<Vec<u8>, Error>)
        ensures
            match outcome {
                CallOutcome::Failure(m) => r matches Err(e) && e matches Error::Call(mm) && mm@
                    == m@,
                CallOutcome::Executed { exception, output } => match exception {
                    Some(ex) => r matches Err(e) && e matches Error::Vm(mm, out) && mm@ == ex@
                        && out@ == output@,
                    None => r matches Ok(o) && o@ == output@,
                },
            },
    {
        match outcome {
            CallOutcome::Failure(m) => Err(Error::Call(m)),
            CallOutcome::Executed { exception, output } => match exception {
                Some(ex) => Err(Error::Vm(ex, output)),
                None => Ok(output),
            },
        }
    }

    /// Execute a call at a block reference. Preparation errors come
    /// first — in particular a block the guard reports unknown returns
    /// `UnknownBlock` whatever the engine's verdict — and otherwise the
    /// verdict is mapped as `interpret_call_outcome` states.
    pub fn call(
        &self,
        meta: &Metadata,
        request: CallRequest,
        num: Option<BlockReference>,
        outcome: CallOutcome,
    ) -> (r: Result<Vec<u8>, Error>)
        requires
            self.wf(),
        ensures
            ({
                let n = spec_or_latest(num);
                match self.spec_prepare_error(n) {
                    Some(e) => r == Err::<Vec<u8>, Error>(e),
                    None => match outcome {
                        CallOutcome::Failure(m) => r matches Err(e) && e matches Error::Call(mm)
                            && mm@ == m@,
                        CallOutcome::Executed { exception, output } => match exception {
                            Some(ex) => r matches Err(e) && e matches Error::Vm(mm, out) && mm@
                                == ex@ && out@ == output@,
                            None => r matches Ok(o) && o@ == output@,
                        },
                    },
                }
            }),
    {
        match self.prepare_call(meta, request, num) {
            Err(e) => Err(e),
            Ok(_signed) => self.interpret_call_outcome(outcome),
        }
    }

    /// Estimate the gas of a call at a block reference: identical
    /// resolution, guard and state/header acquisition as `call`; the
    /// estimation routine's verdict is returned unchanged, its failure
    /// as a `Call` error.
    pub fn estimate_gas(
        &self,
        meta: &Metadata,
        request: CallRequest,
        num: Option<BlockReference>,
        outcome: EstimateOutcome,
    ) -> (r: Result<U256, Error>)
        requires
            self.wf(),
        ensures
            ({
                let n = spec_or_latest(num);
                match self.spec_prepare_error(n) {
                    Some(e) => r == Err::<U256, Error>(e),
                    None => match outcome {
                        EstimateOutcome::Estimated(g) => r == Ok::<U256, Error>(
                            U256::spec_from_u64(g),
                        ),
                        EstimateOutcome::Failed(m) => r matches Err(e) && e matches Error::Call(mm)
                            && mm@ == m@,
                    },
                }
            }),
    {
        match self.prepare_call(meta, request, num) {
            Err(e) => Err(e),
            Ok(_signed) => {
                match outcome {
                    EstimateOutcome::Estimated(g) => Ok(U256::from_u64(g)),
                    EstimateOutcome::Failed(m) => Err(Error::Call(m)),
                }
            },
        }
    }
}

} // verus!
