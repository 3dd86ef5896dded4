use web3_gateway::block_ref::{BlockReference, ResolvedQueryKey};
use web3_gateway::eth::{PendingOrBlock, PendingUncleId};
use web3_gateway::chain::{
    AccountRecord, BlockRecord, Chain, LogRecord, StateRecord, StorageEntry, TxRecord,
};
use web3_gateway::errors::Error;
use web3_gateway::eth::{ensure_known, EthClient, Metadata};
use web3_gateway::filter::{LogFilter, TopicPattern};
use web3_gateway::header::{encode_header, HeaderRecord};
use web3_gateway::types::{H160, H256, U256};
use web3_gateway::wire::{BlockTransactions, SyncStatus};

fn h256(n: u64) -> H256 {
    H256 { w0: 0, w1: 0, w2: 0, w3: n }
}

fn h160(n: u64) -> H160 {
    H160 { hi: 0, mid: 0, lo: n as u32 }
}

fn header(number: u64) -> HeaderRecord {
    HeaderRecord {
        number,
        timestamp: 1000 + number,
        gas_limit: 8_000_000,
        gas_used: 21_000,
        difficulty: 0,
        parent_hash: h256(1000 + number),
        author: h160(7),
        state_root: h256(2000 + number),
        transactions_root: h256(3000 + number),
        receipts_root: h256(4000 + number),
    }
}

fn block(number: u64, state: Option<StateRecord>) -> BlockRecord {
    BlockRecord {
        hash: h256(10_000 + number),
        encoded_header: encode_header(&header(number)),
        transactions: Vec::new(),
        logs: Vec::new(),
        state,
    }
}

fn account(addr: H160, balance: u64, nonce: u64) -> AccountRecord {
    AccountRecord {
        address: addr,
        balance: U256::from_u64(balance),
        nonce,
        code: vec![0x60, 0x60],
        storage: vec![StorageEntry { slot: U256::from_u64(1), value: h256(77) }],
    }
}

/// Genesis plus two blocks; block 1 has its state pruned.
fn three_block_chain() -> Chain {
    let addr = h160(5);
    Chain {
        blocks: vec![
            block(0, Some(StateRecord { accounts: vec![account(addr, 10, 1)] })),
            block(1, None),
            block(2, Some(StateRecord { accounts: vec![account(addr, 30, 3)] })),
        ],
    }
}

#[test]
fn guard_accepts_pending_always() {
    let chain = three_block_chain();
    assert_eq!(ensure_known(&chain, BlockReference::Pending), Ok(()));
    // even a chain of only the genesis block accepts pending
    let tiny = Chain { blocks: vec![block(0, None)] };
    assert_eq!(ensure_known(&tiny, BlockReference::Pending), Ok(()));
}

#[test]
fn guard_rejects_unknown_number_and_hash() {
    let chain = three_block_chain();
    assert_eq!(ensure_known(&chain, BlockReference::Number(3)), Err(Error::UnknownBlock));
    assert_eq!(ensure_known(&chain, BlockReference::Hash(h256(1))), Err(Error::UnknownBlock));
    assert_eq!(ensure_known(&chain, BlockReference::Number(2)), Ok(()));
    assert_eq!(ensure_known(&chain, BlockReference::Latest), Ok(()));
    assert_eq!(ensure_known(&chain, BlockReference::Earliest), Ok(()));
}

#[test]
fn balance_reads_state_and_reports_pruning() {
    let client = EthClient::new(three_block_chain());
    let addr = h160(5);
    assert_eq!(client.balance(addr, Some(BlockReference::Number(0))), Ok(U256::from_u64(10)));
    assert_eq!(client.balance(addr, None), Ok(U256::from_u64(30)));
    assert_eq!(client.balance(addr, Some(BlockReference::Pending)), Ok(U256::from_u64(30)));
    assert_eq!(
        client.balance(addr, Some(BlockReference::Number(1))),
        Err(Error::StatePruned)
    );
    assert_eq!(
        client.balance(addr, Some(BlockReference::Number(9))),
        Err(Error::UnknownBlock)
    );
    // an address absent from the state reads as zero
    assert_eq!(client.balance(h160(99), None), Ok(U256::zero()));
}

#[test]
fn storage_at_reads_slots() {
    let client = EthClient::new(three_block_chain());
    let addr = h160(5);
    assert_eq!(
        client.storage_at(addr, U256::from_u64(1), None),
        Ok(h256(77))
    );
    assert_eq!(
        client.storage_at(addr, U256::from_u64(2), None),
        Ok(H256::zero())
    );
    assert_eq!(
        client.storage_at(addr, U256::from_u64(1), Some(BlockReference::Number(1))),
        Err(Error::StatePruned)
    );
}

#[test]
fn transaction_count_pending_reads_latest_without_guard() {
    let client = EthClient::new(three_block_chain());
    let addr = h160(5);
    assert_eq!(
        client.transaction_count(addr, Some(BlockReference::Pending)),
        Ok(U256::from_u64(3))
    );
    assert_eq!(
        client.transaction_count(addr, Some(BlockReference::Number(0))),
        Ok(U256::from_u64(1))
    );
    assert_eq!(
        client.transaction_count(addr, Some(BlockReference::Number(1))),
        Err(Error::StatePruned)
    );
}

#[test]
fn transaction_count_pending_missing_state_is_database_error() {
    // the tip has no materialized state: pending nonce is a fatal
    // database inconsistency, not pruning
    let chain = Chain {
        blocks: vec![
            block(0, Some(StateRecord { accounts: vec![] })),
            block(1, None),
        ],
    };
    let client = EthClient::new(chain);
    match client.transaction_count(h160(5), Some(BlockReference::Pending)) {
        Err(Error::Database(m)) => assert_eq!(m, "latest nonce missing"),
        other => panic!("expected a database error, got {:?}", other),
    }
    // the same chain answers StatePruned for an explicit Latest
    assert_eq!(
        client.transaction_count(h160(5), Some(BlockReference::Latest)),
        Err(Error::StatePruned)
    );
}

#[test]
fn code_at_reads_code() {
    let client = EthClient::new(three_block_chain());
    assert_eq!(client.code_at(h160(5), None), Ok(vec![0x60, 0x60]));
    assert_eq!(client.code_at(h160(99), None), Ok(Vec::new()));
    assert_eq!(
        client.code_at(h160(5), Some(BlockReference::Number(1))),
        Err(Error::StatePruned)
    );
}

#[test]
fn fixed_protocol_answers() {
    let client = EthClient::new(three_block_chain());
    assert_eq!(client.protocol_version(), Ok("63".to_string()));
    assert_eq!(client.syncing(), Ok(SyncStatus::NotSyncing));
    assert_eq!(client.author(Metadata { origin_is_dapp: false }), Ok(H160::zero()));
    assert_eq!(client.is_mining(), Ok(true));
    assert_eq!(client.hashrate(), Ok(U256::zero()));
    assert_eq!(client.gas_price(), Ok(U256::zero()));
    assert_eq!(client.accounts(Metadata { origin_is_dapp: false }), Ok(Vec::new()));
    assert_eq!(client.block_number(), Ok(U256::from_u64(2)));
}

#[test]
fn uncles_are_always_absent() {
    let client = EthClient::new(three_block_chain());
    assert!(client
        .uncle(PendingUncleId { id: PendingOrBlock::Block(ResolvedQueryKey::Latest), position: 0 })
        .unwrap()
        .is_none());
    assert!(client
        .uncle(PendingUncleId { id: PendingOrBlock::Pending, position: 0 })
        .unwrap()
        .is_none());
    assert_eq!(client.block_uncles_count_by_hash(h256(10_000)), Some(U256::zero()));
    assert_eq!(client.block_uncles_count_by_number(BlockReference::Latest), Some(U256::zero()));
    assert!(client.uncle_by_block_hash_and_index(h256(10_000), 0).is_none());
    assert!(client
        .uncle_by_block_number_and_index(BlockReference::Latest, 0)
        .is_none());
}

#[test]
fn mining_surface_is_unimplemented() {
    let client = EthClient::new(three_block_chain());
    assert_eq!(client.work(None), Err(Error::Unimplemented));
    assert_eq!(client.submit_work(0, h256(1), h256(2)), Err(Error::Unimplemented));
    assert_eq!(client.submit_hashrate(U256::zero(), h256(3)), Err(Error::Unimplemented));
}

#[test]
fn compilation_surface_is_deprecated() {
    let client = EthClient::new(three_block_chain());
    match client.compilers() {
        Err(Error::Deprecated(m)) => assert_eq!(m, "Compilation functionality is deprecated."),
        other => panic!("unexpected {:?}", other),
    }
    match client.compile_lll(String::new()) {
        Err(Error::Deprecated(m)) => assert_eq!(m, "Compilation of LLL via RPC is deprecated"),
        other => panic!("unexpected {:?}", other),
    }
    match client.compile_serpent(String::new()) {
        Err(Error::Deprecated(m)) => {
            assert_eq!(m, "Compilation of Serpent via RPC is deprecated")
        }
        other => panic!("unexpected {:?}", other),
    }
    match client.compile_solidity(String::new()) {
        Err(Error::Deprecated(m)) => {
            assert_eq!(m, "Compilation of Solidity via RPC is deprecated")
        }
        other => panic!("unexpected {:?}", other),
    }
}

fn tx(hashn: u64, nonce: u64) -> TxRecord {
    TxRecord {
        hash: h256(hashn),
        from: h160(5),
        to: Some(h160(6)),
        value: U256::from_u64(1000),
        input: vec![1, 2, 3],
        nonce,
        gas: 90_000,
        gas_price: 2,
        gas_used: 21_000,
    }
}

fn chain_with_txs() -> Chain {
    let mut b1 = block(1, None);
    b1.transactions = vec![tx(501, 0), tx(502, 1)];
    Chain { blocks: vec![block(0, None), b1] }
}

#[test]
fn blocks_are_shaped_for_the_wire() {
    let client = EthClient::new(chain_with_txs());
    let b = client
        .block_by_number(BlockReference::Number(1), false)
        .unwrap()
        .unwrap();
    assert_eq!(b.hash, Some(h256(10_001)));
    assert_eq!(b.number, Some(1));
    assert_eq!(b.parent_hash, h256(1001));
    assert_eq!(b.author, h160(7));
    assert_eq!(b.miner, h160(7));
    assert_eq!(b.gas_limit, 8_000_000);
    assert_eq!(b.gas_used, 21_000);
    assert_eq!(b.timestamp, 1001);
    assert!(b.uncles.is_empty());
    match b.transactions {
        BlockTransactions::Hashes(hs) => assert_eq!(hs, vec![h256(501), h256(502)]),
        BlockTransactions::Full(_) => panic!("expected hashes only"),
    }

    let full = client.block_by_hash(h256(10_001), true).unwrap().unwrap();
    match full.transactions {
        BlockTransactions::Full(txs) => {
            assert_eq!(txs.len(), 2);
            assert_eq!(txs[0].hash, h256(501));
            assert_eq!(txs[0].block_number, Some(1));
            assert_eq!(txs[0].transaction_index, Some(0));
            assert_eq!(txs[1].hash, h256(502));
            assert_eq!(txs[1].transaction_index, Some(1));
        }
        BlockTransactions::Hashes(_) => panic!("expected full transactions"),
    }

    assert!(client.block_by_hash(h256(404), false).unwrap().is_none());
    // pending reads the latest block
    let p = client.block_by_number(BlockReference::Pending, false).unwrap().unwrap();
    assert_eq!(p.number, Some(1));
}

#[test]
fn corrupt_header_is_a_decode_error() {
    let mut chain = chain_with_txs();
    chain.blocks[1].encoded_header = vec![1, 2];
    let client = EthClient::new(chain);
    assert!(matches!(
        client.block_by_number(BlockReference::Number(1), false),
        Err(Error::Decode)
    ));
}

#[test]
fn transactions_are_found_by_hash_and_location() {
    let client = EthClient::new(chain_with_txs());
    let t = client.transaction_by_hash(h256(502)).unwrap().unwrap();
    assert_eq!(t.nonce, 1);
    assert_eq!(t.block_hash, Some(h256(10_001)));
    assert_eq!(t.block_number, Some(1));
    assert_eq!(t.transaction_index, Some(1));
    assert_eq!(t.from, h160(5));
    assert_eq!(t.to, Some(h160(6)));
    assert_eq!(t.input, vec![1, 2, 3]);
    assert!(client.transaction_by_hash(h256(404)).unwrap().is_none());

    let t2 = client
        .transaction_by_block_hash_and_index(h256(10_001), 0)
        .unwrap()
        .unwrap();
    assert_eq!(t2.hash, h256(501));
    assert!(client
        .transaction_by_block_hash_and_index(h256(10_001), 2)
        .unwrap()
        .is_none());

    let t3 = client
        .transaction_by_block_number_and_index(BlockReference::Number(1), 1)
        .unwrap()
        .unwrap();
    assert_eq!(t3.hash, h256(502));
    // there is no pending block, so a pending location finds nothing
    assert!(client
        .transaction_by_block_number_and_index(BlockReference::Pending, 0)
        .unwrap()
        .is_none());
}

#[test]
fn receipts_carry_the_location() {
    let client = EthClient::new(chain_with_txs());
    let r = client.transaction_receipt(h256(501)).unwrap().unwrap();
    assert_eq!(r.transaction_hash, h256(501));
    assert_eq!(r.transaction_index, 0);
    assert_eq!(r.block_hash, h256(10_001));
    assert_eq!(r.block_number, 1);
    assert_eq!(r.gas_used, 21_000);
    assert!(client.transaction_receipt(h256(404)).unwrap().is_none());
}

#[test]
fn block_transaction_counts() {
    let client = EthClient::new(chain_with_txs());
    assert_eq!(
        client.block_transaction_count_by_hash(h256(10_001)),
        Some(U256::from_u64(2))
    );
    assert_eq!(client.block_transaction_count_by_hash(h256(404)), None);
    assert_eq!(
        client.block_transaction_count_by_number(BlockReference::Number(0)),
        Some(U256::from_u64(0))
    );
    assert_eq!(
        client.block_transaction_count_by_number(BlockReference::Number(9)),
        None
    );
}

fn log(addr: H160, topicn: u64) -> LogRecord {
    LogRecord { address: addr, topics: vec![h256(topicn)], data: vec![9] }
}

#[test]
fn one_shot_logs_resolve_bounds_as_given_and_limit_keeps_the_tail() {
    let mut b0 = block(0, None);
    b0.logs = vec![log(h160(1), 11)];
    let mut b1 = block(1, None);
    b1.logs = vec![log(h160(1), 11), log(h160(2), 11)];
    let mut b2 = block(2, None);
    b2.logs = vec![log(h160(1), 12)];
    let client = EthClient::new(Chain { blocks: vec![b0, b1, b2] });

    let all = LogFilter {
        from_block: BlockReference::Earliest,
        to_block: BlockReference::Latest,
        addresses: Vec::new(),
        topics: Vec::new(),
        limit: None,
    };
    let got = client.logs(&all);
    assert_eq!(got.len(), 4);
    assert_eq!(got[0].block_number, 0);
    assert_eq!(got[3].block_number, 2);
    assert_eq!(got[3].block_hash, h256(10_002));

    // address and topic matching
    let narrowed = LogFilter {
        from_block: BlockReference::Earliest,
        to_block: BlockReference::Latest,
        addresses: vec![h160(1)],
        topics: vec![TopicPattern::OneOf(vec![h256(11)])],
        limit: None,
    };
    let got = client.logs(&narrowed);
    assert_eq!(got.len(), 2);
    assert_eq!(got[0].block_number, 0);
    assert_eq!(got[1].block_number, 1);

    // the limit keeps the newest results (the tail)
    let limited = LogFilter { limit: Some(2), ..all };
    let got = client.logs(&limited);
    assert_eq!(got.len(), 2);
    assert_eq!(got[0].block_number, 1);
    assert_eq!(got[0].address, h160(2));
    assert_eq!(got[1].block_number, 2);

    // an unresolvable bound yields nothing
    let unknown = LogFilter {
        from_block: BlockReference::Number(9),
        to_block: BlockReference::Latest,
        addresses: Vec::new(),
        topics: Vec::new(),
        limit: None,
    };
    assert!(client.logs(&unknown).is_empty());
}

#[test]
fn topic_patterns_respect_positions() {
    let mut b0 = block(0, None);
    b0.logs = vec![
        LogRecord { address: h160(1), topics: vec![h256(1), h256(2)], data: vec![] },
        LogRecord { address: h160(1), topics: vec![h256(1)], data: vec![] },
    ];
    let client = EthClient::new(Chain { blocks: vec![b0] });
    // a pattern at position 1 needs a second topic
    let f = LogFilter {
        from_block: BlockReference::Earliest,
        to_block: BlockReference::Latest,
        addresses: Vec::new(),
        topics: vec![TopicPattern::MatchAny, TopicPattern::OneOf(vec![h256(2)])],
        limit: None,
    };
    let got = client.logs(&f);
    assert_eq!(got.len(), 1);
    assert_eq!(got[0].topics, vec![h256(1), h256(2)]);
}
