use web3_gateway::block_ref::BlockReference;
use web3_gateway::chain::{BlockRecord, Chain, LogRecord};
use web3_gateway::errors::Error;
use web3_gateway::eth::{EthClient, Metadata, SubmitOutcome};
use web3_gateway::filter::LogFilter;
use web3_gateway::header::{encode_header, HeaderRecord};
use web3_gateway::pubsub::{
    ChainNotification, EthPubSubClient, Params, SubscribeOutcome, SubscriptionKind,
};
use web3_gateway::types::{H160, H256};

fn h256(n: u64) -> H256 {
    H256 { w0: 0, w1: 0, w2: 0, w3: n }
}

fn h160(n: u64) -> H160 {
    H160 { hi: 0, mid: 0, lo: n as u32 }
}

fn header(number: u64) -> HeaderRecord {
    HeaderRecord {
        number,
        timestamp: 1000 + number,
        gas_limit: 8_000_000,
        gas_used: 0,
        difficulty: 0,
        parent_hash: h256(number),
        author: h160(7),
        state_root: h256(100 + number),
        transactions_root: h256(200 + number),
        receipts_root: h256(300 + number),
    }
}

fn block(number: u64, logs: Vec<LogRecord>) -> BlockRecord {
    BlockRecord {
        hash: h256(10_000 + number),
        encoded_header: encode_header(&header(number)),
        transactions: Vec::new(),
        logs,
        state: None,
    }
}

fn meta() -> Metadata {
    Metadata { origin_is_dapp: false }
}

fn open_filter() -> LogFilter {
    LogFilter {
        from_block: BlockReference::Latest,
        to_block: BlockReference::Latest,
        addresses: Vec::new(),
        topics: Vec::new(),
        limit: None,
    }
}

/// Blocks 0..=105; a log in block 50 and one in each of 100..=105.
fn tall_chain() -> Chain {
    let mut blocks = Vec::new();
    for n in 0..=105u64 {
        let logs = if n == 50 || n >= 100 {
            vec![LogRecord { address: h160(1), topics: vec![h256(42)], data: vec![] }]
        } else {
            Vec::new()
        };
        blocks.push(block(n, logs));
    }
    Chain { blocks }
}

#[test]
fn new_heads_with_parameters_is_rejected_and_registers_nothing() {
    let mut ps = EthPubSubClient::new();
    let r = ps.subscribe(meta(), 1, SubscriptionKind::NewHeads, Some(Params::Empty));
    match r {
        SubscribeOutcome::Rejected(Error::InvalidParams(p, d)) => {
            assert_eq!(p, "newHeads");
            assert_eq!(d, "Expected no parameters.");
        }
        other => panic!("expected invalid params, got {:?}", other),
    }
    // nothing was registered: a later notification delivers nothing
    let deliveries = ps.handler().notify_heads(&vec![header(1)]);
    assert!(deliveries.is_empty());
    assert!(!ps.handler().has_heads_subscribers());
}

#[test]
fn logs_without_a_filter_is_rejected() {
    let mut ps = EthPubSubClient::new();
    match ps.subscribe(meta(), 1, SubscriptionKind::Logs, None) {
        SubscribeOutcome::Rejected(Error::InvalidParams(p, d)) => {
            assert_eq!(p, "logs");
            assert_eq!(d, "Expected a filter object.");
        }
        other => panic!("expected invalid params, got {:?}", other),
    }
    match ps.subscribe(meta(), 1, SubscriptionKind::Logs, Some(Params::Empty)) {
        SubscribeOutcome::Rejected(Error::InvalidParams(p, _)) => assert_eq!(p, "logs"),
        other => panic!("expected invalid params, got {:?}", other),
    }
}

#[test]
fn pending_transactions_are_acknowledged_but_never_registered() {
    let mut ps = EthPubSubClient::new();
    assert!(matches!(
        ps.subscribe(meta(), 1, SubscriptionKind::NewPendingTransactions, None),
        SubscribeOutcome::Accepted
    ));
    // no id was issued: the counter still starts at zero
    match ps.subscribe(meta(), 2, SubscriptionKind::NewHeads, None) {
        SubscribeOutcome::Subscribed(id) => assert_eq!(id, 0),
        other => panic!("expected a subscription, got {:?}", other),
    }
    match ps.subscribe(meta(), 3, SubscriptionKind::NewPendingTransactions, Some(Params::Empty)) {
        SubscribeOutcome::Rejected(Error::InvalidParams(p, _)) => {
            assert_eq!(p, "newPendingTransactions")
        }
        other => panic!("expected invalid params, got {:?}", other),
    }
}

#[test]
fn other_kinds_are_unimplemented() {
    let mut ps = EthPubSubClient::new();
    assert!(matches!(
        ps.subscribe(meta(), 1, SubscriptionKind::Syncing, None),
        SubscribeOutcome::Rejected(Error::Unimplemented)
    ));
}

#[test]
fn unsubscribe_of_an_unknown_id_reports_not_found() {
    let mut ps = EthPubSubClient::new();
    assert_eq!(ps.unsubscribe(7), Ok(false));
    let id = match ps.subscribe(meta(), 1, SubscriptionKind::NewHeads, None) {
        SubscribeOutcome::Subscribed(id) => id,
        other => panic!("expected a subscription, got {:?}", other),
    };
    assert_eq!(ps.unsubscribe(id + 1), Ok(false));
    assert_eq!(ps.unsubscribe(id), Ok(true));
    assert_eq!(ps.unsubscribe(id), Ok(false));
}

#[test]
fn head_subscription_lifecycle() {
    // subscribe, receive exactly one zero-filled header event for one
    // appended block, unsubscribe, then receive nothing further
    let mut ps = EthPubSubClient::new();
    let s1 = match ps.subscribe(meta(), 11, SubscriptionKind::NewHeads, None) {
        SubscribeOutcome::Subscribed(id) => id,
        other => panic!("expected a subscription, got {:?}", other),
    };
    assert!(ps.handler().has_heads_subscribers());

    let appended = vec![header(42)];
    let deliveries = ps.handler().notify_heads(&appended);
    assert_eq!(deliveries.len(), 1);
    assert_eq!(deliveries[0].sink, 11);
    assert_eq!(deliveries[0].header.header, header(42));
    assert_eq!(deliveries[0].header.mix_hash, H256::zero());
    assert_eq!(deliveries[0].header.nonce, 0);

    assert_eq!(ps.unsubscribe(s1), Ok(true));
    assert!(!ps.handler().has_heads_subscribers());
    let deliveries = ps.handler().notify_heads(&vec![header(43)]);
    assert!(deliveries.is_empty());
}

#[test]
fn heads_fan_out_in_block_order_per_subscriber() {
    let mut ps = EthPubSubClient::new();
    ps.subscribe(meta(), 21, SubscriptionKind::NewHeads, None);
    ps.subscribe(meta(), 22, SubscriptionKind::NewHeads, None);
    let deliveries = ps.handler().notify_heads(&vec![header(5), header(6)]);
    assert_eq!(deliveries.len(), 4);
    assert_eq!(deliveries[0].sink, 21);
    assert_eq!(deliveries[0].header.header.number, 5);
    assert_eq!(deliveries[1].sink, 21);
    assert_eq!(deliveries[1].header.header.number, 6);
    assert_eq!(deliveries[2].sink, 22);
    assert_eq!(deliveries[2].header.header.number, 5);
    assert_eq!(deliveries[3].sink, 22);
    assert_eq!(deliveries[3].header.header.number, 6);
}

#[test]
fn latest_bound_is_clamped_to_the_notified_range() {
    // a subscriber with from_block = Latest, never explicitly bounded
    // below, receives only matching logs within the notified [100, 105]
    let chain = tall_chain();
    let mut ps = EthPubSubClient::new();
    ps.subscribe(meta(), 31, SubscriptionKind::Logs, Some(Params::Logs(open_filter())));
    let deliveries = ps.handler().notify_logs(&chain, 100, 105);
    assert_eq!(deliveries.len(), 6);
    for (k, d) in deliveries.iter().enumerate() {
        assert_eq!(d.sink, 31);
        assert_eq!(d.log.block_number, 100 + k as u64);
        assert_eq!(d.log.topics, vec![h256(42)]);
    }
}

#[test]
fn clamping_never_widens_a_concrete_bound() {
    // a filter configured with from_block = Number(50) on a
    // notification spanning [100, 105] has an effective lower bound of
    // 100: the log in block 50 is not delivered
    let chain = tall_chain();
    let mut ps = EthPubSubClient::new();
    let mut f = open_filter();
    f.from_block = BlockReference::Number(50);
    ps.subscribe(meta(), 41, SubscriptionKind::Logs, Some(Params::Logs(f)));
    let deliveries = ps.handler().notify_logs(&chain, 100, 105);
    assert_eq!(deliveries.len(), 6);
    assert_eq!(deliveries[0].log.block_number, 100);
    assert!(deliveries.iter().all(|d| d.log.block_number >= 100));
}

#[test]
fn stored_bounds_inside_the_notified_range_are_kept() {
    let chain = tall_chain();
    let mut ps = EthPubSubClient::new();
    let mut f = open_filter();
    f.from_block = BlockReference::Number(102);
    f.to_block = BlockReference::Number(104);
    ps.subscribe(meta(), 51, SubscriptionKind::Logs, Some(Params::Logs(f)));
    let deliveries = ps.handler().notify_logs(&chain, 100, 105);
    assert_eq!(deliveries.len(), 3);
    assert_eq!(deliveries[0].log.block_number, 102);
    assert_eq!(deliveries[2].log.block_number, 104);
}

#[test]
fn non_matching_filters_receive_zero_pushes() {
    let chain = tall_chain();
    let mut ps = EthPubSubClient::new();
    let mut f = open_filter();
    f.addresses = vec![h160(99)];
    ps.subscribe(meta(), 61, SubscriptionKind::Logs, Some(Params::Logs(f)));
    let deliveries = ps.handler().notify_logs(&chain, 100, 105);
    assert!(deliveries.is_empty());
}

#[test]
fn dispatch_serves_both_kinds() {
    let chain = tall_chain();
    let mut ps = EthPubSubClient::new();
    ps.subscribe(meta(), 71, SubscriptionKind::NewHeads, None);
    ps.subscribe(meta(), 72, SubscriptionKind::Logs, Some(Params::Logs(open_filter())));
    let n = ChainNotification {
        new_headers: vec![header(105)],
        from_block: 105,
        to_block: 105,
    };
    let (heads, logs) = ps.handler().dispatch(&chain, &n);
    assert_eq!(heads.len(), 1);
    assert_eq!(heads[0].sink, 71);
    assert_eq!(heads[0].header.header.number, 105);
    assert_eq!(logs.len(), 1);
    assert_eq!(logs[0].sink, 72);
    assert_eq!(logs[0].log.block_number, 105);
}

#[test]
fn failed_raw_submission_leaves_subscribers_untouched() {
    // a malformed raw transaction surfaces as a Call error and mutates
    // no subscriber state
    let chain = tall_chain();
    let mut ps = EthPubSubClient::new();
    let s1 = match ps.subscribe(meta(), 81, SubscriptionKind::NewHeads, None) {
        SubscribeOutcome::Subscribed(id) => id,
        other => panic!("expected a subscription, got {:?}", other),
    };
    let client = EthClient::new(chain);
    match client.send_raw_transaction(SubmitOutcome::Rejected("malformed bytes".to_string())) {
        Err(Error::Call(m)) => assert_eq!(m, "malformed bytes"),
        other => panic!("expected a call error, got {:?}", other),
    }
    // the head subscriber is still registered
    assert!(ps.handler().has_heads_subscribers());
    assert_eq!(ps.unsubscribe(s1), Ok(true));
}
