use web3_gateway::block_ref::BlockReference;
use web3_gateway::chain::{BlockRecord, Chain, StateRecord};
use web3_gateway::errors::Error;
use web3_gateway::eth::{
    fake_sign_call, CallOutcome, CallRequest, EstimateOutcome, EthClient, Metadata, SubmitOutcome,
    CALL_GAS_CAP,
};
use web3_gateway::header::{encode_header, HeaderRecord};
use web3_gateway::types::{H160, H256, U256};

fn h256(n: u64) -> H256 {
    H256 { w0: 0, w1: 0, w2: 0, w3: n }
}

fn h160(n: u64) -> H160 {
    H160 { hi: 0, mid: 0, lo: n as u32 }
}

fn header(number: u64) -> HeaderRecord {
    HeaderRecord {
        number,
        timestamp: 1000 + number,
        gas_limit: 8_000_000,
        gas_used: 0,
        difficulty: 0,
        parent_hash: h256(number),
        author: h160(7),
        state_root: h256(100 + number),
        transactions_root: h256(200 + number),
        receipts_root: h256(300 + number),
    }
}

fn block(number: u64, state: Option<StateRecord>) -> BlockRecord {
    BlockRecord {
        hash: h256(10_000 + number),
        encoded_header: encode_header(&header(number)),
        transactions: Vec::new(),
        logs: Vec::new(),
        state,
    }
}

fn chain() -> Chain {
    Chain {
        blocks: vec![
            block(0, Some(StateRecord { accounts: vec![] })),
            block(1, None),
            block(2, Some(StateRecord { accounts: vec![] })),
        ],
    }
}

fn empty_request() -> CallRequest {
    CallRequest {
        from: None,
        to: Some(h160(6)),
        gas_price: None,
        gas: None,
        value: None,
        data: None,
        nonce: None,
    }
}

fn meta() -> Metadata {
    Metadata { origin_is_dapp: false }
}

#[test]
fn fake_sign_fills_placeholders() {
    let s = fake_sign_call(empty_request(), true);
    assert_eq!(s.from, H160::zero());
    assert_eq!(s.to, Some(h160(6)));
    assert_eq!(s.gas_price, 0);
    assert_eq!(s.gas, CALL_GAS_CAP);
    assert_eq!(s.value, U256::zero());
    assert!(s.data.is_empty());
    assert_eq!(s.nonce, 0);
    // without the dapp gas cap the default gas is unbounded
    let s = fake_sign_call(empty_request(), false);
    assert_eq!(s.gas, u64::MAX);
    // explicit fields pass through
    let req = CallRequest {
        from: Some(h160(4)),
        to: None,
        gas_price: Some(3),
        gas: Some(55),
        value: Some(U256::from_u64(9)),
        data: Some(vec![0xaa]),
        nonce: Some(2),
    };
    let s = fake_sign_call(req, true);
    assert_eq!(s.from, h160(4));
    assert_eq!(s.to, None);
    assert_eq!(s.gas_price, 3);
    assert_eq!(s.gas, 55);
    assert_eq!(s.value, U256::from_u64(9));
    assert_eq!(s.data, vec![0xaa]);
    assert_eq!(s.nonce, 2);
}

#[test]
fn call_unknown_block_wins_over_any_outcome() {
    let client = EthClient::new(chain());
    let ok_outcome = CallOutcome::Executed { exception: None, output: vec![1] };
    let r = client.call(&meta(), empty_request(), Some(BlockReference::Number(9)), ok_outcome);
    assert_eq!(r, Err(Error::UnknownBlock));
}

#[test]
fn call_pruned_state_is_reported() {
    let client = EthClient::new(chain());
    let ok_outcome = CallOutcome::Executed { exception: None, output: vec![1] };
    let r = client.call(&meta(), empty_request(), Some(BlockReference::Number(1)), ok_outcome);
    assert_eq!(r, Err(Error::StatePruned));
}

#[test]
fn call_corrupt_header_is_a_decode_error() {
    let mut c = chain();
    c.blocks[2].encoded_header = vec![0; 3];
    let client = EthClient::new(c);
    let ok_outcome = CallOutcome::Executed { exception: None, output: vec![1] };
    let r = client.call(&meta(), empty_request(), None, ok_outcome);
    assert_eq!(r, Err(Error::Decode));
}

#[test]
fn call_maps_the_engine_verdict() {
    let client = EthClient::new(chain());
    let r = client.call(
        &meta(),
        empty_request(),
        None,
        CallOutcome::Executed { exception: None, output: vec![0xca, 0xfe] },
    );
    assert_eq!(r, Ok(vec![0xca, 0xfe]));

    let r = client.call(
        &meta(),
        empty_request(),
        None,
        CallOutcome::Executed { exception: Some("reverted".to_string()), output: vec![0xff] },
    );
    match r {
        Err(Error::Vm(m, out)) => {
            assert_eq!(m, "reverted");
            assert_eq!(out, vec![0xff]);
        }
        other => panic!("expected a VM error, got {:?}", other),
    }

    let r = client.call(&meta(), empty_request(), None, CallOutcome::Failure("no gas".to_string()));
    match r {
        Err(Error::Call(m)) => assert_eq!(m, "no gas"),
        other => panic!("expected a call error, got {:?}", other),
    }
}

#[test]
fn estimate_gas_shares_the_call_pipeline() {
    let client = EthClient::new(chain());
    let r = client.estimate_gas(&meta(), empty_request(), None, EstimateOutcome::Estimated(21_000));
    assert_eq!(r, Ok(U256::from_u64(21_000)));

    let r = client.estimate_gas(
        &meta(),
        empty_request(),
        Some(BlockReference::Number(9)),
        EstimateOutcome::Estimated(21_000),
    );
    assert_eq!(r, Err(Error::UnknownBlock));

    let r = client.estimate_gas(
        &meta(),
        empty_request(),
        None,
        EstimateOutcome::Failed("too deep".to_string()),
    );
    match r {
        Err(Error::Call(m)) => assert_eq!(m, "too deep"),
        other => panic!("expected a call error, got {:?}", other),
    }
}

#[test]
fn raw_submission_passes_the_backend_verdict_through() {
    let client = EthClient::new(chain());
    assert_eq!(
        client.send_raw_transaction(SubmitOutcome::Accepted(h256(8))),
        Ok(h256(8))
    );
    match client.send_raw_transaction(SubmitOutcome::Rejected("bad rlp".to_string())) {
        Err(Error::Call(m)) => assert_eq!(m, "bad rlp"),
        other => panic!("expected a call error, got {:?}", other),
    }
    assert_eq!(
        client.submit_transaction(SubmitOutcome::Accepted(h256(9))),
        Ok(h256(9))
    );
}
