use dao_chain_client::config::ChainConfig;
use dao_chain_client::error::ProcessError;
use dao_chain_client::poll::{BlockPoll, PollRequest, TimePoll};
use dao_chain_client::quantity::Quantity;
use dao_chain_client::rpc::{Answer, Rpc, OPERATION_TIMEOUT, POLL_INTERVAL};
use dao_chain_client::status::{
    BlockTime, NodeInfo, NodeStatus, ProtocolVersion, SyncInfo, ValidatorInfo,
};

fn rpc() -> Rpc {
    Rpc::new(ChainConfig {
        denom: "ujuno".into(),
        prefix: "juno".into(),
        chain_id: "testing".into(),
        derivation_path: "m/44'/118'/0'/0/0".into(),
        gas_price: Quantity { bits: 0.1f64.to_bits() },
        gas_adjustment: Quantity { bits: 1.5f64.to_bits() },
        rpc_endpoint: Some("http://127.0.0.1:26657".into()),
        grpc_endpoint: None,
    })
    .unwrap()
}

fn seen(height: u64, time: i64) -> Answer<NodeStatus, String> {
    Answer::Reply(NodeStatus {
        node_info: NodeInfo {
            protocol_version: ProtocolVersion { p2p: 8, block: 11, app: 0 },
            id: vec![0; 20],
            listen_addr: "tcp://127.0.0.1:26656".into(),
            network: "testing".into(),
            version: "0.38.17".into(),
            channels: "40".into(),
            moniker: "mock".into(),
            tx_index: true,
            rpc_address: "tcp://127.0.0.1:26657".into(),
        },
        sync_info: SyncInfo {
            earliest_block_hash: None,
            earliest_app_hash: vec![],
            earliest_block_height: 1,
            earliest_block_time: BlockTime { seconds: 0, nanos: 0 },
            latest_block_hash: Some([0; 32]),
            latest_app_hash: vec![0; 32],
            latest_block_height: height,
            latest_block_time: BlockTime { seconds: time, nanos: 999_999_999 },
            catching_up: false,
        },
        validator_info: ValidatorInfo {
            address: vec![0; 20],
            key_type: "tendermint/PubKeyEd25519".into(),
            key: vec![0; 32],
            power: 10,
            name: None,
            proposer_priority: 0,
        },
    })
}

/// How a wait for blocks goes on after each of the heights.
fn blocks(n: u64, first_block: bool, heights: &[u64]) -> Vec<PollRequest> {
    let rpc = rpc();
    let (mut poll, request) = BlockPoll::new(n, first_block);
    let mut requests = vec![request];
    for height in heights {
        let (next, request) = poll.advance(&rpc, seen(*height, 0));
        poll = next;
        requests.push(request);
    }
    requests
}

/// How a wait for a time goes on after each of the times.
fn times(n: u64, times: &[i64]) -> Vec<PollRequest> {
    let rpc = rpc();
    let (mut poll, request) = TimePoll::new(n);
    let mut requests = vec![request];
    for time in times {
        let (next, request) = poll.advance(&rpc, seen(0, *time));
        poll = next;
        requests.push(request);
    }
    requests
}

fn shape(requests: &[PollRequest]) -> String {
    requests
        .iter()
        .map(|request| match request {
            PollRequest::Ask => 'a',
            PollRequest::Wait => 'w',
            PollRequest::Done(Ok(())) => '.',
            PollRequest::Done(Err(_)) => '!',
        })
        .collect()
}

fn failure(requests: Vec<PollRequest>) -> String {
    match requests.into_iter().last() {
        Some(PollRequest::Done(Err(ProcessError::Protocol(text)))) => text,
        other => panic!("unexpected request {other:?}"),
    }
}

#[test]
fn blocks_are_counted_from_the_latest_or_the_first_one() {
    assert_eq!(shape(&blocks(0, false, &[5])), "a.");
    assert_eq!(shape(&blocks(2, false, &[0, 1, 2])), "aww.");
    assert_eq!(shape(&blocks(2, true, &[0, 0, 1, 2, 3])), "awwww.");
    assert_eq!(shape(&blocks(2, true, &[4, 9])), "aw.");
    assert_eq!(shape(&blocks(0, true, &[0, 1])), "aw.");
    assert_eq!(shape(&blocks(3, false, &[7, 6, 9, 10])), "awww.");
    assert_eq!(failure(blocks(1, false, &[u64::MAX])), "block target overflow");
    assert_eq!(shape(&blocks(u64::MAX, false, &[0])), "aw");
}

#[test]
fn time_is_that_of_the_chain() {
    assert_eq!(shape(&times(0, &[100, 100])), "aa.");
    assert_eq!(shape(&times(10, &[100, 110])), "aa.");
    assert_eq!(shape(&times(10, &[100, 105, 109, 111])), "aaww.");
    assert_eq!(shape(&times(10, &[-5, 4, 5])), "aaw.");
    assert_eq!(failure(times(1, &[i64::MAX])), "block time target overflow");
    let range = i64::try_from(u64::MAX).unwrap_err().to_string();
    assert_eq!(failure(times(u64::MAX, &[0])), range);
    assert_eq!(failure(times(1 << 63, &[i64::MIN])), range);
    assert_eq!(shape(&times((1 << 63) - 1, &[0])), "aa");
}

#[test]
fn a_wait_ends_with_the_first_failure() {
    let rpc = rpc();
    let (poll, _) = BlockPoll::new(1, false);
    let (_, request) = poll.advance(&rpc, Answer::Failed("down".into()));
    assert!(matches!(
        request,
        PollRequest::Done(Err(ProcessError::Rpc(text))) if text == "down"
    ));
    let (poll, _) = TimePoll::new(1);
    let (_, request) = poll.advance(&rpc, Answer::Deadline);
    assert!(matches!(request, PollRequest::Done(Err(ProcessError::Timeout { hash: None }))));
    assert_eq!((OPERATION_TIMEOUT, POLL_INTERVAL), (30, 500));
}
