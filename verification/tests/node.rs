use base64::engine::general_purpose::STANDARD;
use base64::Engine;
use cosmrs::crypto::secp256k1::{Signature, VerifyingKey};
use cosmrs::proto::cosmos::auth::v1beta1::{BaseAccount, QueryAccountResponse};
use cosmrs::proto::cosmos::base::abci::v1beta1::{GasInfo, TxMsgData};
use cosmrs::proto::cosmos::crypto::secp256k1::PubKey;
use cosmrs::proto::cosmos::tx::v1beta1::{
    AuthInfo, SignDoc, SimulateRequest, SimulateResponse, TxBody, TxRaw,
};
use cosmrs::proto::cosmwasm::wasm::v1::{MsgStoreCode, MsgStoreCodeResponse};
use cosmrs::proto::traits::Message;
use cosmrs::tendermint::abci::EventAttribute as Attribute;
use cosmrs::tendermint::Time;
use dao_chain_client::client::{store_message, ChainClient, StoreResponse};
use dao_chain_client::commit::{CheckResult, CommitResponse, ExecResult};
use dao_chain_client::config::{ChainConfig, Config};
use dao_chain_client::digest::transaction_hash;
use dao_chain_client::error::{CosmwasmError, ProcessError, TxError};
use dao_chain_client::message::Any;
use dao_chain_client::names::NameMap;
use dao_chain_client::poll::PollRequest;
use dao_chain_client::quantity::Quantity;
use dao_chain_client::receipt::{Event, EventAttribute, Receipt};
use dao_chain_client::rpc::{Answer, QueryReply, Rpc};
use dao_chain_client::signing::{Key, SigningKey, SIMULATION_MEMO, TRANSACTION_MEMO};
use dao_chain_client::status::{
    BlockTime, NodeInfo, NodeStatus, ProtocolVersion, SyncInfo, ValidatorInfo,
};
use dao_chain_client::storage::StoreStep;
use dao_chain_client::transaction::{Reply, Request};
use serde_json::Value;
use sha2::{Digest, Sha256};
use signature::Verifier;
use tendermint_rpc::endpoint;

const WASM: &[u8] = b"\0asm\x01\0\0\0";
const ADDRESS: &str = "juno16g2rahf5846rxzp3fwlswy08fz8ccuwk03k57y";

fn chain_config() -> ChainConfig {
    ChainConfig {
        denom: "ujuno".into(),
        prefix: "juno".into(),
        chain_id: "testing".into(),
        derivation_path: "m/44'/118'/0'/0/0".into(),
        gas_price: Quantity { bits: 0.1f64.to_bits() },
        gas_adjustment: Quantity { bits: 1.5f64.to_bits() },
        rpc_endpoint: Some("http://127.0.0.1:26657".into()),
        grpc_endpoint: Some("http://127.0.0.1:9090".into()),
    }
}

fn key() -> SigningKey {
    SigningKey {
        name: "validator".into(),
        key: Key::Mnemonic(
            "clip hire initial neck maid actor venue client foam budget lock catalog sweet steak \
             waste crater broccoli pipe steak sister coyote moment obvious choose"
                .into(),
        ),
        derivation_path: chain_config().derivation_path,
    }
}

fn message(sender: &str) -> Result<Any, ProcessError> {
    Ok(store_message(sender, WASM, &None))
}

fn tx_response(type_url: &str, response: Vec<u8>) -> Vec<u8> {
    TxMsgData {
        msg_responses: vec![cosmrs::Any { type_url: type_url.into(), value: response }],
        ..Default::default()
    }
    .encode_to_vec()
}

fn store_response(code_id: u64, checksum: Vec<u8>) -> Vec<u8> {
    tx_response(
        "/cosmwasm.wasm.v1.MsgStoreCodeResponse",
        MsgStoreCodeResponse { code_id, checksum }.encode_to_vec(),
    )
}

fn status() -> Value {
    let hash = "00".repeat(32);
    let text = format!(
        r#"{{"node_info": {{"protocol_version": {{"p2p":"8","block":"11","app":"0"}},
            "id": "{id}", "listen_addr": "tcp://127.0.0.1:26656",
            "network":"testing", "version":"0.37.2", "channels":"40202122233038606100",
            "moniker":"mock",
            "other":{{"tx_index":"on", "rpc_address":"tcp://127.0.0.1:26657"}}}},
        "sync_info": {{"latest_block_hash":"{hash}", "latest_app_hash":"{hash}",
            "latest_block_height":"12", "latest_block_time":"2024-01-01T00:00:00Z",
            "earliest_block_hash":"{hash}", "earliest_app_hash":"{hash}",
            "earliest_block_height":"1", "earliest_block_time":"2024-01-01T00:00:00Z",
            "catching_up":false}},
        "validator_info": {{"address":"{id}",
            "pub_key":{{"type":"tendermint/PubKeyEd25519", "value":"{key}"}},
            "voting_power":"10"}}}}"#,
        id = "00".repeat(20),
        key = STANDARD.encode([0; 32]),
    );
    serde_json::from_str(&text).unwrap()
}

fn query_result(data: Vec<u8>) -> Value {
    let text = format!(
        r#"{{"response":{{"code":0,"log":"","info":"","index":"0","key":"","value":"{}",
            "height":"12","codespace":""}}}}"#,
        STANDARD.encode(data)
    );
    serde_json::from_str(&text).unwrap()
}

fn normal(request: &Asked) -> Value {
    match request {
        Asked::Status => status(),
        Asked::Query { path, .. } => match path.as_str() {
            "/cosmos.auth.v1beta1.Query/Account" => query_result(
                QueryAccountResponse {
                    account: Some(cosmrs::Any {
                        type_url: "/cosmos.auth.v1beta1.BaseAccount".into(),
                        value: BaseAccount {
                            address: ADDRESS.into(),
                            pub_key: None,
                            account_number: 7,
                            sequence: 3,
                        }
                        .encode_to_vec(),
                    }),
                }
                .encode_to_vec(),
            ),
            "/cosmos.tx.v1beta1.Service/Simulate" => query_result(
                SimulateResponse {
                    gas_info: Some(GasInfo { gas_wanted: 20001, gas_used: 20001 }),
                    result: None,
                }
                .encode_to_vec(),
            ),
            other => panic!("unexpected ABCI path {other}"),
        },
        Asked::Broadcast { bytes } => {
            let text = format!(
                r#"{{"check_tx":{{"code":0,"data":"","log":"","info":"","gas_wanted":"30002",
                    "gas_used":"0","events":[],"codespace":""}},
                "deliver_tx":{{"code":0,"data":"{data}","log":"execution log", "info":"",
                    "gas_wanted":"30002", "gas_used":"20001", "codespace":"",
                    "events":[{{"type":"store_code","attributes":[
                        {{"key":"code_id","value":"42","index":true}}]}}]}},
                "hash":"{hash}","height":"12"}}"#,
                data = STANDARD.encode(store_response(42, Sha256::digest(WASM).to_vec())),
                hash = hash_text(bytes),
            );
            serde_json::from_str(&text).unwrap()
        }
    }
}

fn hash_text(bytes: &[u8]) -> String {
    transaction_hash(bytes).iter().map(|byte| format!("{byte:02X}")).collect()
}

/// What was asked of the node.
#[derive(Clone, Debug, PartialEq, Eq)]
enum Asked {
    Status,
    Query { path: String, data: Vec<u8> },
    Broadcast { bytes: Vec<u8> },
}

/// What the node did.
enum Done {
    Json(Value),
    Hang,
    Disconnect,
    Redirect,
}

fn taken<T>(done: Done, read: impl Fn(Value) -> Result<T, String>) -> Answer<T, String> {
    match done {
        Done::Json(value) => match read(value) {
            Ok(reply) => Answer::Reply(reply),
            Err(text) => Answer::Failed(text),
        },
        Done::Hang => Answer::Deadline,
        Done::Disconnect => Answer::Failed("connection closed".into()),
        Done::Redirect => Answer::Failed("HTTP error: 307 Temporary Redirect".into()),
    }
}

fn read_status(value: Value) -> Result<NodeStatus, String> {
    let status: endpoint::status::Response =
        serde_json::from_value(value).map_err(|error| error.to_string())?;
    let node = status.node_info;
    let sync = status.sync_info;
    let validator = status.validator_info;
    Ok(NodeStatus {
        node_info: NodeInfo {
            protocol_version: ProtocolVersion {
                p2p: node.protocol_version.p2p,
                block: node.protocol_version.block,
                app: node.protocol_version.app,
            },
            id: node.id.as_bytes().to_vec(),
            listen_addr: node.listen_addr.to_string(),
            network: node.network.to_string(),
            version: node.version.to_string(),
            channels: node.channels.to_string(),
            moniker: node.moniker.to_string(),
            tx_index: node.other.tx_index.into(),
            rpc_address: node.other.rpc_address,
        },
        sync_info: SyncInfo {
            earliest_block_hash: read_hash(sync.earliest_block_hash),
            earliest_app_hash: sync.earliest_app_hash.as_bytes().to_vec(),
            earliest_block_height: sync.earliest_block_height.value(),
            earliest_block_time: read_time(sync.earliest_block_time),
            latest_block_hash: read_hash(sync.latest_block_hash),
            latest_app_hash: sync.latest_app_hash.as_bytes().to_vec(),
            latest_block_height: sync.latest_block_height.value(),
            latest_block_time: read_time(sync.latest_block_time),
            catching_up: sync.catching_up,
        },
        validator_info: ValidatorInfo {
            address: validator.address.as_bytes().to_vec(),
            key_type: "tendermint/PubKeyEd25519".into(),
            key: validator.pub_key.to_bytes(),
            power: validator.power.value(),
            name: validator.name,
            proposer_priority: validator.proposer_priority.value(),
        },
    })
}

fn read_hash(hash: cosmrs::tendermint::Hash) -> Option<[u8; 32]> {
    match hash {
        cosmrs::tendermint::Hash::Sha256(hash) => Some(hash),
        cosmrs::tendermint::Hash::None => None,
    }
}

fn read_time(time: Time) -> BlockTime {
    let seconds = time.unix_timestamp();
    let nanos = time.unix_timestamp_nanos() - i128::from(seconds) * 1_000_000_000;
    BlockTime { seconds, nanos: nanos as u32 }
}

fn read_query(value: Value) -> Result<QueryReply, String> {
    let reply: endpoint::abci_query::Response =
        serde_json::from_value(value).map_err(|error| error.to_string())?;
    let reply = reply.response;
    Ok(QueryReply {
        code: reply.code.value(),
        codespace: reply.codespace,
        log: reply.log,
        value: reply.value,
    })
}

fn read_events(events: Vec<cosmrs::tendermint::abci::Event>) -> Vec<Event> {
    events
        .into_iter()
        .map(|event| Event {
            kind: event.kind,
            attributes: event
                .attributes
                .into_iter()
                .map(|attribute| match attribute {
                    Attribute::V037(v) => {
                        EventAttribute::V037 { key: v.key, value: v.value, index: v.index }
                    }
                    Attribute::V034(v) => {
                        EventAttribute::V034 { key: v.key, value: v.value, index: v.index }
                    }
                })
                .collect(),
        })
        .collect()
}

fn read_commit(value: Value) -> Result<CommitResponse, String> {
    let response: endpoint::broadcast::tx_commit::Response =
        serde_json::from_value(value).map_err(|error| error.to_string())?;
    Ok(CommitResponse {
        hash: read_hash(response.hash),
        check_tx: CheckResult {
            code: response.check_tx.code.value(),
            codespace: response.check_tx.codespace,
            log: response.check_tx.log,
        },
        tx_result: ExecResult {
            code: response.tx_result.code.value(),
            codespace: response.tx_result.codespace,
            log: response.tx_result.log,
            gas_wanted: response.tx_result.gas_wanted,
            gas_used: response.tx_result.gas_used,
            data: response.tx_result.data.to_vec(),
            events: read_events(response.tx_result.events),
        },
        height: response.height.value(),
    })
}

/// Runs one transaction against a node, and logs what was asked of the node.
fn transact(
    rpc: &Rpc,
    key: &SigningKey,
    message: impl Fn(&str) -> Result<Any, ProcessError>,
    node: impl Fn(&Asked) -> Done,
) -> (Result<Receipt, ProcessError>, Vec<Asked>) {
    let mut log = Vec::new();
    let (mut transaction, mut request) = rpc.transact();
    loop {
        let reply = match request {
            Request::Status => {
                log.push(Asked::Status);
                Reply::Status(taken(node(&Asked::Status), read_status))
            }
            Request::Message { sender } => Reply::Message(message(&sender)),
            Request::Query { path, data } => {
                let asked = Asked::Query { path, data };
                log.push(asked.clone());
                Reply::Query(taken(node(&asked), read_query))
            }
            Request::Broadcast { bytes } => {
                let asked = Asked::Broadcast { bytes };
                log.push(asked.clone());
                Reply::Commit(taken(node(&asked), read_commit))
            }
            Request::Done(result) => return (result, log),
        };
        assert!(transaction.awaits(&reply));
        (transaction, request) = transaction.advance(rpc, key, reply);
    }
}

fn broadcasts(log: &[Asked]) -> usize {
    log.iter().filter(|asked| matches!(asked, Asked::Broadcast { .. })).count()
}

fn rpc() -> Rpc {
    Rpc::new(chain_config()).unwrap()
}

fn unwrap_err(result: Result<Receipt, ProcessError>) -> ProcessError {
    match result {
        Ok(receipt) => panic!("unexpected receipt {receipt:?}"),
        Err(error) => error,
    }
}

#[test]
fn the_whole_status_and_the_whole_account_come_back() {
    let rpc = rpc();
    let seen = rpc.status(Answer::Reply(read_status(status()).unwrap())).unwrap();
    assert_eq!(seen, read_status(status()).unwrap());
    assert_eq!(seen.node_info.moniker, "mock");
    assert_eq!(seen.node_info.listen_addr, "tcp://127.0.0.1:26656");
    assert_eq!(seen.node_info.protocol_version, ProtocolVersion { p2p: 8, block: 11, app: 0 });
    assert!(seen.node_info.tx_index);
    assert_eq!(seen.sync_info.earliest_block_height, 1);
    assert_eq!(
        seen.sync_info.latest_block_time,
        BlockTime { seconds: 1_704_067_200, nanos: 0 }
    );
    assert!(!seen.sync_info.catching_up);
    assert_eq!((seen.validator_info.power, seen.validator_info.key), (10, vec![0; 32]));
    let known = BaseAccount {
        address: ADDRESS.into(),
        pub_key: Some(cosmrs::Any { type_url: "/test.PubKey".into(), value: vec![9, 8] }),
        account_number: 7,
        sequence: 3,
    };
    let reply = QueryAccountResponse {
        account: Some(cosmrs::Any {
            type_url: "/cosmos.auth.v1beta1.BaseAccount".into(),
            value: known.encode_to_vec(),
        }),
    };
    let answer = Answer::Reply(read_query(query_result(reply.encode_to_vec())).unwrap());
    let account = Rpc::account(answer, ADDRESS).unwrap();
    assert_eq!((account.address.as_str(), account.account_number, account.sequence), (ADDRESS, 7, 3));
    assert_eq!(
        account.pub_key,
        Some(Any { type_url: "/test.PubKey".into(), value: vec![9, 8] })
    );
}

#[test]
fn real_client_signs_once_preserves_envelopes_and_committed_events() {
    let (result, requests) =
        transact(&rpc(), &key(), message, |asked| Done::Json(normal(asked)));
    let receipt = result.unwrap();
    assert_eq!((receipt.height, receipt.gas_wanted, receipt.gas_used), (12, 30002, 20001));
    assert_eq!(receipt.log, "execution log");
    assert_eq!(
        receipt.events,
        vec![Event {
            kind: "store_code".into(),
            attributes: vec![EventAttribute::V037 {
                key: "code_id".into(),
                value: "42".into(),
                index: true
            }],
        }]
    );
    let response = receipt.message_response("/cosmwasm.wasm.v1.MsgStoreCodeResponse").unwrap();
    let response = MsgStoreCodeResponse::decode(response.as_slice()).unwrap();
    assert_eq!(response.code_id, 42);
    assert_eq!(receipt.store_code_response().unwrap().code_id, 42);
    assert_eq!(requests.len(), 4);
    assert_eq!(broadcasts(&requests), 1);
    let sim = match &requests[2] {
        Asked::Query { path, data } => {
            assert_eq!(path, "/cosmos.tx.v1beta1.Service/Simulate");
            SimulateRequest::decode(data.as_slice()).unwrap()
        }
        other => panic!("unexpected request {other:?}"),
    };
    let simulation = TxRaw::decode(sim.tx_bytes.as_slice()).unwrap();
    let body = TxBody::decode(simulation.body_bytes.as_slice()).unwrap();
    let auth = AuthInfo::decode(simulation.auth_info_bytes.as_slice()).unwrap();
    assert_eq!(body.memo, SIMULATION_MEMO);
    assert_eq!(body.timeout_height, 0);
    assert_eq!(simulation.signatures, vec![Vec::<u8>::new()]);
    assert!(auth.signer_infos[0].public_key.is_none());
    assert_eq!(auth.signer_infos[0].sequence, 3);
    assert_eq!(auth.fee.unwrap().amount[0].amount, "0");
    let tx = match &requests[3] {
        Asked::Broadcast { bytes } => bytes.clone(),
        other => panic!("unexpected request {other:?}"),
    };
    let signed = TxRaw::decode(tx.as_slice()).unwrap();
    let final_body = TxBody::decode(signed.body_bytes.as_slice()).unwrap();
    let final_auth = AuthInfo::decode(signed.auth_info_bytes.as_slice()).unwrap();
    assert_eq!(final_body.messages, body.messages);
    assert_eq!(final_body.memo, TRANSACTION_MEMO);
    assert_eq!(final_body.timeout_height, 0);
    let store = MsgStoreCode::decode(final_body.messages[0].value.as_slice()).unwrap();
    assert_eq!(store.wasm_byte_code, WASM);
    assert_eq!(store.sender, ADDRESS);
    assert_eq!(final_auth.signer_infos[0].sequence, 3);
    let fee = final_auth.fee.unwrap();
    assert_eq!(fee.gas_limit, 30002);
    assert_eq!(fee.amount[0].amount, "3001");
    assert_eq!(fee.amount[0].denom, "ujuno");
    let public = PubKey::decode(
        final_auth.signer_infos[0].public_key.as_ref().unwrap().value.as_slice(),
    )
    .unwrap();
    assert_eq!(signed.signatures.len(), 1);
    let doc = SignDoc {
        body_bytes: signed.body_bytes,
        auth_info_bytes: signed.auth_info_bytes,
        chain_id: "testing".into(),
        account_number: 7,
    };
    VerifyingKey::from_sec1_bytes(&public.key)
        .unwrap()
        .verify(&doc.encode_to_vec(), &Signature::from_slice(&signed.signatures[0]).unwrap())
        .unwrap();
    assert_eq!(receipt.hash, hash_text(&tx));
}

#[test]
fn rejection_and_malformed_response_matrix() {
    for case in [
        "check",
        "execute",
        "zero-height",
        "wrong-hash",
        "invalid-hash",
        "missing-hash",
        "missing-height",
        "missing-check",
        "missing-execute",
        "negative-gas",
        "lowercase-hash",
        "malformed-data",
    ] {
        let (result, log) = transact(&rpc(), &key(), message, |asked| {
            let mut value = normal(asked);
            if matches!(asked, Asked::Broadcast { .. }) {
                match case {
                    "check" => {
                        value["check_tx"]["code"] = Value::from(9);
                        value["check_tx"]["log"] = Value::from("bad sequence");
                        value["height"] = Value::from("0");
                    }
                    "execute" => {
                        value["deliver_tx"]["code"] = Value::from(5);
                        value["deliver_tx"]["log"] = Value::from("unauthorized");
                    }
                    "zero-height" => value["height"] = Value::from("0"),
                    "wrong-hash" => value["hash"] = Value::from("11".repeat(32)),
                    "invalid-hash" => value["hash"] = Value::from("not a hash"),
                    "missing-hash" => {
                        value.as_object_mut().unwrap().remove("hash");
                    }
                    "missing-height" => {
                        value.as_object_mut().unwrap().remove("height");
                    }
                    "missing-check" => {
                        value.as_object_mut().unwrap().remove("check_tx");
                    }
                    "missing-execute" => {
                        value.as_object_mut().unwrap().remove("deliver_tx");
                    }
                    "negative-gas" => value["deliver_tx"]["gas_used"] = Value::from("-1"),
                    "lowercase-hash" => {
                        value["hash"] = Value::from(value["hash"].as_str().unwrap().to_lowercase())
                    }
                    "malformed-data" => value["deliver_tx"]["data"] = Value::from("not base64"),
                    _ => unreachable!(),
                }
            }
            Done::Json(value)
        });
        let err = unwrap_err(result);
        match case {
            "check" => assert!(matches!(
                err,
                ProcessError::CosmwasmError(CosmwasmError::TxError(TxError::CheckTx {
                    code: 9,
                    ..
                }))
            )),
            "execute" => match err {
                ProcessError::CosmwasmError(CosmwasmError::TxError(TxError::Execution {
                    code: 5,
                    response,
                    ..
                })) => {
                    assert_eq!(response.log, "unauthorized");
                    assert_eq!(response.gas_used, 20001);
                }
                other => panic!("unexpected execution error: {other:?}"),
            },
            _ => assert!(!matches!(err, ProcessError::CosmwasmError(_)), "{case}: {err:?}"),
        }
        assert_eq!(broadcasts(&log), 1, "{case}");
    }
}

#[test]
fn delayed_commit_is_not_early_success() {
    let rpc = rpc();
    let key = key();
    let (transaction, _) = rpc.transact();
    let reply = Reply::Status(Answer::Reply(read_status(status()).unwrap()));
    let (transaction, request) = transaction.advance(&rpc, &key, reply);
    let sender = match request {
        Request::Message { sender } => sender,
        other => panic!("unexpected request {other:?}"),
    };
    let (mut transaction, mut request) =
        transaction.advance(&rpc, &key, Reply::Message(message(&sender)));
    for _ in 0..2 {
        let asked = match request {
            Request::Query { path, data } => Asked::Query { path, data },
            other => panic!("unexpected request {other:?}"),
        };
        let reply = Reply::Query(Answer::Reply(read_query(normal(&asked)).unwrap()));
        (transaction, request) = transaction.advance(&rpc, &key, reply);
    }
    // The transaction is out, and until the report on it arrives nothing is taken for a success.
    let bytes = match request {
        Request::Broadcast { bytes } => bytes,
        other => panic!("unexpected request {other:?}"),
    };
    assert!(!transaction.awaits(&Reply::Status(Answer::Reply(read_status(status()).unwrap()))));
    assert!(!transaction.awaits(&Reply::Query(Answer::Deadline)));
    let reply = read_commit(normal(&Asked::Broadcast { bytes })).unwrap();
    let (transaction, request) =
        transaction.advance(&rpc, &key, Reply::Commit(Answer::Reply(reply)));
    match request {
        Request::Done(Ok(receipt)) => assert_eq!(receipt.height, 12),
        other => panic!("unexpected request {other:?}"),
    }
    assert!(!transaction.awaits(&Reply::Commit(Answer::Deadline)));
}

#[test]
fn deadlines_cover_each_stalled_call_and_total_operation() {
    for stalled in ["status", "account", "simulate", "broadcast_tx_commit", "cumulative"] {
        let elapsed = std::cell::Cell::new(0);
        let (result, log) = transact(&rpc(), &key(), message, |asked| {
            let method = match asked {
                Asked::Status => "status",
                Asked::Query { path, .. } if path.ends_with("/Account") => "account",
                Asked::Query { .. } => "simulate",
                Asked::Broadcast { .. } => "broadcast_tx_commit",
            };
            if stalled == "cumulative" {
                elapsed.set(elapsed.get() + 200);
            }
            if method == stalled || elapsed.get() > 500 {
                Done::Hang
            } else {
                Done::Json(normal(asked))
            }
        });
        let err = unwrap_err(result);
        assert!(
            matches!(&err, ProcessError::Timeout { hash: Some(_) } if stalled == "broadcast_tx_commit")
                || matches!(&err, ProcessError::Timeout { hash: None } if stalled != "broadcast_tx_commit"),
            "{stalled}: {err:?}"
        );
        if let (ProcessError::Timeout { hash: Some(hash) }, Some(Asked::Broadcast { bytes })) =
            (&err, log.last())
        {
            assert_eq!(hash, &hash_text(bytes));
        }
        assert_eq!(broadcasts(&log), usize::from(stalled == "broadcast_tx_commit"));
    }
}

#[test]
fn disconnects_and_redirects_never_resubmit_or_satisfy_rejection_assertions() {
    for redirect in [false, true] {
        let (result, log) = transact(&rpc(), &key(), message, |asked| {
            if matches!(asked, Asked::Broadcast { .. }) {
                if redirect {
                    Done::Redirect
                } else {
                    Done::Disconnect
                }
            } else {
                Done::Json(normal(asked))
            }
        });
        let err = unwrap_err(result);
        let bytes = match log.last() {
            Some(Asked::Broadcast { bytes }) => bytes,
            other => panic!("unexpected request {other:?}"),
        };
        assert!(
            matches!(&err, ProcessError::Broadcast { hash, .. } if *hash == hash_text(bytes)),
            "{err:?}"
        );
        assert_eq!(broadcasts(&log), 1);
    }
}

#[test]
fn node_and_account_validation_and_simulation_failure_happen_before_submission() {
    for (case, text) in [
        ("chain", "node chain ID does not match configured chain_id"),
        ("version", "this fixture client requires CometBFT 0.37 or 0.38"),
        ("account-type", "unsupported signing account type (expected BaseAccount)"),
        ("account-address", "account query returned a different signer address"),
        ("account-missing", "missing account"),
        ("gas-missing", "simulation omitted gas_info"),
        ("query-malformed", ""),
        ("simulation-rejection", ""),
    ] {
        let (result, log) = transact(&rpc(), &key(), message, |asked| {
            let mut value = normal(asked);
            if *asked == Asked::Status {
                if case == "chain" {
                    value["node_info"]["network"] = Value::from("wrong-chain");
                }
                if case == "version" {
                    value["node_info"]["version"] = Value::from("0.39.0");
                }
            }
            let path = match asked {
                Asked::Query { path, .. } => path.as_str(),
                _ => "",
            };
            if path.ends_with("/Account") {
                if case == "account-missing" {
                    value = query_result(QueryAccountResponse { account: None }.encode_to_vec());
                }
                if case == "query-malformed" {
                    value = query_result(vec![255]);
                }
                if case == "account-type" || case == "account-address" {
                    value = query_result(
                        QueryAccountResponse {
                            account: Some(cosmrs::Any {
                                type_url: if case == "account-type" {
                                    "/unsupported"
                                } else {
                                    "/cosmos.auth.v1beta1.BaseAccount"
                                }
                                .into(),
                                value: BaseAccount {
                                    address: "different".into(),
                                    ..Default::default()
                                }
                                .encode_to_vec(),
                            }),
                        }
                        .encode_to_vec(),
                    );
                }
            }
            if path.ends_with("/Simulate") {
                if case == "gas-missing" {
                    value = query_result(SimulateResponse::default().encode_to_vec());
                }
                if case == "simulation-rejection" {
                    value["response"]["code"] = Value::from(18);
                    value["response"]["log"] = Value::from("unauthorized");
                }
            }
            Done::Json(value)
        });
        let err = unwrap_err(result);
        if case == "simulation-rejection" {
            assert!(matches!(
                err,
                ProcessError::CosmwasmError(CosmwasmError::TxError(TxError::Simulation {
                    code: 18,
                    ..
                }))
            ));
        } else {
            assert!(!matches!(err, ProcessError::CosmwasmError(_)), "{case}: {err:?}");
        }
        if !text.is_empty() {
            assert!(matches!(&err, ProcessError::Protocol(found) if found == text), "{err:?}");
        }
        if case == "query-malformed" {
            let expected = QueryAccountResponse::decode([255].as_slice()).unwrap_err().to_string();
            assert!(matches!(&err, ProcessError::Protocol(found) if *found == expected));
        }
        assert_eq!(broadcasts(&log), 0, "{case}");
    }
}

#[test]
fn block_polling_uses_chain_height_time_and_caller_deadline() {
    let rpc = rpc();
    let mut count: u64 = 0;
    let (mut poll, mut request) = rpc.poll_for_n_blocks(2, true);
    let mut waits = 0;
    loop {
        match request {
            PollRequest::Ask => {}
            PollRequest::Wait => waits += 1,
            PollRequest::Done(result) => {
                result.unwrap();
                break;
            }
        }
        let mut value = status();
        value["sync_info"]["latest_block_height"] = Value::from(count.to_string());
        count += 1;
        (poll, request) = poll.advance(&rpc, Answer::Reply(read_status(value).unwrap()));
    }
    assert_eq!(count, 4);
    assert_eq!(waits, 3);

    let mut count = 0;
    let (mut poll, mut request) = rpc.poll_for_n_secs(10);
    let mut waits = 0;
    loop {
        match request {
            PollRequest::Ask => {}
            PollRequest::Wait => waits += 1,
            PollRequest::Done(result) => {
                result.unwrap();
                break;
            }
        }
        let mut value = status();
        let seconds = if count == 0 { "00" } else { "10" };
        count += 1;
        value["sync_info"]["latest_block_time"] =
            Value::from(format!("2024-01-01T00:00:{seconds}Z"));
        (poll, request) = poll.advance(&rpc, Answer::Reply(read_status(value).unwrap()));
    }
    // Ten seconds of the chain pass without a single interval of waiting.
    assert_eq!(count, 2);
    assert_eq!(waits, 0);

    let (poll, request) = rpc.poll_for_n_blocks(1, false);
    assert!(matches!(request, PollRequest::Ask));
    let (poll, request) = poll.advance(&rpc, Answer::Reply(read_status(status()).unwrap()));
    assert!(matches!(request, PollRequest::Wait));
    let (_, request) = poll.advance(&rpc, Answer::Deadline);
    assert!(matches!(request, PollRequest::Done(Err(ProcessError::Timeout { hash: None }))));
}

/// Stores the files of a directory against a node, and counts the submissions.
fn store(
    client: &mut ChainClient,
    files: &[(&str, &[u8])],
    node: impl Fn(&Asked) -> Done,
) -> (Result<Vec<StoreResponse>, ProcessError>, usize) {
    let mut submitted = 0;
    let names = files.iter().map(|(name, _)| name.as_bytes().to_vec()).collect();
    let mut step = client.store_contracts(names, "x86_64", None);
    loop {
        step = match step {
            StoreStep::Read(run) => {
                let found = files.iter().find(|(name, _)| name.as_bytes() == run.file());
                let code = found.map(|(_, code)| code.to_vec()).ok_or("no such file".to_string());
                run.read(code)
            }
            StoreStep::Submit(run) => {
                let (result, log) = transact(
                    client.rpc(),
                    &key(),
                    |sender| Ok(run.message(sender)),
                    &node,
                );
                submitted += broadcasts(&log);
                run.submitted(client, result, "harness.rs", 17)
            }
            StoreStep::Done(result) => return (result, submitted),
        };
    }
}

#[test]
fn synchronous_facade_registers_and_profiles_only_confirmed_matching_storage() {
    for case in ["success", "check-rejected", "wrong-checksum"] {
        let cfg = Config { chain_cfg: chain_config(), contract_deploy_info: NameMap::new() };
        let mut client = ChainClient::new(cfg, true).unwrap();
        let (result, submitted) = store(
            &mut client,
            &[("notes.txt", b"text".as_slice()), ("token-default.wasm", WASM)],
            |asked| {
                let mut value = normal(asked);
                if matches!(asked, Asked::Broadcast { .. }) {
                    if case == "check-rejected" {
                        value["check_tx"]["code"] = Value::from(9);
                    }
                    if case == "wrong-checksum" {
                        value["deliver_tx"]["data"] =
                            Value::from(STANDARD.encode(store_response(42, vec![1; 32])));
                    }
                }
                Done::Json(value)
            },
        );
        if case == "success" {
            assert_eq!(result.unwrap().len(), 1);
            assert_eq!(client.contract_map.code_id("token-default").unwrap(), 42);
            let report = client.gas_profiler_report().unwrap();
            let entry = report.get("token-default").unwrap().get("Store__Store").unwrap();
            assert_eq!(entry.gas_used, 20001);
            assert_eq!(entry.gas_wanted, 30002);
            assert_eq!((entry.file_name.as_str(), entry.line_number), ("harness.rs", 17));
        } else {
            assert!(result.is_err());
            assert!(client.contract_map.deploy_info().is_empty());
            assert!(client.gas_profiler_report().unwrap().is_empty());
        }
        assert_eq!(submitted, 1);
    }
}

#[test]
fn a_failed_file_ends_the_run_and_keeps_what_was_confirmed() {
    let cfg = Config { chain_cfg: chain_config(), contract_deploy_info: NameMap::new() };
    let mut client = ChainClient::new(cfg, false).unwrap();
    let count = std::cell::Cell::new(0);
    let (result, submitted) = store(
        &mut client,
        &[("c.wasm", WASM), ("a.wasm", WASM), ("b.wasm", WASM)],
        |asked| {
            let mut value = normal(asked);
            if matches!(asked, Asked::Broadcast { .. }) {
                count.set(count.get() + 1);
                if count.get() == 2 {
                    value["deliver_tx"]["code"] = Value::from(5);
                }
            }
            Done::Json(value)
        },
    );
    assert!(matches!(result, Err(ProcessError::CosmwasmError(_))));
    assert_eq!(submitted, 2);
    assert_eq!(client.contract_map.code_id("a").unwrap(), 42);
    assert!(client.contract_map.code_id("b").is_err());
    assert!(client.contract_map.code_id("c").is_err());
    assert!(matches!(
        client.gas_profiler_report(),
        Err(ProcessError::Config(text)) if text == "gas profiling is disabled"
    ));
}

#[test]
fn storage_fails_on_zero_code_and_on_unreadable_files() {
    let cfg = Config { chain_cfg: chain_config(), contract_deploy_info: NameMap::new() };
    let mut client = ChainClient::new(cfg, true).unwrap();
    let (result, submitted) = store(&mut client, &[("a.wasm", WASM)], |asked| {
        let mut value = normal(asked);
        if matches!(asked, Asked::Broadcast { .. }) {
            let data = store_response(0, Sha256::digest(WASM).to_vec());
            value["deliver_tx"]["data"] = Value::from(STANDARD.encode(data));
        }
        Done::Json(value)
    });
    assert!(matches!(
        result,
        Err(ProcessError::Protocol(text))
            if text == "store response has invalid code ID or a different Wasm checksum"
    ));
    assert_eq!(submitted, 1);
    assert!(client.contract_map.deploy_info().is_empty());

    let step = client.store_contracts(vec![b"a.wasm".to_vec()], "x86_64", None);
    let step = match step {
        StoreStep::Read(run) => run.read(Err("permission denied".into())),
        other => panic!("unexpected step {other:?}"),
    };
    assert!(matches!(
        step,
        StoreStep::Done(Err(ProcessError::Io(text))) if text == "permission denied"
    ));

    let step = client.store_contracts(vec![vec![0xFF, b'.', b'w', b'a', b's', b'm']], "arm", None);
    assert!(matches!(
        step,
        StoreStep::Done(Err(ProcessError::Protocol(text))) if text == "invalid Wasm filename"
    ));
}

#[test]
fn a_message_that_cannot_be_written_ends_the_run() {
    let (result, log) = transact(
        &rpc(),
        &key(),
        |_| Err(ProcessError::Json("key must be a string".into())),
        |asked| Done::Json(normal(asked)),
    );
    assert!(matches!(
        unwrap_err(result),
        ProcessError::Json(text) if text == "key must be a string"
    ));
    assert_eq!(log, vec![Asked::Status]);
}

#[test]
fn a_key_that_cannot_be_derived_ends_the_run_after_the_status() {
    let mut bad = key();
    bad.derivation_path = "invalid".into();
    let (result, log) = transact(&rpc(), &bad, message, |asked| Done::Json(normal(asked)));
    assert!(matches!(
        unwrap_err(result),
        ProcessError::Signing(text) if text == "invalid derivation path"
    ));
    assert_eq!(log, vec![Asked::Status]);
}
