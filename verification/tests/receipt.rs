use base64::engine::general_purpose::STANDARD;
use base64::Engine;
use cosmrs::proto::cosmos::base::abci::v1beta1::TxMsgData;
use cosmrs::proto::cosmwasm::wasm::v1::{MsgInstantiateContractResponse, MsgStoreCodeResponse};
use cosmrs::proto::traits::Message;
use dao_chain_client::commit::{committed, CheckResult, CommitResponse, ExecResult};
use dao_chain_client::digest::transaction_hash;
use dao_chain_client::error::{CosmwasmError, ProcessError, TxError};
use dao_chain_client::receipt::{Event, EventAttribute, Receipt};
use sha2::{Digest, Sha256};

const ADDRESS: &str = "juno16g2rahf5846rxzp3fwlswy08fz8ccuwk03k57y";

fn tx_response(type_url: &str, response: Vec<u8>) -> Vec<u8> {
    TxMsgData {
        msg_responses: vec![cosmrs::Any { type_url: type_url.into(), value: response }],
        ..Default::default()
    }
    .encode_to_vec()
}

fn events() -> Vec<Event> {
    vec![Event {
        kind: "instantiate".into(),
        attributes: vec![EventAttribute::V037 {
            key: "_contract_address".into(),
            value: "nested-not-the-top-level-address".into(),
            index: true,
        }],
    }]
}

#[test]
fn top_level_response_not_nested_event_controls_address() {
    let receipt = Receipt {
        hash: String::new(),
        height: 12,
        code: 0,
        codespace: String::new(),
        log: String::new(),
        gas_used: 1,
        gas_wanted: 1,
        events: events(),
        data: tx_response(
            "/cosmwasm.wasm.v1.MsgInstantiateContractResponse",
            MsgInstantiateContractResponse { address: ADDRESS.into(), data: vec![] }
                .encode_to_vec(),
        ),
    };
    let bytes = receipt
        .message_response("/cosmwasm.wasm.v1.MsgInstantiateContractResponse")
        .unwrap();
    let res = MsgInstantiateContractResponse::decode(bytes.as_slice()).unwrap();
    assert_eq!(res.address, ADDRESS);
    assert_eq!(receipt.instantiate_response().unwrap().address, ADDRESS);
    assert!(receipt.message_response("/cosmwasm.wasm.v1.MsgStoreCodeResponse").is_err());
    assert!(matches!(
        receipt.store_code_response(),
        Err(ProcessError::Protocol(text))
            if text == "expected one /cosmwasm.wasm.v1.MsgStoreCodeResponse message response"
    ));
    let empty = Receipt { data: vec![], ..receipt };
    assert!(empty
        .message_response("/cosmwasm.wasm.v1.MsgInstantiateContractResponse")
        .is_err());
}

#[test]
fn exactly_one_readable_response_is_taken() {
    let any = cosmrs::Any {
        type_url: "/cosmwasm.wasm.v1.MsgStoreCodeResponse".into(),
        value: MsgStoreCodeResponse { code_id: 4, checksum: vec![1, 2] }.encode_to_vec(),
    };
    let mut receipt = committed(response(), &hash()).unwrap();
    receipt.data =
        TxMsgData { msg_responses: vec![any.clone(), any.clone()], ..Default::default() }
            .encode_to_vec();
    assert!(receipt.store_code_response().is_err());
    receipt.data = TxMsgData { msg_responses: vec![any], ..Default::default() }.encode_to_vec();
    let stored = receipt.store_code_response().unwrap();
    assert_eq!((stored.code_id, stored.checksum), (4, vec![1, 2]));
    receipt.data = vec![255];
    let refusal = TxMsgData::decode([255].as_slice()).unwrap_err().to_string();
    assert!(matches!(
        receipt.store_code_response(),
        Err(ProcessError::Protocol(text)) if text == refusal
    ));
    receipt.data = tx_response("/cosmwasm.wasm.v1.MsgStoreCodeResponse", vec![255]);
    let refusal = MsgStoreCodeResponse::decode([255].as_slice()).unwrap_err().to_string();
    assert!(matches!(
        receipt.store_code_response(),
        Err(ProcessError::Protocol(text)) if text == refusal
    ));
}

fn hash() -> [u8; 32] {
    transaction_hash(b"transaction")
}

fn response() -> CommitResponse {
    CommitResponse {
        hash: Some(hash()),
        check_tx: CheckResult { code: 0, codespace: "check".into(), log: "checked".into() },
        tx_result: ExecResult {
            code: 0,
            codespace: "wasm".into(),
            log: "executed".into(),
            gas_wanted: 30002,
            gas_used: 20001,
            data: STANDARD.encode(b"data").into_bytes(),
            events: events(),
        },
        height: 12,
    }
}

#[test]
fn a_matching_commit_gives_a_receipt() {
    let receipt = committed(response(), &hash()).unwrap();
    let text: String =
        Sha256::digest(b"transaction").iter().map(|byte| format!("{byte:02X}")).collect();
    assert_eq!(receipt.hash, text);
    assert_eq!((receipt.height, receipt.code), (12, 0));
    assert_eq!((receipt.codespace.as_str(), receipt.log.as_str()), ("wasm", "executed"));
    assert_eq!((receipt.gas_wanted, receipt.gas_used), (30002, 20001));
    assert_eq!(receipt.data, b"data");
    assert_eq!(receipt.events, events());
}

fn refused(change: impl Fn(&mut CommitResponse)) -> ProcessError {
    let mut response = response();
    change(&mut response);
    match committed(response, &hash()) {
        Ok(receipt) => panic!("unexpected receipt {receipt:?}"),
        Err(error) => error,
    }
}

fn protocol_text(error: ProcessError) -> String {
    match error {
        ProcessError::Protocol(text) => text,
        other => panic!("unexpected error {other:?}"),
    }
}

#[test]
fn what_is_amiss_is_no_rejection() {
    let differs = "committed response hash differs from the signed transaction";
    assert_eq!(protocol_text(refused(|response| response.hash = None)), differs);
    assert_eq!(protocol_text(refused(|response| response.hash = Some([0; 32]))), differs);
    // A refusal under another hash is not one of this transaction.
    assert_eq!(
        protocol_text(refused(|response| {
            response.hash = None;
            response.check_tx.code = 9;
        })),
        differs
    );
    assert_eq!(
        protocol_text(refused(|response| response.height = 0)),
        "response has no positive committed height"
    );
    let range = u64::try_from(-1i64).unwrap_err().to_string();
    assert_eq!(protocol_text(refused(|response| response.tx_result.gas_used = -1)), range);
    assert_eq!(protocol_text(refused(|response| response.tx_result.gas_wanted = i64::MIN)), range);
    let decode = STANDARD.decode("not base64").unwrap_err().to_string();
    assert_eq!(
        protocol_text(refused(|response| response.tx_result.data = b"not base64".to_vec())),
        decode
    );
}

#[test]
fn explicit_rejections_are_kept_apart() {
    match refused(|response| {
        response.check_tx.code = 9;
        response.tx_result.code = 5;
        response.height = 0;
    }) {
        ProcessError::CosmwasmError(CosmwasmError::TxError(TxError::CheckTx {
            code,
            codespace,
            log,
            hash,
        })) => {
            assert_eq!((code, codespace.as_str(), log.as_str()), (9, "check", "checked"));
            assert_eq!(hash.len(), 64);
        }
        other => panic!("unexpected error {other:?}"),
    }
    match refused(|response| response.tx_result.code = 5) {
        ProcessError::CosmwasmError(CosmwasmError::TxError(TxError::Execution {
            code,
            codespace,
            log,
            hash,
            response,
        })) => {
            assert_eq!((code, codespace.as_str(), log.as_str()), (5, "wasm", "executed"));
            assert_eq!(hash, response.hash);
            assert_eq!(response.events, events());
            assert_eq!(response.data, b"data");
            assert_eq!(response.gas_used, 20001);
        }
        other => panic!("unexpected error {other:?}"),
    }
}
