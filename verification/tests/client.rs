use cosmrs::proto::cosmos::bank::v1beta1::{QueryBalanceRequest, QueryBalanceResponse};
use cosmrs::proto::cosmos::base::abci::v1beta1::TxMsgData;
use cosmrs::proto::cosmos::base::v1beta1 as base;
use cosmrs::proto::cosmos::staking::v1beta1::{
    QueryValidatorsRequest, QueryValidatorsResponse, Validator,
};
use cosmrs::proto::cosmwasm::wasm::v1::{
    MsgExecuteContract, MsgInstantiateContract, MsgInstantiateContractResponse, MsgStoreCode,
    QuerySmartContractStateRequest, QuerySmartContractStateResponse,
};
use cosmrs::proto::traits::Message;
use dao_chain_client::client::{store_message, ChainClient};
use dao_chain_client::config::{ChainConfig, Config};
use dao_chain_client::error::ProcessError;
use dao_chain_client::identifiers::Address;
use dao_chain_client::message::{AccessConfig, Coin};
use dao_chain_client::names::NameMap;
use dao_chain_client::quantity::Quantity;
use dao_chain_client::receipt::Receipt;
use dao_chain_client::rpc::{Answer, QueryReply, Rpc};
use dao_chain_client::status::{
    BlockTime, NodeInfo, NodeStatus, ProtocolVersion, SyncInfo, ValidatorInfo,
};

const ADDRESS: &str = "juno16g2rahf5846rxzp3fwlswy08fz8ccuwk03k57y";

fn client() -> ChainClient {
    let chain_cfg = ChainConfig {
        denom: "ujuno".into(),
        prefix: "juno".into(),
        chain_id: "testing".into(),
        derivation_path: "m/44'/118'/0'/0/0".into(),
        gas_price: Quantity { bits: 0.1f64.to_bits() },
        gas_adjustment: Quantity { bits: 1.5f64.to_bits() },
        rpc_endpoint: Some("http://127.0.0.1:26657".into()),
        grpc_endpoint: None,
    };
    ChainClient::new(Config { chain_cfg, contract_deploy_info: NameMap::new() }, true).unwrap()
}

fn receipt(data: Vec<u8>) -> Receipt {
    Receipt {
        hash: "hash".into(),
        height: 1,
        code: 0,
        codespace: String::new(),
        log: String::new(),
        data,
        events: vec![],
        gas_wanted: 120,
        gas_used: 100,
    }
}

fn instantiated(address: &str) -> Receipt {
    let response = MsgInstantiateContractResponse { address: address.into(), data: vec![] };
    receipt(
        TxMsgData {
            msg_responses: vec![cosmrs::Any {
                type_url: "/cosmwasm.wasm.v1.MsgInstantiateContractResponse".into(),
                value: response.encode_to_vec(),
            }],
            ..Default::default()
        }
        .encode_to_vec(),
    )
}

fn answer(value: Vec<u8>) -> Answer<QueryReply, String> {
    Answer::Reply(QueryReply { code: 0, codespace: String::new(), log: String::new(), value })
}

fn rejected() -> Answer<QueryReply, String> {
    Answer::Reply(QueryReply {
        code: 18,
        codespace: "sdk".into(),
        log: "unknown".into(),
        value: vec![],
    })
}

#[test]
fn storage_messages_carry_code_and_permission() {
    let access = AccessConfig { permission: 2, addresses: vec![ADDRESS.into()] };
    let message = store_message("sender", b"code", &Some(access));
    assert_eq!(message.type_url, "/cosmwasm.wasm.v1.MsgStoreCode");
    let store = MsgStoreCode::decode(message.value.as_slice()).unwrap();
    assert_eq!(store.sender, "sender");
    assert_eq!(store.wasm_byte_code, b"code");
    let permission = store.instantiate_permission.unwrap();
    assert_eq!((permission.permission, permission.addresses), (2, vec![ADDRESS.to_string()]));
}

#[test]
fn instantiation_takes_stored_code_and_enters_the_confirmed_address() {
    let mut client = client();
    assert!(matches!(
        client.instantiate("dao", "init", None, vec![]),
        Err(ProcessError::Registry(text)) if text == "dao has not been stored"
    ));
    client.contract_map.register("dao", 42);
    let admin = Address::parse(ADDRESS).unwrap();
    let funds = vec![Coin::new(7, "ujuno").unwrap(), Coin::new(u128::MAX, "uatom").unwrap()];
    let call = client.instantiate("dao", "init", Some(admin), funds).unwrap();
    let message = call.message("sender", Ok(b"{}".to_vec())).unwrap();
    assert_eq!(message.type_url, "/cosmwasm.wasm.v1.MsgInstantiateContract");
    let sent = MsgInstantiateContract::decode(message.value.as_slice()).unwrap();
    assert_eq!((sent.sender.as_str(), sent.admin.as_str()), ("sender", ADDRESS));
    assert_eq!((sent.code_id, sent.label.as_str()), (42, "cosm-orc"));
    assert_eq!(sent.msg, b"{}");
    assert_eq!(sent.funds[0].denom, "ujuno");
    assert_eq!(sent.funds[0].amount, "7");
    assert_eq!(sent.funds[1].amount, u128::MAX.to_string());
    assert!(matches!(
        call.message("sender", Err("no text".into())),
        Err(ProcessError::Json(text)) if text == "no text"
    ));

    let failed = client.instantiated(&call, Err(ProcessError::Rpc("down".into())), "a.rs", 1);
    assert!(matches!(failed, Err(ProcessError::Rpc(text)) if text == "down"));
    let refusal = "nowhere".parse::<cosmrs::AccountId>().unwrap_err().to_string();
    let failed = client.instantiated(&call, Ok(instantiated("nowhere")), "a.rs", 1);
    assert!(matches!(failed, Err(ProcessError::Protocol(text)) if text == refusal));
    let failed = client.instantiated(&call, Ok(receipt(vec![])), "a.rs", 1);
    assert!(matches!(failed, Err(ProcessError::Protocol(_))));
    assert!(client.contract_map.address("dao").is_err());
    assert!(client.gas_profiler_report().unwrap().is_empty());

    let response = client.instantiated(&call, Ok(instantiated(ADDRESS)), "a.rs", 9).unwrap();
    assert_eq!((response.address.as_str(), response.res.gas_used), (ADDRESS, 100));
    assert_eq!(client.contract_map().address("dao").unwrap(), ADDRESS);
    assert_eq!(client.contract_map.code_id("dao").unwrap(), 42);
    client.contract_map_mut().add_address("child", "found").unwrap();
    assert_eq!(client.contract_map.address("child").unwrap(), "found");
    let report = client.gas_profiler_report().unwrap();
    assert_eq!(report.get("dao").unwrap().get("Instantiate__init").unwrap().line_number, 9);

    let plain = client.instantiate("dao", "init", None, vec![]).unwrap();
    let message = plain.message("sender", Ok(vec![])).unwrap();
    assert_eq!(MsgInstantiateContract::decode(message.value.as_slice()).unwrap().admin, "");
}

#[test]
fn execution_takes_an_instantiated_contract() {
    let mut client = client();
    client.contract_map.register("dao", 42);
    assert!(matches!(
        client.execute("dao", "vote", vec![]),
        Err(ProcessError::Registry(text)) if text == "dao has not been instantiated"
    ));
    client.contract_map.add_address("dao", ADDRESS).unwrap();
    let call = client.execute("dao", "vote", vec![Coin::new(1, "ujuno").unwrap()]).unwrap();
    let message = call.message("sender", Ok(b"{\"vote\":{}}".to_vec())).unwrap();
    assert_eq!(message.type_url, "/cosmwasm.wasm.v1.MsgExecuteContract");
    let sent = MsgExecuteContract::decode(message.value.as_slice()).unwrap();
    assert_eq!((sent.sender.as_str(), sent.contract.as_str()), ("sender", ADDRESS));
    assert_eq!(sent.msg, b"{\"vote\":{}}");
    assert_eq!(sent.funds[0].amount, "1");
    assert!(matches!(
        call.message("sender", Err("no text".into())),
        Err(ProcessError::Json(_))
    ));
    let failed = client.executed(&call, Err(ProcessError::Timeout { hash: None }), "a.rs", 1);
    assert!(matches!(failed, Err(ProcessError::Timeout { hash: None })));
    assert!(client.gas_profiler_report().unwrap().is_empty());
    let done = client.executed(&call, Ok(receipt(vec![5])), "a.rs", 3).unwrap();
    assert_eq!(done.data, vec![5]);
    let report = client.gas_profiler_report().unwrap();
    let entry = report.get("dao").unwrap().get("Execute__vote").unwrap();
    assert_eq!((entry.gas_wanted, entry.gas_used, entry.line_number), (120, 100, 3));
}

#[test]
fn contracts_are_queried_at_their_address() {
    let mut client = client();
    assert!(matches!(
        client.query("dao", Err("no text".into())),
        Err(ProcessError::Registry(_))
    ));
    client.contract_map.add_address("dao", ADDRESS).unwrap();
    assert!(matches!(
        client.query("dao", Err("no text".into())),
        Err(ProcessError::Json(text)) if text == "no text"
    ));
    let query = client.query("dao", Ok(b"{}".to_vec())).unwrap();
    assert_eq!(query.path, "/cosmwasm.wasm.v1.Query/SmartContractState");
    let sent = QuerySmartContractStateRequest::decode(query.data.as_slice()).unwrap();
    assert_eq!((sent.address.as_str(), sent.query_data.as_slice()), (ADDRESS, b"{}".as_slice()));
    let reply = QuerySmartContractStateResponse { data: b"\"juno-address\"".to_vec() };
    let response = ChainClient::queried(answer(reply.encode_to_vec())).unwrap();
    assert_eq!(response.bytes(), b"\"juno-address\"");
    let refusal =
        QuerySmartContractStateResponse::decode([255].as_slice()).unwrap_err().to_string();
    assert!(matches!(
        ChainClient::queried(answer(vec![255])),
        Err(ProcessError::Protocol(text)) if text == refusal
    ));
    assert!(matches!(
        ChainClient::queried(rejected()),
        Err(ProcessError::Query { code: 18, codespace, log })
            if codespace == "sdk" && log == "unknown"
    ));
    assert!(matches!(
        ChainClient::queried(Answer::Failed("down".into())),
        Err(ProcessError::Rpc(text)) if text == "down"
    ));
    assert!(matches!(
        ChainClient::queried(Answer::Deadline),
        Err(ProcessError::Timeout { hash: None })
    ));
}

#[test]
fn query_data_can_borrow_a_string() {
    let reply = QuerySmartContractStateResponse { data: br#""juno-address""#.to_vec() };
    let response = ChainClient::queried(answer(reply.encode_to_vec())).unwrap();
    let address: &str = serde_json::from_slice(response.bytes()).unwrap();
    assert_eq!(address, "juno-address");
}

fn balance(denom: &str, amount: &str) -> Result<u128, ProcessError> {
    let coin = base::Coin { denom: denom.into(), amount: amount.into() };
    let reply = QueryBalanceResponse { balance: Some(coin) };
    ChainClient::balance(answer(reply.encode_to_vec()), "ujuno")
}

#[test]
fn balances_are_decimal_and_of_the_denomination_asked_for() {
    let query = ChainClient::balance_request(ADDRESS, "ujuno");
    assert_eq!(query.path, "/cosmos.bank.v1beta1.Query/Balance");
    let sent = QueryBalanceRequest::decode(query.data.as_slice()).unwrap();
    assert_eq!((sent.address.as_str(), sent.denom.as_str()), (ADDRESS, "ujuno"));
    assert_eq!(balance("ujuno", "1000").unwrap(), 1000);
    assert_eq!(balance("ujuno", "+007").unwrap(), 7);
    assert_eq!(balance("ujuno", &u128::MAX.to_string()).unwrap(), u128::MAX);
    for amount in ["", "+", "-1", "1.5", " 1", "340282366920938463463374607431768211456"] {
        let refusal = amount.parse::<u128>().unwrap_err().to_string();
        assert!(matches!(
            balance("ujuno", amount),
            Err(ProcessError::Protocol(text)) if text == refusal
        ));
    }
    assert!(matches!(
        balance("uatom", "1000"),
        Err(ProcessError::Protocol(text))
            if text == "bank query returned a different denomination"
    ));
    let reply = QueryBalanceResponse { balance: None };
    assert!(matches!(
        ChainClient::balance(answer(reply.encode_to_vec()), "ujuno"),
        Err(ProcessError::Protocol(text)) if text == "bank query omitted balance"
    ));
    assert!(matches!(
        ChainClient::balance(answer(vec![255]), "ujuno"),
        Err(ProcessError::Protocol(_))
    ));
    assert!(matches!(
        ChainClient::balance(rejected(), "ujuno"),
        Err(ProcessError::Query { code: 18, .. })
    ));
}

#[test]
fn validators_are_listed_by_their_operators() {
    let query = ChainClient::validators_request();
    assert_eq!(query.path, "/cosmos.staking.v1beta1.Query/Validators");
    let sent = QueryValidatorsRequest::decode(query.data.as_slice()).unwrap();
    assert_eq!(sent.status, "BOND_STATUS_BONDED");
    assert!(sent.pagination.is_none());
    let validator =
        |address: &str| Validator { operator_address: address.into(), ..Default::default() };
    let reply = QueryValidatorsResponse {
        validators: vec![validator("b"), validator("a")],
        pagination: None,
    };
    assert_eq!(
        ChainClient::bonded_validators(answer(reply.encode_to_vec())).unwrap(),
        vec!["b".to_string(), "a".to_string()]
    );
    assert!(matches!(
        ChainClient::bonded_validators(answer(vec![255])),
        Err(ProcessError::Protocol(_))
    ));
    assert!(matches!(
        ChainClient::bonded_validators(Answer::Failed("down".into())),
        Err(ProcessError::Rpc(_))
    ));
}

fn status(network: &str, version: &str) -> Answer<NodeStatus, String> {
    Answer::Reply(NodeStatus {
        node_info: NodeInfo {
            protocol_version: ProtocolVersion { p2p: 8, block: 11, app: 0 },
            id: vec![0; 20],
            listen_addr: "tcp://127.0.0.1:26656".into(),
            network: network.into(),
            version: version.into(),
            channels: "40".into(),
            moniker: "mock".into(),
            tx_index: true,
            rpc_address: "tcp://127.0.0.1:26657".into(),
        },
        sync_info: SyncInfo {
            earliest_block_hash: None,
            earliest_app_hash: vec![],
            earliest_block_height: 1,
            earliest_block_time: BlockTime { seconds: 0, nanos: 0 },
            latest_block_hash: Some([0; 32]),
            latest_app_hash: vec![0; 32],
            latest_block_height: 12,
            latest_block_time: BlockTime { seconds: 1_700_000_000, nanos: 999_999_999 },
            catching_up: false,
        },
        validator_info: ValidatorInfo {
            address: vec![0; 20],
            key_type: "tendermint/PubKeyEd25519".into(),
            key: vec![0; 32],
            power: 10,
            name: None,
            proposer_priority: 0,
        },
    })
}

#[test]
fn nodes_have_to_follow_the_chain_and_to_run_a_known_version() {
    let client = client();
    let rpc: &Rpc = client.rpc();
    for version in ["0.37.0", "0.37.2", "0.38.17", "0.38."] {
        assert_eq!(rpc.status(status("testing", version)).unwrap().node_info.version, version);
    }
    for version in ["0.39.0", "0.3", "0.370.1", "0.37", "1.0.37.0", ""] {
        assert!(matches!(
            rpc.status(status("testing", version)),
            Err(ProcessError::Protocol(text))
                if text == "this fixture client requires CometBFT 0.37 or 0.38"
        ));
    }
    assert!(matches!(
        rpc.status(status("testing-2", "0.39.0")),
        Err(ProcessError::Protocol(text))
            if text == "node chain ID does not match configured chain_id"
    ));
    assert!(matches!(
        rpc.status(Answer::Failed("down".into())),
        Err(ProcessError::Rpc(text)) if text == "down"
    ));
    assert!(matches!(
        rpc.status(Answer::Deadline),
        Err(ProcessError::Timeout { hash: None })
    ));
}
