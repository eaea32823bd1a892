use dao_chain_client::config::{ChainConfig, Config, DeployInfo};
use dao_chain_client::error::ProcessError;
use dao_chain_client::client::ChainClient;
use dao_chain_client::names::NameMap;
use dao_chain_client::quantity::Quantity;
use dao_chain_client::rpc::Rpc;
use dao_chain_client::signing;
use serde_yaml::Value;
use std::collections::BTreeMap;

fn number(value: f64) -> Quantity {
    Quantity { bits: value.to_bits() }
}

fn config() -> Config {
    Config {
        chain_cfg: ChainConfig {
            denom: "ujuno".into(),
            prefix: "juno".into(),
            chain_id: "testing".into(),
            derivation_path: "m/44'/118'/0'/0/0".into(),
            gas_price: number(0.1),
            gas_adjustment: number(1.5),
            rpc_endpoint: Some("http://127.0.0.1:26657".into()),
            grpc_endpoint: Some("http://127.0.0.1:9090".into()),
        },
        contract_deploy_info: NameMap::new(),
    }
}

fn optional(text: &Option<String>) -> Value {
    text.clone().map_or(Value::Null, Value::from)
}

fn to_yaml(cfg: &Config) -> String {
    let chain = &cfg.chain_cfg;
    let mut fields = BTreeMap::new();
    fields.insert("denom", Value::from(chain.denom.clone()));
    fields.insert("prefix", Value::from(chain.prefix.clone()));
    fields.insert("chain_id", Value::from(chain.chain_id.clone()));
    fields.insert("derivation_path", Value::from(chain.derivation_path.clone()));
    fields.insert("gas_price", Value::from(f64::from_bits(chain.gas_price.bits)));
    fields.insert("gas_adjustment", Value::from(f64::from_bits(chain.gas_adjustment.bits)));
    fields.insert("rpc_endpoint", optional(&chain.rpc_endpoint));
    fields.insert("grpc_endpoint", optional(&chain.grpc_endpoint));
    let mut contracts = BTreeMap::new();
    for (name, info) in cfg.contract_deploy_info.entries() {
        let mut entry = BTreeMap::new();
        entry.insert("code_id", info.code_id.map_or(Value::Null, Value::from));
        entry.insert("address", optional(&info.address));
        contracts.insert(name.clone(), serde_yaml::to_value(entry).unwrap());
    }
    let mut whole = BTreeMap::new();
    whole.insert("chain_cfg", serde_yaml::to_value(fields).unwrap());
    whole.insert("contract_deploy_info", serde_yaml::to_value(contracts).unwrap());
    serde_yaml::to_string(&whole).unwrap()
}

fn from_yaml(text: &str) -> Config {
    let value: Value = serde_yaml::from_str(text).unwrap();
    let chain = &value["chain_cfg"];
    let text = |field: &str| chain[field].as_str().map(String::from);
    let mut contract_deploy_info = NameMap::new();
    for (name, info) in value["contract_deploy_info"].as_mapping().unwrap() {
        contract_deploy_info.insert(
            name.as_str().unwrap(),
            DeployInfo {
                code_id: info["code_id"].as_u64(),
                address: info["address"].as_str().map(String::from),
            },
        );
    }
    Config {
        chain_cfg: ChainConfig {
            denom: text("denom").unwrap(),
            prefix: text("prefix").unwrap(),
            chain_id: text("chain_id").unwrap(),
            derivation_path: text("derivation_path").unwrap(),
            gas_price: number(chain["gas_price"].as_f64().unwrap()),
            gas_adjustment: number(chain["gas_adjustment"].as_f64().unwrap()),
            rpc_endpoint: text("rpc_endpoint"),
            grpc_endpoint: text("grpc_endpoint"),
        },
        contract_deploy_info,
    }
}

#[test]
fn configuration_round_trip_and_fee_bounds() {
    let mut cfg = config();
    cfg.chain_cfg.rpc_endpoint = None;
    assert!(
        matches!(cfg.chain_cfg.validate(), Err(ProcessError::Config(s)) if s.contains("rpc_endpoint"))
    );
    cfg.chain_cfg.rpc_endpoint = Some("http://127.0.0.1:26657".into());
    cfg.contract_deploy_info.insert(
        "test-default",
        DeployInfo { code_id: Some(42), address: Some("stored-address".into()) },
    );
    let restored = from_yaml(&to_yaml(&cfg));
    assert_eq!(restored.contract_deploy_info.entries(), cfg.contract_deploy_info.entries());
    assert_eq!(restored.chain_cfg.grpc_endpoint, cfg.chain_cfg.grpc_endpoint);
    assert_eq!(restored.chain_cfg.rpc_endpoint, cfg.chain_cfg.rpc_endpoint);
    assert_eq!(restored.chain_cfg, cfg.chain_cfg);
    let fee = signing::fee(20001, &cfg.chain_cfg).unwrap();
    assert_eq!(fee.gas_limit(), 30002);
    assert_eq!(fee.amount(), 3001);
    assert!(signing::fee(u64::MAX, &cfg.chain_cfg).is_err());
    cfg.chain_cfg.gas_price = number(f64::NAN);
    assert!(cfg.chain_cfg.validate().is_err());
}

fn fault(change: impl Fn(&mut ChainConfig)) -> String {
    let mut chain = config().chain_cfg;
    change(&mut chain);
    match chain.validate() {
        Err(ProcessError::Config(text)) => text,
        other => panic!("unexpected outcome {other:?}"),
    }
}

#[test]
fn each_fault_of_a_configuration_is_reported() {
    let endpoint = "rpc_endpoint is required; supply the RPC URL for this chain (a grpc_endpoint cannot be substituted)";
    assert_eq!(fault(|chain| chain.rpc_endpoint = None), endpoint);
    assert_eq!(fault(|chain| chain.rpc_endpoint = Some(String::new())), endpoint);
    let rates = "gas price/adjustment must be finite and nonnegative/positive";
    for price in [-0.1, f64::NAN, f64::INFINITY, f64::NEG_INFINITY, -5e-324] {
        assert_eq!(fault(|chain| chain.gas_price = number(price)), rates);
    }
    for adjustment in [0.0, -0.0, -1.5, f64::NAN, f64::INFINITY] {
        assert_eq!(fault(|chain| chain.gas_adjustment = number(adjustment)), rates);
    }
    for name in ["", "with space", "x/y", &"a".repeat(51)] {
        assert!(name.parse::<cosmrs::tendermint::chain::Id>().is_err());
        fault(|chain| chain.chain_id = name.into());
    }
    for denom in ["", "ab", "white space", &"a".repeat(129)] {
        let refusal = denom.parse::<cosmrs::Denom>().unwrap_err().to_string();
        assert_eq!(fault(|chain| chain.denom = denom.into()), refusal);
    }
    // The first fault is the one that is reported.
    assert_eq!(
        fault(|chain| {
            chain.rpc_endpoint = None;
            chain.gas_price = number(-1.0);
            chain.denom = String::new();
        }),
        endpoint
    );
}

#[test]
fn a_usable_configuration_names_its_endpoint() {
    let mut chain = config().chain_cfg;
    chain.gas_price = number(-0.0);
    chain.chain_id = "a".repeat(50);
    chain.denom = "ibc/A-b_c.d:9".into();
    assert_eq!(chain.validate().unwrap(), "http://127.0.0.1:26657");
    chain.grpc_endpoint = None;
    assert_eq!(chain.validate().unwrap(), "http://127.0.0.1:26657");
}

#[test]
fn an_endpoint_has_to_be_one() {
    let mut cfg = config();
    cfg.chain_cfg.rpc_endpoint = Some("not a url".into());
    assert!(matches!(Rpc::new(cfg.chain_cfg.clone()), Err(ProcessError::Rpc(_))));
    assert!(matches!(ChainClient::new(cfg, true), Err(ProcessError::Rpc(_))));
    let mut cfg = config();
    cfg.chain_cfg.rpc_endpoint = None;
    assert!(matches!(Rpc::new(cfg.chain_cfg), Err(ProcessError::Config(_))));
    assert_eq!(Rpc::new(config().chain_cfg).unwrap().config(), &config().chain_cfg);
}
