use dao_chain_client::config::DeployInfo;
use dao_chain_client::error::ProcessError;
use dao_chain_client::names::NameMap;
use dao_chain_client::registry::ContractMap;
use serde_yaml::Value;
use std::collections::BTreeMap;

fn to_yaml(map: &NameMap<DeployInfo>) -> String {
    let mut entries = BTreeMap::new();
    for (name, info) in map.entries() {
        let mut fields = BTreeMap::new();
        fields.insert("code_id", info.code_id.map_or(Value::Null, Value::from));
        fields.insert("address", info.address.clone().map_or(Value::Null, Value::from));
        entries.insert(name.clone(), fields);
    }
    serde_yaml::to_string(&entries).unwrap()
}

fn from_yaml(text: &str) -> NameMap<DeployInfo> {
    let entries: BTreeMap<String, BTreeMap<String, Value>> = serde_yaml::from_str(text).unwrap();
    let mut map = NameMap::new();
    for (name, fields) in entries {
        let info = DeployInfo {
            code_id: fields["code_id"].as_u64(),
            address: fields["address"].as_str().map(String::from),
        };
        map.insert(&name, info);
    }
    map
}

fn sorted(map: &NameMap<DeployInfo>) -> Vec<(String, DeployInfo)> {
    let mut entries: Vec<(String, DeployInfo)> = map.entries().to_vec();
    entries.sort_by(|left, right| left.0.cmp(&right.0));
    entries
}

#[test]
fn preserves_code_address_and_named_variant_identity() {
    let mut registry = ContractMap::new(NameMap::new());
    assert!(registry.code_id("missing").is_err());
    assert!(registry.address("missing").is_err());
    registry.register("token-default", 1);
    registry.register("token-thorchain", 2);
    registry.add_address("token-default", "first").unwrap();
    registry.add_address("token-default", "second").unwrap();
    registry.register("token-default", 3);
    assert_eq!(registry.address("token-default").unwrap(), "second");
    assert_eq!(registry.code_id("token-default").unwrap(), 3);
    assert_eq!(registry.code_id("token-thorchain").unwrap(), 2);
    assert!(registry.code_id("token").is_err());
    let persisted = to_yaml(registry.deploy_info());
    let restored = ContractMap::new(from_yaml(&persisted));
    assert_eq!(sorted(restored.deploy_info()), sorted(registry.deploy_info()));
    assert_eq!(registry.deploy_info().len(), 2);
    let copy = ContractMap::new(registry.deploy_info().clone());
    assert_eq!(copy.address("token-default").unwrap(), "second");
    assert_eq!(copy.code_id("token-default").unwrap(), 3);
    assert_eq!(copy.code_id("token-thorchain").unwrap(), 2);
    assert_eq!(sorted(copy.clone().deploy_info()), sorted(registry.deploy_info()));
}

#[test]
fn what_is_missing_is_named() {
    let mut registry = ContractMap::new(NameMap::new());
    registry.add_address("child", "somewhere").unwrap();
    registry.register("stored", 9);
    assert!(matches!(
        registry.code_id("child"),
        Err(ProcessError::Registry(text)) if text == "child has not been stored"
    ));
    assert!(matches!(
        registry.address("stored"),
        Err(ProcessError::Registry(text)) if text == "stored has not been instantiated"
    ));
    assert_eq!(registry.address("child").unwrap(), "somewhere");
    assert_eq!(registry.code_id("stored").unwrap(), 9);
}

#[test]
fn a_name_map_holds_the_last_value_of_each_name() {
    let mut map: NameMap<DeployInfo> = NameMap::new();
    assert!(map.is_empty());
    let info = |code_id| DeployInfo { code_id: Some(code_id), address: None };
    map.insert("b", info(1));
    map.insert("a", info(2));
    map.insert("b", info(3));
    assert_eq!(map.len(), 2);
    assert_eq!(map.get("b"), Some(&info(3)));
    assert_eq!(map.get("c"), None);
    assert_eq!(map.remove("c"), None);
    assert_eq!(map.remove("b"), Some(info(3)));
    assert_eq!(map.get("b"), None);
    assert_eq!(map.entries(), &vec![("a".to_string(), info(2))]);
    assert!(!map.is_empty());
    let copy = map.clone();
    map.insert("a", info(7));
    assert_eq!(copy.get("a"), Some(&info(2)));
    assert_eq!(copy.len(), 1);
}
