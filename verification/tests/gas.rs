use dao_chain_client::gas::{record, GasEntry, GasReport};
use dao_chain_client::receipt::Receipt;
use serde_json::Value;

fn receipt() -> Receipt {
    Receipt {
        hash: "hash".into(),
        height: 1,
        code: 0,
        codespace: String::new(),
        log: String::new(),
        data: vec![],
        events: vec![],
        gas_wanted: 120,
        gas_used: 100,
    }
}

fn encoded(report: &GasReport) -> Value {
    let mut contracts = serde_json::Map::new();
    for (contract, operations) in report.entries() {
        let mut entries = serde_json::Map::new();
        for (operation, entry) in operations.entries() {
            let mut fields = serde_json::Map::new();
            fields.insert("gas_wanted".into(), Value::from(entry.gas_wanted));
            fields.insert("gas_used".into(), Value::from(entry.gas_used));
            fields.insert("file_name".into(), Value::from(entry.file_name.clone()));
            fields.insert("line_number".into(), Value::from(entry.line_number));
            entries.insert(operation.clone(), Value::Object(fields));
        }
        contracts.insert(contract.clone(), Value::Object(entries));
    }
    Value::Object(contracts)
}

#[test]
fn report_shape_and_operation_keys_remain_compatible() {
    let mut report = Some(GasReport::new());
    let receipt = receipt();
    let (file, line) = ("tests/report.rs", 59);
    record(&mut report, "contract", "Store", "Store", &receipt, file, line);
    let expected: Value = serde_json::from_str(&format!(
        r#"{{"contract":{{"Store__Store":{{
            "gas_wanted":120,"gas_used":100,"file_name":{:?},"line_number":{}
        }}}}}}"#,
        file,
        line
    ))
    .unwrap();
    assert_eq!(encoded(&report.unwrap()), expected);
    let mut disabled = None;
    record(
        &mut disabled,
        "contract",
        "execute",
        "Execute",
        &receipt,
        file,
        line,
    );
    assert!(disabled.is_none());
}

#[test]
fn recording_replaces_one_entry_and_keeps_the_others() {
    let mut report = Some(GasReport::new());
    let mut receipt = receipt();
    record(&mut report, "a", "mint", "Execute", &receipt, "one.rs", 1);
    record(&mut report, "a", "burn", "Execute", &receipt, "one.rs", 2);
    record(&mut report, "b", "mint", "Execute", &receipt, "one.rs", 3);
    receipt.gas_used = 7;
    record(&mut report, "a", "mint", "Execute", &receipt, "two.rs", 4);
    let report = report.unwrap();
    let entry = |gas_used, file: &str, line_number| GasEntry {
        gas_wanted: 120,
        gas_used,
        file_name: file.into(),
        line_number,
    };
    assert_eq!(report.len(), 2);
    let a = report.get("a").unwrap();
    assert_eq!(a.len(), 2);
    assert_eq!(a.get("Execute__mint"), Some(&entry(7, "two.rs", 4)));
    assert_eq!(a.get("Execute__burn"), Some(&entry(100, "one.rs", 2)));
    let b = report.get("b").unwrap();
    assert_eq!(b.get("Execute__mint"), Some(&entry(100, "one.rs", 3)));
}
