use cosmrs::proto::cosmos::tx::v1beta1::{AuthInfo, TxBody, TxRaw};
use cosmrs::proto::traits::Message;
use dao_chain_client::config::ChainConfig;
use dao_chain_client::error::ProcessError;
use dao_chain_client::identifiers::{Address, Denom};
use dao_chain_client::message::{Any, Coin};
use dao_chain_client::quantity::Quantity;
use dao_chain_client::signing::{fee, sign, simulation_bytes, Key, SigningKey};

const PHRASE: &str = "clip hire initial neck maid actor venue client foam budget lock catalog sweet \
                      steak waste crater broccoli pipe steak sister coyote moment obvious choose";
const ADDRESS: &str = "juno16g2rahf5846rxzp3fwlswy08fz8ccuwk03k57y";

fn key() -> SigningKey {
    SigningKey {
        name: "validator".into(),
        key: Key::Mnemonic(PHRASE.into()),
        derivation_path: "m/44'/118'/0'/0/0".into(),
    }
}

fn config() -> ChainConfig {
    ChainConfig {
        denom: "ujuno".into(),
        prefix: "juno".into(),
        chain_id: "testing".into(),
        derivation_path: "m/44'/118'/0'/0/0".into(),
        gas_price: Quantity { bits: 0.1f64.to_bits() },
        gas_adjustment: Quantity { bits: 1.5f64.to_bits() },
        rpc_endpoint: Some("http://127.0.0.1:26657".into()),
        grpc_endpoint: None,
    }
}

fn messages() -> Vec<Any> {
    vec![Any { type_url: "/test.Message".into(), value: vec![1, 2, 3] }]
}

#[test]
fn all_fixture_keys_paths_prefixes_and_redaction() {
    let fixture = key();
    assert_eq!(fixture.address("juno").unwrap().as_str(), ADDRESS);
    assert!(!fixture.describe().contains(PHRASE));
    let mut different = fixture.clone();
    different.derivation_path = "m/44'/118'/0'/0/1".into();
    assert_ne!(different.address("juno").unwrap(), fixture.address("juno").unwrap());
    different.derivation_path = fixture.derivation_path.clone();
    different.name = "another".into();
    assert_eq!(different.address("juno").unwrap(), fixture.address("juno").unwrap());
    let mut bad = key();
    bad.derivation_path = "invalid".into();
    assert!(matches!(bad.address("juno"), Err(ProcessError::Signing(_))));
    bad.key = Key::Mnemonic("not a mnemonic".into());
    assert!(matches!(bad.address("juno"), Err(ProcessError::Signing(_))));
}

#[test]
fn each_fault_of_a_key_is_reported() {
    let mut both = key();
    both.key = Key::Mnemonic("not a mnemonic".into());
    both.derivation_path = "invalid".into();
    assert!(matches!(
        both.address("Juno"),
        Err(ProcessError::Signing(text)) if text == "invalid BIP39 mnemonic"
    ));
    let mut path = key();
    path.derivation_path = "44'/118'".into();
    assert!(matches!(
        path.address("Juno"),
        Err(ProcessError::Signing(text)) if text == "invalid derivation path"
    ));
    for prefix in ["Juno", "ju-no", "ju no", "jüno"] {
        assert!(matches!(
            key().address(prefix),
            Err(ProcessError::Signing(text)) if text == "invalid account prefix"
        ));
    }
    let other = key().address("cosmos").unwrap();
    assert!(other.as_str().starts_with("cosmos1"));
    assert_ne!(other.as_str(), ADDRESS);
}

#[test]
fn a_key_is_shown_without_its_phrase() {
    let shown = r#"SigningKey { name: "valid\"ator", key: Mnemonic([REDACTED]), derivation_path: "m/44'/118'/0'/0/0" }"#;
    let mut named = key();
    named.name = "valid\"ator".into();
    assert_eq!(named.describe(), shown);
    named.key = Key::Mnemonic("another phrase".into());
    assert_eq!(named.describe(), shown);
    assert_eq!(named.key.redacted(), "Mnemonic([REDACTED])");
}

#[test]
fn simulated_and_signed_transactions_carry_the_same_messages() {
    let simulated = simulation_bytes(&messages(), 5, "ujuno").unwrap();
    let simulated = TxRaw::decode(simulated.as_slice()).unwrap();
    let signer = key().derive("juno").unwrap();
    assert_eq!(signer.address().as_str(), ADDRESS);
    let quoted = fee(20001, &config()).unwrap();
    let bytes = sign(&signer, &messages(), 7, 5, &quoted, "testing").unwrap();
    assert_eq!(bytes, sign(&signer, &messages(), 7, 5, &quoted, "testing").unwrap());
    assert_ne!(bytes, sign(&signer, &messages(), 8, 5, &quoted, "testing").unwrap());
    assert_ne!(bytes, sign(&signer, &messages(), 7, 5, &quoted, "other").unwrap());
    let signed = TxRaw::decode(bytes.as_slice()).unwrap();
    let bodies = [&simulated, &signed]
        .map(|raw| TxBody::decode(raw.body_bytes.as_slice()).unwrap());
    assert_eq!(bodies[0].messages, bodies[1].messages);
    assert_eq!(bodies[0].messages[0].value, vec![1, 2, 3]);
    assert_eq!(bodies[0].memo, "cosm-client memo");
    assert_eq!(bodies[1].memo, "Made with cosm-tome client");
    let auths = [&simulated, &signed]
        .map(|raw| AuthInfo::decode(raw.auth_info_bytes.as_slice()).unwrap());
    assert_eq!(auths[0].signer_infos[0].sequence, 5);
    assert_eq!(auths[1].signer_infos[0].sequence, 5);
    assert!(auths[0].signer_infos[0].public_key.is_none());
    assert!(auths[1].signer_infos[0].public_key.is_some());
    assert_eq!(simulated.signatures, vec![Vec::<u8>::new()]);
    assert_eq!(signed.signatures.len(), 1);
    assert_eq!(signed.signatures[0].len(), 64);
}

#[test]
fn names_that_are_none_are_refused() {
    let refusal = "x".parse::<cosmrs::Denom>().unwrap_err().to_string();
    assert!(matches!(
        simulation_bytes(&messages(), 5, "x"),
        Err(ProcessError::Protocol(text)) if text == refusal
    ));
    let signer = key().derive("juno").unwrap();
    let quoted = fee(20001, &config()).unwrap();
    assert!(matches!(
        sign(&signer, &messages(), 7, 5, &quoted, "no chain"),
        Err(ProcessError::Protocol(_))
    ));
    assert_eq!(Coin::new(3, "x").unwrap_err(), refusal);
    let coin = Coin::new(3, "ujuno").unwrap();
    assert_eq!((coin.denom.as_str(), coin.amount), ("ujuno", 3));
    assert_eq!(Denom::parse("x").unwrap_err(), refusal);
    assert_eq!(Denom::parse("ujuno").unwrap(), coin.denom);
}

#[test]
fn addresses_are_read_in_either_case() {
    assert_eq!(Address::parse(ADDRESS).unwrap().as_str(), ADDRESS);
    assert_eq!(Address::parse(&ADDRESS.to_uppercase()).unwrap().as_str(), ADDRESS);
    let broken = ADDRESS.replace("16g", "17g");
    let refusal = broken.parse::<cosmrs::AccountId>().unwrap_err().to_string();
    assert_eq!(Address::parse(&broken).unwrap_err(), refusal);
}
