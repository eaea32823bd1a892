use base64::engine::general_purpose::STANDARD;
use base64::Engine;
use dao_chain_client::digest::{read_base64, same_bytes, transaction_hash};

#[test]
fn base64_is_read_in_its_canonical_form_only() {
    for length in 0..40u8 {
        let bytes: Vec<u8> = (0..length).map(|i| i.wrapping_mul(67).wrapping_add(length)).collect();
        let text = STANDARD.encode(&bytes);
        assert_eq!(read_base64(text.as_bytes()).unwrap(), bytes);
    }
    assert_eq!(read_base64(b"/+9h").unwrap(), vec![0xFF, 0xEF, 0x61]);
    assert_eq!(read_base64(b"YQ==").unwrap(), b"a");
    for text in ["YQ", "YQ=", "YR==", "YWI", "YWJ=", "Y", "====", "YQ==YQ==", "-_9h", "YQ==\n"] {
        let refusal = STANDARD.decode(text).unwrap_err().to_string();
        assert_eq!(read_base64(text.as_bytes()).unwrap_err(), refusal);
    }
}

#[test]
fn hashes_are_those_of_the_bytes() {
    let hash: String = transaction_hash(b"abc").iter().map(|byte| format!("{byte:02x}")).collect();
    assert_eq!(hash, "ba7816bf8f01cfea414140de5dae2223b00361a396177a9cb410ff61f20015ad");
    assert!(same_bytes(b"abc", b"abc"));
    assert!(!same_bytes(b"abc", b"abd"));
    assert!(!same_bytes(b"abc", b"ab"));
    assert!(same_bytes(b"", b""));
}
